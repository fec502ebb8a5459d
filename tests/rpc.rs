use chain_core::address::Address;
use chain_core::index::TipsetKey;
use chain_core::rpc::{
    check_args, ActorEventBlock, ActorEventFilter, ArgsError, ConcreteCallingConvention,
    ContentDescriptor, ParamStructure, ServiceFn, Signature,
};

fn names(ns: &[&str]) -> Vec<String> {
    ns.iter().map(|s| s.to_string()).collect()
}

#[test]
fn signature_into_method() {
    let p = ContentDescriptor { name: "p0".to_string(), required: true };
    let ret = ContentDescriptor { name: "ret".to_string(), required: false };
    let sig = Signature {
        params: vec![p.clone()],
        calling_convention: ParamStructure::ByPosition,
        return_type: Some(ret.clone()),
    };
    let m = sig.into_method("Filecoin.ChainHead".to_string());
    assert_eq!(m.name, "Filecoin.ChainHead");
    assert_eq!(m.params, vec![p]);
    assert_eq!(m.param_structure, ParamStructure::ByPosition);
    assert_eq!(m.result, Some(ret));
}

#[test]
fn args_checks() {
    assert_eq!(check_args(&names(&[]), &vec![]), Ok(()));
    assert_eq!(check_args(&names(&["a", "b", "c"]), &vec![false, true, true]), Ok(()));
    assert_eq!(
        check_args(&names(&["a", "b", "a"]), &vec![false, false, false]),
        Err(ArgsError::DuplicateNames)
    );
    assert_eq!(
        check_args(&names(&["a", "b", "c", "d"]), &vec![false, true, false, false]),
        Err(ArgsError::MandatoryAfterOptional { index: 1 })
    );
    // duplicates are reported before ordering
    assert_eq!(
        check_args(&names(&["a", "a"]), &vec![true, false]),
        Err(ArgsError::DuplicateNames)
    );
}

#[test]
fn service_fn_binds_checked_names() {
    let ns = names(&["p0", "opt"]);
    let optional = vec![false, true];
    assert!(check_args(&ns, &optional).is_ok());
    let svc = ServiceFn::new(7u32, ns.clone(), &optional, ParamStructure::Either);
    assert_eq!(svc.handler, 7);
    assert_eq!(svc.param_names, ns);
    assert_eq!(svc.calling_convention, ParamStructure::Either);
    assert_ne!(ConcreteCallingConvention::ByName, ConcreteCallingConvention::ByPosition);
}

#[test]
fn actor_event_filter_data() {
    let f = ActorEventFilter {
        addresses: vec![Address::Id(1000)],
        fields: vec![("topic".to_string(), vec![ActorEventBlock { codec: 0x55, value: vec![1, 2] }])],
        from_height: Some(10),
        to_height: None,
        tipset_key: Some(TipsetKey { cids: vec![1] }),
    };
    assert_eq!(f.clone(), f);
}

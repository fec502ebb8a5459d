//! JSON-RPC method descriptions: how a method takes its parameters, the
//! descriptor of a method built from its signature, the rules that a list
//! of parameter names must follow, and the filter of the actor-events method.
use vstd::prelude::*;
use crate::address::Address;
use crate::index::TipsetKey;

verus! {

/// How a method accepts its parameters.
#[derive(Debug, Clone, Copy, PartialEq, Eq, Structural)]
pub enum ParamStructure {
    ByName,
    ByPosition,
    Either,
}

/// How a client sends the parameters of one call.
#[derive(Debug, Clone, Copy, PartialEq, Eq, Structural)]
pub enum ConcreteCallingConvention {
    ByPosition,
    ByName,
}

/// A named parameter or result, and whether it must be given.
#[derive(Debug, Clone, PartialEq, Eq)]
pub struct ContentDescriptor {
    pub name: String,
    pub required: bool,
}

/// What a handler takes and returns.
#[derive(Debug, Clone, PartialEq, Eq)]
pub struct Signature {
    pub params: Vec<ContentDescriptor>,
    pub calling_convention: ParamStructure,
    pub return_type: Option<ContentDescriptor>,
}

/// The description of a method.
#[derive(Debug, Clone, PartialEq, Eq)]
pub struct Method {
    pub name: String,
    pub params: Vec<ContentDescriptor>,
    pub param_structure: ParamStructure,
    pub result: Option<ContentDescriptor>,
}

impl Signature {
    /// The description of a method named `name` with this signature.
    pub fn into_method(self, name: String) -> (r: Method)
        ensures
            r.name == name,
            r.params == self.params,
            r.param_structure == self.calling_convention,
            r.result == self.return_type,
    {
        let Signature { params, calling_convention, return_type } = self;
        Method { name, params, param_structure: calling_convention, result: return_type }
    }
}

/// Why a list of parameter names is refused.
#[derive(Debug, Clone, Copy, PartialEq, Eq, Structural)]
pub enum ArgsError {
    /// Two parameters share a name.
    DuplicateNames,
    /// A mandatory parameter follows an optional one at this index.
    MandatoryAfterOptional { index: usize },
}

/// Whether two parameters share a name.
pub open spec fn has_duplicates(names: Seq<String>) -> bool {
    exists|i: int, j: int| 0 <= i < j < names.len() && (#[trigger] names[i])@ == (#[trigger] names[j])@
}

/// Whether the parameter at `ix` is optional and the next one mandatory.
pub open spec fn mandatory_after_optional(optional: Seq<bool>, ix: int) -> bool {
    0 <= ix && ix + 1 < optional.len() && optional[ix] && !optional[ix + 1]
}

/// Whether a parameter list is acceptable: unique names, and no mandatory
/// parameter after an optional one.
pub open spec fn args_valid(names: Seq<String>, optional: Seq<bool>) -> bool {
    !has_duplicates(names) && forall|ix: int| !#[trigger] mandatory_after_optional(optional, ix)
}

/// Checks a parameter list: duplicate names are refused first; then the
/// first mandatory parameter that follows an optional one.
pub fn check_args(names: &Vec<String>, optional: &Vec<bool>) -> (r: Result<(), ArgsError>)
    requires
        names@.len() == optional@.len(),
    ensures
        r is Ok <==> args_valid(names@, optional@),
        r == Err::<(), ArgsError>(ArgsError::DuplicateNames) <==> has_duplicates(names@),
        r matches Err(ArgsError::MandatoryAfterOptional { index }) ==> !has_duplicates(names@)
            && mandatory_after_optional(optional@, index as int)
            && forall|k: int| 0 <= k < index ==> !#[trigger] mandatory_after_optional(optional@, k),
{
    let n = names.len();
    let mut i: usize = 0;
    while i < n
        invariant
            n == names@.len(),
            0 <= i <= n,
            forall|a: int, b: int| 0 <= a < b < n && a < i ==> (#[trigger] names@[a])@ != (#[trigger] names@[b])@,
        decreases n - i,
    {
        let mut j: usize = i + 1;
        while j < n
            invariant
                n == names@.len(),
                0 <= i < n,
                i + 1 <= j <= n,
                forall|a: int, b: int| 0 <= a < b < n && a < i ==> (#[trigger] names@[a])@ != (#[trigger] names@[b])@,
                forall|b: int| i < b < j ==> names@[i as int]@ != (#[trigger] names@[b])@,
            decreases n - j,
        {
            if names[i] == names[j] {
                return Err(ArgsError::DuplicateNames);
            }
            j = j + 1;
        }
        i = i + 1;
    }
    let mut ix: usize = 0;
    while n > 0 && ix < n - 1
        invariant
            n == names@.len(),
            n == optional@.len(),
            !has_duplicates(names@),
            0 <= ix <= n,
            forall|k: int| 0 <= k < ix ==> !#[trigger] mandatory_after_optional(optional@, k),
        decreases n - ix,
    {
        if optional[ix] && !optional[ix + 1] {
            assert(mandatory_after_optional(optional@, ix as int));
            return Err(ArgsError::MandatoryAfterOptional { index: ix });
        }
        ix = ix + 1;
    }
    assert forall|k: int| !#[trigger] mandatory_after_optional(optional@, k) by {
        if 0 <= k && k + 1 < n {
            assert(k < ix);
        }
    }
    Ok(())
}

/// A handler with its parameter names and calling convention, whose
/// parameter list has been checked.
pub struct ServiceFn<H> {
    pub handler: H,
    pub param_names: Vec<String>,
    pub calling_convention: ParamStructure,
}

impl<H> ServiceFn<H> {
    /// Binds a handler to its parameter names, given which parameters are
    /// optional; the list must pass `check_args`.
    pub fn new(handler: H, param_names: Vec<String>, optional: &Vec<bool>, calling_convention: ParamStructure) -> (r: ServiceFn<H>)
        requires
            param_names@.len() == optional@.len(),
            args_valid(param_names@, optional@),
        ensures
            r.handler == handler,
            r.param_names == param_names,
            r.calling_convention == calling_convention,
    {
        ServiceFn { handler, param_names, calling_convention }
    }
}

/// A value that an event field is matched against, with its codec.
#[derive(Debug, Clone, PartialEq, Eq)]
pub struct ActorEventBlock {
    pub codec: u64,
    pub value: Vec<u8>,
}

/// Which actor events a query selects: emitters, field values, a height
/// range, or a single tipset.
#[derive(Debug, Clone, PartialEq, Eq)]
pub struct ActorEventFilter {
    pub addresses: Vec<Address>,
    pub fields: Vec<(String, Vec<ActorEventBlock>)>,
    pub from_height: Option<i64>,
    pub to_height: Option<i64>,
    pub tipset_key: Option<TipsetKey>,
}

} // verus!

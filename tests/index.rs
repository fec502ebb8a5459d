use std::sync::Arc;

use chain_core::index::{
    BeaconEntry, ChainError, ChainIndex, ResolveNullTipset, Tipset, TipsetKey, TipsetStore,
};

fn key(cids: &[u64]) -> TipsetKey {
    TipsetKey { cids: cids.to_vec() }
}

fn genesis_tipset() -> Tipset {
    Tipset {
        key: key(&[1]),
        parents: key(&[]),
        epoch: 0,
        weight: 0,
        timestamps: vec![0],
        beacon_entries: vec![BeaconEntry { round: 1, data: vec![1, 2, 3] }],
    }
}

fn tipset_child(parent: &Tipset, id: u64, epoch: i64) -> Tipset {
    Tipset {
        key: key(&[id]),
        parents: parent.key.clone(),
        epoch,
        weight: epoch as u64 * 10,
        timestamps: vec![id],
        beacon_entries: Vec::new(),
    }
}

fn persist_tipset(tipset: &Tipset, index: &mut ChainIndex) {
    assert!(index.insert(tipset.clone()));
}

#[test]
fn get_null_tipset() {
    let mut index = ChainIndex::new(TipsetStore::new());
    let genesis = genesis_tipset();
    let epoch1 = tipset_child(&genesis, 2, 1);
    let epoch3 = tipset_child(&epoch1, 3, 3);
    let epoch4 = tipset_child(&epoch3, 4, 4);
    persist_tipset(&genesis, &mut index);
    persist_tipset(&epoch1, &mut index);
    persist_tipset(&epoch3, &mut index);
    persist_tipset(&epoch4, &mut index);

    // epoch 2 is null. ResolveNullTipset decides whether to return epoch 1 or epoch 3
    assert_eq!(
        index
            .tipset_by_height(2, Arc::new(epoch4.clone()), ResolveNullTipset::TakeOlder)
            .unwrap()
            .as_ref(),
        &epoch1
    );

    assert_eq!(
        index
            .tipset_by_height(2, Arc::new(epoch4), ResolveNullTipset::TakeNewer)
            .unwrap()
            .as_ref(),
        &epoch3
    );
}

#[test]
fn get_different_branches() {
    let mut index = ChainIndex::new(TipsetStore::new());
    let genesis = genesis_tipset();
    let epoch1 = tipset_child(&genesis, 2, 1);

    let epoch2a = tipset_child(&epoch1, 3, 2);
    let epoch3a = tipset_child(&epoch2a, 4, 3);

    let epoch2b = tipset_child(&epoch1, 5, 2);
    let epoch3b = tipset_child(&epoch2b, 6, 3);

    persist_tipset(&genesis, &mut index);
    persist_tipset(&epoch1, &mut index);
    persist_tipset(&epoch2a, &mut index);
    persist_tipset(&epoch3a, &mut index);
    persist_tipset(&epoch2b, &mut index);
    persist_tipset(&epoch3b, &mut index);

    // The chain has forked, epoch 2 and 3 are ambiguous
    assert_eq!(
        index
            .tipset_by_height(2, Arc::new(epoch3a), ResolveNullTipset::TakeOlder)
            .unwrap()
            .as_ref(),
        &epoch2a
    );

    assert_eq!(
        index
            .tipset_by_height(2, Arc::new(epoch3b), ResolveNullTipset::TakeOlder)
            .unwrap()
            .as_ref(),
        &epoch2b
    );
}

fn linear_chain() -> (ChainIndex, Vec<Tipset>) {
    let mut index = ChainIndex::new(TipsetStore::new());
    let genesis = genesis_tipset();
    let t1 = tipset_child(&genesis, 2, 1);
    let t2 = tipset_child(&t1, 3, 2);
    let t5 = tipset_child(&t2, 4, 5);
    let t6 = tipset_child(&t5, 5, 6);
    let all = vec![genesis, t1, t2, t5, t6];
    for t in &all {
        persist_tipset(t, &mut index);
    }
    (index, all)
}

#[test]
fn exact_epoch_is_found() {
    let (mut index, all) = linear_chain();
    let head = Arc::new(all[4].clone());
    for (i, epoch) in [(1usize, 1i64), (2, 2), (3, 5), (4, 6)] {
        for policy in [ResolveNullTipset::TakeOlder, ResolveNullTipset::TakeNewer] {
            let got = index.tipset_by_height(epoch, head.clone(), policy).unwrap();
            assert_eq!(got.as_ref(), &all[i]);
            assert_eq!(got.epoch, epoch);
        }
    }
}

#[test]
fn null_epochs_resolve_by_policy() {
    let (mut index, all) = linear_chain();
    let head = Arc::new(all[4].clone());
    for epoch in [3i64, 4] {
        let older = index
            .tipset_by_height(epoch, head.clone(), ResolveNullTipset::TakeOlder)
            .unwrap();
        let newer = index
            .tipset_by_height(epoch, head.clone(), ResolveNullTipset::TakeNewer)
            .unwrap();
        assert_eq!(older.as_ref(), &all[2]);
        assert_eq!(newer.as_ref(), &all[3]);
    }
}

#[test]
fn lookup_is_deterministic() {
    let (mut index, all) = linear_chain();
    let head = Arc::new(all[4].clone());
    let a = index.tipset_by_height(4, head.clone(), ResolveNullTipset::TakeNewer);
    let b = index.tipset_by_height(4, head, ResolveNullTipset::TakeNewer);
    assert_eq!(a, b);
}

#[test]
fn epoch_zero_is_genesis() {
    let (mut index, all) = linear_chain();
    for from in &all {
        for policy in [ResolveNullTipset::TakeOlder, ResolveNullTipset::TakeNewer] {
            let got = index.tipset_by_height(0, Arc::new(from.clone()), policy).unwrap();
            assert_eq!(got.as_ref(), &all[0]);
        }
    }
}

#[test]
fn epoch_above_start_is_invalid_range() {
    let (mut index, all) = linear_chain();
    let head = Arc::new(all[2].clone());
    assert_eq!(
        index.tipset_by_height(3, head.clone(), ResolveNullTipset::TakeOlder),
        Err(ChainError::InvalidRange)
    );
    assert_eq!(
        index.tipset_by_height(i64::MAX, head, ResolveNullTipset::TakeNewer),
        Err(ChainError::InvalidRange)
    );
}

#[test]
fn missing_parent_truncates_walk() {
    let (mut index, all) = linear_chain();
    let orphan = Tipset {
        key: key(&[99]),
        parents: key(&[98]),
        epoch: 9,
        weight: 90,
        timestamps: vec![],
        beacon_entries: vec![],
    };
    assert_eq!(
        index.tipset_by_height(9, Arc::new(orphan.clone()), ResolveNullTipset::TakeOlder),
        Err(ChainError::NotFound)
    );
    assert_eq!(
        index.tipset_by_height(0, Arc::new(orphan), ResolveNullTipset::TakeOlder),
        Err(ChainError::NotFound)
    );
    assert_eq!(index.genesis(Arc::new(all[3].clone())).unwrap().as_ref(), &all[0]);
}

#[test]
fn cache_toggle_does_not_change_loads() {
    let (mut index, all) = linear_chain();
    let mut results = Vec::new();
    for disabled in [false, true, false] {
        index.set_cache_disabled(disabled);
        for id in 1..=6u64 {
            results.push((disabled, id, index.load_tipset(&key(&[id]))));
        }
    }
    for (_, id, r) in &results {
        let expected = all.iter().find(|t| t.key == key(&[*id]));
        assert_eq!(r.as_deref(), expected);
    }
    assert_eq!(index.load_tipset(&key(&[6])), None);
    assert_eq!(
        index.load_required_tipset(&key(&[42])),
        Err(ChainError::NotFound)
    );
    assert_eq!(
        index.load_required_tipset(&key(&[3])).unwrap().as_ref(),
        &all[2]
    );
}

#[test]
fn chain_walks_to_genesis() {
    let (mut index, all) = linear_chain();
    let walk = index.chain(Arc::new(all[4].clone()));
    let epochs: Vec<i64> = walk.iter().map(|t| t.epoch).collect();
    assert_eq!(epochs, vec![6, 5, 2, 1, 0]);
    let single = index.chain(Arc::new(Tipset {
        key: key(&[77]),
        parents: key(&[76]),
        epoch: 3,
        weight: 0,
        timestamps: vec![],
        beacon_entries: vec![],
    }));
    assert_eq!(single.len(), 1);
}

#[test]
fn store_rejects_bad_tipsets() {
    let (mut index, all) = linear_chain();
    // duplicate key
    assert!(!index.insert(all[1].clone()));
    // not above its parent
    assert!(!index.insert(tipset_child(&all[3], 50, 5)));
    // negative epoch
    assert!(!index.insert(Tipset {
        key: key(&[60]),
        parents: key(&[]),
        epoch: -1,
        weight: 0,
        timestamps: vec![],
        beacon_entries: vec![],
    }));
    // its own parent
    assert!(!index.insert(Tipset {
        key: key(&[61]),
        parents: key(&[61]),
        epoch: 3,
        weight: 0,
        timestamps: vec![],
        beacon_entries: vec![],
    }));
    // a parent of a stored tipset must lie below it
    assert!(index.insert(Tipset {
        key: key(&[70]),
        parents: key(&[71]),
        epoch: 3,
        weight: 0,
        timestamps: vec![],
        beacon_entries: vec![],
    }));
    assert!(!index.insert(Tipset {
        key: key(&[71]),
        parents: key(&[]),
        epoch: 4,
        weight: 0,
        timestamps: vec![],
        beacon_entries: vec![],
    }));
    assert_eq!(index.db().len(), 6);
}

#[test]
fn beacon_entry_search() {
    let (mut index, all) = linear_chain();
    let head = Arc::new(all[4].clone());
    // genesis carries an entry
    assert_eq!(
        index.latest_beacon_entry(head.clone(), false).unwrap(),
        BeaconEntry { round: 1, data: vec![1, 2, 3] }
    );
    let mut with_entries = tipset_child(&all[4], 20, 7);
    with_entries.beacon_entries = vec![
        BeaconEntry { round: 5, data: vec![5] },
        BeaconEntry { round: 6, data: vec![6] },
    ];
    assert_eq!(
        index.latest_beacon_entry(Arc::new(with_entries), false).unwrap(),
        BeaconEntry { round: 6, data: vec![6] }
    );
}

#[test]
fn beacon_entry_missing() {
    let mut index = ChainIndex::new(TipsetStore::new());
    let mut genesis = genesis_tipset();
    genesis.beacon_entries.clear();
    persist_tipset(&genesis, &mut index);
    // genesis reached without an entry: an error, unless the override is on
    assert_eq!(
        index.latest_beacon_entry(Arc::new(genesis.clone()), false),
        Err(ChainError::NoBeaconEntry)
    );
    assert_eq!(
        index.latest_beacon_entry(Arc::new(genesis.clone()), true).unwrap(),
        BeaconEntry { round: 0, data: vec![9; 16] }
    );
    let orphan = Arc::new(Tipset {
        key: key(&[90]),
        parents: key(&[91]),
        epoch: 30,
        weight: 0,
        timestamps: vec![],
        beacon_entries: vec![],
    });
    assert_eq!(
        index.latest_beacon_entry(orphan.clone(), false),
        Err(ChainError::NoBeaconEntry)
    );
    assert_eq!(
        index.latest_beacon_entry(orphan, true).unwrap(),
        BeaconEntry { round: 0, data: vec![9; 16] }
    );
}

#[test]
fn beacon_search_stops_after_twenty_tipsets() {
    let mut index = ChainIndex::new(TipsetStore::new());
    let mut genesis = genesis_tipset();
    genesis.beacon_entries = vec![BeaconEntry { round: 3, data: vec![3] }];
    persist_tipset(&genesis, &mut index);
    let mut prev = genesis;
    for i in 1..=25i64 {
        let t = tipset_child(&prev, 100 + i as u64, i);
        persist_tipset(&t, &mut index);
        prev = t;
    }
    assert_eq!(
        index.latest_beacon_entry(Arc::new(prev.clone()), false),
        Err(ChainError::NoBeaconEntry)
    );
    let mut t19 = None;
    for t in index.chain(Arc::new(prev)) {
        if t.epoch == 19 {
            t19 = Some(t);
        }
    }
    assert_eq!(
        index.latest_beacon_entry(t19.unwrap(), false).unwrap(),
        BeaconEntry { round: 3, data: vec![3] }
    );
}

#[test]
fn tipset_key_for_lookback() {
    let (mut index, all) = linear_chain();
    let head = Arc::new(all[4].clone());
    assert_eq!(index.get_tipset_key(4, head.clone()), Ok(key(&[3])));
    assert_eq!(index.get_tipset_key(5, head.clone()), Ok(key(&[4])));
    assert_eq!(index.get_tipset_key(0, head.clone()), Ok(key(&[1])));
    assert_eq!(index.get_tipset_key(7, head), Err(ChainError::InvalidRange));
}

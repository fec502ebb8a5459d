//! Tipsets, the arena that stores them, and the caching index that resolves
//! heights and ancestors across forks and null epochs.
use std::num::NonZeroUsize;
use std::sync::Arc;
use lru::LruCache;
use vstd::prelude::*;

verus! {

/// Number of tipsets the index keeps in its cache.
pub const DEFAULT_TIPSET_CACHE_SIZE: usize = 131072;

/// Number of ancestors searched for a randomness-beacon entry.
pub const BEACON_LOOKBACK: usize = 20;

/// Canonical identifier of a tipset: the ordered content identifiers of its
/// blocks.
#[derive(Debug, Clone, PartialEq, Eq, Hash)]
pub struct TipsetKey {
    pub cids: Vec<u64>,
}

impl View for TipsetKey {
    type V = Seq<u64>;

    open spec fn view(&self) -> Seq<u64> {
        self.cids@
    }
}

/// A randomness-beacon entry carried by a block.
#[derive(Debug, Clone, PartialEq, Eq)]
pub struct BeaconEntry {
    pub round: u64,
    pub data: Vec<u8>,
}

impl View for BeaconEntry {
    type V = (u64, Seq<u8>);

    open spec fn view(&self) -> (u64, Seq<u8>) {
        (self.round, self.data@)
    }
}

impl BeaconEntry {
    /// A copy of the entry.
    pub fn duplicate(&self) -> (r: BeaconEntry)
        ensures
            r@ == self@,
    {
        BeaconEntry { round: self.round, data: self.data.clone() }
    }

    /// The stand-in entry used when missing randomness is tolerated.
    pub fn placeholder() -> (r: BeaconEntry)
        ensures
            r@ == placeholder_entry(),
    {
        let data: Vec<u8> = vec![9u8; 16];
        assert(data@ =~= placeholder_entry().1);
        BeaconEntry { round: 0, data }
    }
}

/// Round zero, sixteen bytes of nine.
pub open spec fn placeholder_entry() -> (u64, Seq<u8>) {
    (0u64, Seq::new(16, |i: int| 9u8))
}

/// An immutable set of blocks at one epoch that share their parents.
#[derive(Debug, Clone, PartialEq, Eq)]
pub struct Tipset {
    pub key: TipsetKey,
    pub parents: TipsetKey,
    pub epoch: i64,
    pub weight: u64,
    /// Timestamps of the blocks, one per block.
    pub timestamps: Vec<u64>,
    /// Beacon entries of the block with the smallest ticket.
    pub beacon_entries: Vec<BeaconEntry>,
}

/// How a request for a null epoch is resolved.
#[derive(Debug, Clone, Copy, PartialEq, Eq, Structural)]
pub enum ResolveNullTipset {
    TakeNewer,
    TakeOlder,
}

/// Errors of the index.
#[derive(Debug, Clone, Copy, PartialEq, Eq, Structural)]
pub enum ChainError {
    /// A required tipset is absent from the store.
    NotFound,
    /// A height above the starting tipset was requested.
    InvalidRange,
    /// The walk ended without finding a beacon entry.
    NoBeaconEntry,
}

/// Whether two keys name the same tipset.
pub fn keys_equal(a: &TipsetKey, b: &TipsetKey) -> (r: bool)
    ensures
        r == (a@ == b@),
{
    if a.cids.len() != b.cids.len() {
        return false;
    }
    let mut i: usize = 0;
    while i < a.cids.len()
        invariant
            a.cids.len() == b.cids.len(),
            0 <= i <= a.cids.len(),
            forall|j: int| 0 <= j < i ==> a.cids@[j] == b.cids@[j],
        decreases a.cids.len() - i,
    {
        if a.cids[i] != b.cids[i] {
            return false;
        }
        i = i + 1;
    }
    assert(a@ =~= b@);
    true
}

/// A position in `s` of a tipset with key `k`, where there is one.
pub open spec fn key_index(s: Seq<Arc<Tipset>>, k: Seq<u64>) -> int {
    choose|i: int| 0 <= i < s.len() && (#[trigger] s[i]).key@ == k
}

/// The stored tipset with key `k`, if any.
pub open spec fn find(s: Seq<Arc<Tipset>>, k: Seq<u64>) -> Option<Arc<Tipset>> {
    if exists|i: int| 0 <= i < s.len() && (#[trigger] s[i]).key@ == k {
        Some(s[key_index(s, k)])
    } else {
        None
    }
}

/// The parent of `t` as the store holds it.
pub open spec fn parent_of(s: Seq<Arc<Tipset>>, t: Arc<Tipset>) -> Option<Arc<Tipset>> {
    find(s, t.parents@)
}

/// The tipset `n` parent links below `t`: `t` itself for zero.
pub open spec fn ancestor(s: Seq<Arc<Tipset>>, t: Arc<Tipset>, n: nat) -> Option<Arc<Tipset>>
    decreases n,
{
    if n == 0 {
        Some(t)
    } else {
        match parent_of(s, t) {
            Some(p) => ancestor(s, p, (n - 1) as nat),
            None => None,
        }
    }
}

/// A tipset sits above its stored parent, if that parent is present.
pub open spec fn fits(s: Seq<Arc<Tipset>>, t: Arc<Tipset>) -> bool {
    match parent_of(s, t) {
        Some(p) => p.epoch < t.epoch,
        None => true,
    }
}

/// The store's invariant: keys are unique, epochs are not negative, and a
/// tipset's stored parent has a lower epoch.
pub open spec fn store_wf(s: Seq<Arc<Tipset>>) -> bool {
    &&& forall|i: int, j: int|
        0 <= i < s.len() && 0 <= j < s.len() && i != j ==> (#[trigger] s[i]).key@ != (#[trigger] s[j]).key@
    &&& forall|i: int| 0 <= i < s.len() ==> (#[trigger] s[i]).epoch >= 0
    &&& forall|i: int, j: int|
        0 <= i < s.len() && 0 <= j < s.len() && (#[trigger] s[j]).key@ == (#[trigger] s[i]).parents@
            ==> s[j].epoch < s[i].epoch
}

/// A tipset held in the store.
pub open spec fn stored(s: Seq<Arc<Tipset>>, t: Arc<Tipset>) -> bool {
    exists|i: int| 0 <= i < s.len() && s[i] == t
}

/// The choice between the two tipsets around a null epoch.
pub open spec fn pick(resolve: ResolveNullTipset, parent: Arc<Tipset>, child: Arc<Tipset>) -> Arc<Tipset> {
    match resolve {
        ResolveNullTipset::TakeOlder => parent,
        ResolveNullTipset::TakeNewer => child,
    }
}

/// The walk toward genesis that looks for epoch `to`, examining each
/// (child, parent) link from `child` on.
pub open spec fn walk(s: Seq<Arc<Tipset>>, to: int, child: Arc<Tipset>, resolve: ResolveNullTipset) -> Option<Arc<Tipset>>
    decreases child.epoch - to,
{
    match parent_of(s, child) {
        None => None,
        Some(p) => if to == child.epoch {
            Some(child)
        } else if to > p.epoch {
            Some(pick(resolve, p, child))
        } else if p.epoch < child.epoch {
            walk(s, to, p, resolve)
        } else {
            None
        },
    }
}

/// The same walk, started from a tipset that need not be stored.
pub open spec fn walk_from(s: Seq<Arc<Tipset>>, to: int, from: Arc<Tipset>, resolve: ResolveNullTipset) -> Option<Arc<Tipset>> {
    match parent_of(s, from) {
        None => None,
        Some(p) => if to == from.epoch {
            Some(from)
        } else if to > p.epoch {
            Some(pick(resolve, p, from))
        } else {
            walk(s, to, p, resolve)
        },
    }
}

/// The first tipset at epoch zero met walking toward genesis from `t`.
pub open spec fn genesis_walk(s: Seq<Arc<Tipset>>, t: Arc<Tipset>) -> Option<Arc<Tipset>>
    decreases t.epoch,
{
    if t.epoch == 0 {
        Some(t)
    } else {
        match parent_of(s, t) {
            Some(p) => if 0 <= p.epoch < t.epoch {
                genesis_walk(s, p)
            } else {
                None
            },
            None => None,
        }
    }
}

/// The genesis tipset of the chain that `from` ends.
pub open spec fn genesis_of(s: Seq<Arc<Tipset>>, from: Arc<Tipset>) -> Option<Arc<Tipset>> {
    if from.epoch == 0 {
        Some(from)
    } else {
        match parent_of(s, from) {
            Some(p) => genesis_walk(s, p),
            None => None,
        }
    }
}

/// What a lookup of epoch `to` from `from` returns.
pub open spec fn by_height(s: Seq<Arc<Tipset>>, to: int, from: Arc<Tipset>, resolve: ResolveNullTipset) -> Result<Arc<Tipset>, ChainError> {
    if to == 0 {
        match genesis_of(s, from) {
            Some(g) => Ok(g),
            None => Err(ChainError::NotFound),
        }
    } else if to > from.epoch {
        Err(ChainError::InvalidRange)
    } else {
        match walk_from(s, to, from, resolve) {
            Some(t) => Ok(t),
            None => Err(ChainError::NotFound),
        }
    }
}

/// How a search for a beacon entry ends.
pub enum BeaconSearch {
    Found((u64, Seq<u8>)),
    AtGenesis,
    Exhausted,
}

/// The search for the latest beacon entry among at most `budget` tipsets
/// from `t` toward genesis.
pub open spec fn beacon_search(s: Seq<Arc<Tipset>>, t: Arc<Tipset>, budget: nat) -> BeaconSearch
    decreases budget,
{
    if budget == 0 {
        BeaconSearch::Exhausted
    } else if t.beacon_entries@.len() > 0 {
        BeaconSearch::Found(t.beacon_entries@.last()@)
    } else if t.epoch == 0 {
        BeaconSearch::AtGenesis
    } else {
        match parent_of(s, t) {
            Some(p) => beacon_search(s, p, (budget - 1) as nat),
            None => BeaconSearch::Exhausted,
        }
    }
}

/// What the latest beacon entry from `t` is.
pub open spec fn latest_beacon(s: Seq<Arc<Tipset>>, t: Arc<Tipset>, ignore_missing: bool) -> Result<(u64, Seq<u8>), ChainError> {
    match beacon_search(s, t, BEACON_LOOKBACK as nat) {
        BeaconSearch::Found(e) => Ok(e),
        BeaconSearch::AtGenesis => if ignore_missing {
            Ok(placeholder_entry())
        } else {
            Err(ChainError::NoBeaconEntry)
        },
        BeaconSearch::Exhausted => if ignore_missing {
            Ok(placeholder_entry())
        } else {
            Err(ChainError::NoBeaconEntry)
        },
    }
}

/// A stored tipset lies above its stored parent.
pub proof fn lemma_stored_fits(s: Seq<Arc<Tipset>>, t: Arc<Tipset>)
    requires
        store_wf(s),
        stored(s, t),
    ensures
        fits(s, t),
        t.epoch >= 0,
        parent_of(s, t) matches Some(p) ==> stored(s, p) && p.epoch >= 0,
{
    let i = choose|i: int| 0 <= i < s.len() && s[i] == t;
    assert(s[i] == t);
    if parent_of(s, t) is Some {
        let c = key_index(s, t.parents@);
        assert(s[c].key@ == s[i].parents@);
        assert(stored(s, s[c]));
    }
}

/// Whether `ts` may join the store `s`: its key is new and differs from its
/// parents, its epoch is not negative, it sits above its stored parent and
/// below its stored children.
pub open spec fn store_admits(s: Seq<Arc<Tipset>>, ts: Tipset) -> bool {
    &&& ts.epoch >= 0
    &&& ts.parents@ != ts.key@
    &&& find(s, ts.key@) is None
    &&& match find(s, ts.parents@) {
        Some(p) => p.epoch < ts.epoch,
        None => true,
    }
    &&& forall|i: int|
        0 <= i < s.len() && (#[trigger] s[i]).parents@ == ts.key@ ==> ts.epoch < s[i].epoch
}

/// A tipset that the store returns is stored.
pub proof fn lemma_find_stored(s: Seq<Arc<Tipset>>, k: Seq<u64>)
    ensures
        find(s, k) matches Some(t) ==> stored(s, t) && t.key@ == k,
{
    if exists|i: int| 0 <= i < s.len() && (#[trigger] s[i]).key@ == k {
        let c = key_index(s, k);
        assert(0 <= c < s.len() && s[c].key@ == k);
    }
}

/// One more step up the chain is one more parent link.
pub proof fn lemma_ancestor_step(s: Seq<Arc<Tipset>>, t: Arc<Tipset>, n: nat)
    ensures
        ancestor(s, t, n + 1) == (match ancestor(s, t, n) {
            Some(a) => parent_of(s, a),
            None => None,
        }),
    decreases n,
{
    assert(ancestor(s, t, 0) == Some(t));
    if n > 0 {
        match parent_of(s, t) {
            Some(p) => {
                lemma_ancestor_step(s, p, (n - 1) as nat);
                assert(ancestor(s, t, n + 1) == ancestor(s, p, n));
                assert(ancestor(s, t, n) == ancestor(s, p, (n - 1) as nat));
            },
            None => {},
        }
    } else {
        match parent_of(s, t) {
            Some(p) => {
                assert(ancestor(s, t, 1) == ancestor(s, p, 0));
            },
            None => {},
        }
    }
}

/// Ancestors lie at or below the tipset they descend from, strictly below
/// it after at least one step, and in the store.
pub proof fn lemma_ancestor_below(s: Seq<Arc<Tipset>>, t: Arc<Tipset>, n: nat)
    requires
        store_wf(s),
        fits(s, t),
    ensures
        ancestor(s, t, n) matches Some(a) ==> a.epoch <= t.epoch
            && (n > 0 ==> a.epoch < t.epoch && stored(s, a)),
    decreases n,
{
    if n > 0 {
        match parent_of(s, t) {
            Some(p) => {
                lemma_find_stored(s, t.parents@);
                lemma_stored_fits(s, p);
                lemma_ancestor_below(s, p, (n - 1) as nat);
            },
            None => {},
        }
    }
}

/// On the stored chain, a walk for an epoch that an ancestor holds, with a
/// stored parent, stops at that ancestor.
pub proof fn lemma_walk_exact(s: Seq<Arc<Tipset>>, t: Arc<Tipset>, n: nat, resolve: ResolveNullTipset)
    requires
        store_wf(s),
        stored(s, t),
        ancestor(s, t, n) is Some,
        parent_of(s, ancestor(s, t, n)->Some_0) is Some,
    ensures
        walk(s, ancestor(s, t, n)->Some_0.epoch as int, t, resolve) == ancestor(s, t, n),
    decreases n,
{
    lemma_stored_fits(s, t);
    if n > 0 {
        let p = parent_of(s, t)->Some_0;
        lemma_find_stored(s, t.parents@);
        lemma_stored_fits(s, p);
        lemma_ancestor_below(s, p, (n - 1) as nat);
        lemma_walk_exact(s, p, (n - 1) as nat, resolve);
    }
}

/// On the stored chain, a walk for an epoch that falls strictly between an
/// ancestor and its stored parent picks one of the two.
pub proof fn lemma_walk_null(s: Seq<Arc<Tipset>>, t: Arc<Tipset>, n: nat, e: int, resolve: ResolveNullTipset)
    requires
        store_wf(s),
        stored(s, t),
        ancestor(s, t, n) is Some,
        parent_of(s, ancestor(s, t, n)->Some_0) is Some,
        parent_of(s, ancestor(s, t, n)->Some_0)->Some_0.epoch < e < ancestor(s, t, n)->Some_0.epoch,
    ensures
        walk(s, e, t, resolve) == Some(
            pick(resolve, parent_of(s, ancestor(s, t, n)->Some_0)->Some_0, ancestor(s, t, n)->Some_0),
        ),
    decreases n,
{
    lemma_stored_fits(s, t);
    if n > 0 {
        let p = parent_of(s, t)->Some_0;
        lemma_find_stored(s, t.parents@);
        lemma_stored_fits(s, p);
        lemma_ancestor_below(s, p, (n - 1) as nat);
        lemma_walk_null(s, p, (n - 1) as nat, e, resolve);
    }
}

/// A lookup of an epoch that the chain holds returns the tipset at that
/// epoch: for a tipset `from` above its stored parent, if its ancestor `n`
/// links down sits at epoch `e` (not zero) and has a stored parent, the
/// lookup of `e` from `from` returns that ancestor, whatever the policy.
pub proof fn lemma_height_exact(s: Seq<Arc<Tipset>>, from: Arc<Tipset>, n: nat, resolve: ResolveNullTipset)
    requires
        store_wf(s),
        fits(s, from),
        ancestor(s, from, n) is Some,
        ancestor(s, from, n)->Some_0.epoch != 0,
        parent_of(s, ancestor(s, from, n)->Some_0) is Some,
    ensures
        by_height(s, ancestor(s, from, n)->Some_0.epoch as int, from, resolve) == Ok::<Arc<Tipset>, ChainError>(
            ancestor(s, from, n)->Some_0,
        ),
        ancestor(s, from, n)->Some_0.epoch <= from.epoch,
{
    lemma_ancestor_below(s, from, n);
    if n > 0 {
        let p = parent_of(s, from)->Some_0;
        lemma_find_stored(s, from.parents@);
        lemma_stored_fits(s, p);
        lemma_ancestor_below(s, p, (n - 1) as nat);
        lemma_walk_exact(s, p, (n - 1) as nat, resolve);
    }
}

/// A lookup of a null epoch resolves by the policy: if `e` falls strictly
/// between an ancestor of `from` and that ancestor's stored parent, the
/// lookup returns the parent for `TakeOlder` and the ancestor for
/// `TakeNewer`.
pub proof fn lemma_height_null(s: Seq<Arc<Tipset>>, from: Arc<Tipset>, n: nat, e: int, resolve: ResolveNullTipset)
    requires
        store_wf(s),
        fits(s, from),
        ancestor(s, from, n) is Some,
        parent_of(s, ancestor(s, from, n)->Some_0) is Some,
        parent_of(s, ancestor(s, from, n)->Some_0)->Some_0.epoch < e < ancestor(s, from, n)->Some_0.epoch,
    ensures
        by_height(s, e, from, resolve) == Ok::<Arc<Tipset>, ChainError>(
            pick(resolve, parent_of(s, ancestor(s, from, n)->Some_0)->Some_0, ancestor(s, from, n)->Some_0),
        ),
        resolve == ResolveNullTipset::TakeOlder ==> by_height(s, e, from, resolve)->Ok_0.epoch < e,
        resolve == ResolveNullTipset::TakeNewer ==> by_height(s, e, from, resolve)->Ok_0.epoch > e,
{
    let c = ancestor(s, from, n)->Some_0;
    lemma_ancestor_below(s, from, n);
    lemma_find_stored(s, c.parents@);
    lemma_stored_fits(s, parent_of(s, c)->Some_0);
    if n > 0 {
        let p = parent_of(s, from)->Some_0;
        lemma_find_stored(s, from.parents@);
        lemma_stored_fits(s, p);
        lemma_ancestor_below(s, p, (n - 1) as nat);
        lemma_walk_null(s, p, (n - 1) as nat, e, resolve);
    }
}

/// Lookups from two branches that hold different tipsets at epoch `k`
/// return those different tipsets, each from its own branch.
pub proof fn lemma_height_branches(
    s: Seq<Arc<Tipset>>,
    ta: Arc<Tipset>,
    tb: Arc<Tipset>,
    n: nat,
    m: nat,
    resolve: ResolveNullTipset,
)
    requires
        store_wf(s),
        fits(s, ta),
        fits(s, tb),
        ancestor(s, ta, n) is Some,
        ancestor(s, tb, m) is Some,
        ancestor(s, ta, n)->Some_0.epoch == ancestor(s, tb, m)->Some_0.epoch,
        ancestor(s, ta, n)->Some_0.epoch != 0,
        parent_of(s, ancestor(s, ta, n)->Some_0) is Some,
        parent_of(s, ancestor(s, tb, m)->Some_0) is Some,
        ancestor(s, ta, n)->Some_0.key@ != ancestor(s, tb, m)->Some_0.key@,
    ensures
        by_height(s, ancestor(s, ta, n)->Some_0.epoch as int, ta, resolve) == Ok::<Arc<Tipset>, ChainError>(
            ancestor(s, ta, n)->Some_0,
        ),
        by_height(s, ancestor(s, ta, n)->Some_0.epoch as int, tb, resolve) == Ok::<Arc<Tipset>, ChainError>(
            ancestor(s, tb, m)->Some_0,
        ),
        by_height(s, ancestor(s, ta, n)->Some_0.epoch as int, ta, resolve) != by_height(
            s,
            ancestor(s, ta, n)->Some_0.epoch as int,
            tb,
            resolve,
        ),
{
    lemma_height_exact(s, ta, n, resolve);
    lemma_height_exact(s, tb, m, resolve);
}

/// The genesis walk ends at epoch zero.
proof fn lemma_genesis_walk_zero(s: Seq<Arc<Tipset>>, t: Arc<Tipset>)
    ensures
        genesis_walk(s, t) matches Some(g) ==> g.epoch == 0,
    decreases t.epoch,
{
    if t.epoch != 0 {
        match parent_of(s, t) {
            Some(p) => if 0 <= p.epoch < t.epoch {
                lemma_genesis_walk_zero(s, p);
            },
            None => {},
        }
    }
}

/// A lookup of epoch zero gives the genesis tipset, at epoch zero, whatever
/// the policy.
pub proof fn lemma_height_zero(s: Seq<Arc<Tipset>>, from: Arc<Tipset>)
    ensures
        by_height(s, 0, from, ResolveNullTipset::TakeOlder) == by_height(s, 0, from, ResolveNullTipset::TakeNewer),
        by_height(s, 0, from, ResolveNullTipset::TakeOlder) == (match genesis_of(s, from) {
            Some(g) => Ok(g),
            None => Err(ChainError::NotFound),
        }),
        by_height(s, 0, from, ResolveNullTipset::TakeOlder) matches Ok(g) ==> g.epoch == 0,
{
    if from.epoch != 0 {
        match parent_of(s, from) {
            Some(p) => lemma_genesis_walk_zero(s, p),
            None => {},
        }
    }
}

/// A lookup above the starting tipset fails with an invalid range.
pub proof fn lemma_height_above(s: Seq<Arc<Tipset>>, from: Arc<Tipset>, e: int, resolve: ResolveNullTipset)
    requires
        from.epoch >= 0,
        e > from.epoch,
    ensures
        by_height(s, e, from, resolve) == Err::<Arc<Tipset>, ChainError>(ChainError::InvalidRange),
{
}

/// An append-only arena of tipsets addressed by key.
pub struct TipsetStore {
    tipsets: Vec<Arc<Tipset>>,
}

impl TipsetStore {
    pub closed spec fn view(&self) -> Seq<Arc<Tipset>> {
        self.tipsets@
    }

    pub closed spec fn wf(&self) -> bool {
        store_wf(self.tipsets@)
    }

    /// A well-formed store keeps the store invariant.
    pub proof fn lemma_wf(&self)
        requires
            self.wf(),
        ensures
            store_wf(self.view()),
    {
    }

    /// An empty store.
    pub fn new() -> (r: TipsetStore)
        ensures
            r.wf(),
            r.view() == Seq::<Arc<Tipset>>::empty(),
    {
        TipsetStore { tipsets: Vec::new() }
    }

    /// The number of stored tipsets.
    pub fn len(&self) -> (r: usize)
        ensures
            r == self.view().len(),
    {
        self.tipsets.len()
    }

    /// The position of the tipset with key `k`.
    pub fn position(&self, k: &TipsetKey) -> (r: Option<usize>)
        requires
            self.wf(),
        ensures
            match r {
                Some(i) => i < self.view().len() && self.view()[i as int].key@ == k@
                    && find(self.view(), k@) == Some(self.view()[i as int]),
                None => find(self.view(), k@) is None,
            },
    {
        let mut i: usize = 0;
        while i < self.tipsets.len()
            invariant
                self.wf(),
                0 <= i <= self.tipsets.len(),
                forall|j: int| 0 <= j < i ==> (#[trigger] self.tipsets@[j]).key@ != k@,
            decreases self.tipsets.len() - i,
        {
            if keys_equal(&self.tipsets[i].key, k) {
                let ghost s = self.tipsets@;
                assert(s[i as int].key@ == k@);
                assert(key_index(s, k@) == i as int);
                return Some(i);
            }
            i = i + 1;
        }
        None
    }

    /// Stores `ts` if the store admits it; tells whether it did.
    pub fn insert(&mut self, ts: Tipset) -> (r: bool)
        requires
            old(self).wf(),
        ensures
            final(self).wf(),
            r == store_admits(old(self).view(), ts),
            r ==> final(self).view().len() == old(self).view().len() + 1
                && final(self).view().drop_last() == old(self).view()
                && *final(self).view().last() == ts,
            !r ==> final(self).view() == old(self).view(),
    {
        if ts.epoch < 0 || keys_equal(&ts.parents, &ts.key) {
            return false;
        }
        if self.position(&ts.key).is_some() {
            return false;
        }
        match self.position(&ts.parents) {
            Some(p) => {
                if self.tipsets[p].epoch >= ts.epoch {
                    return false;
                }
            },
            None => {},
        }
        let mut i: usize = 0;
        while i < self.tipsets.len()
            invariant
                self.wf(),
                store_admits(self.view(), ts) == (forall|j: int|
                    0 <= j < self.view().len() && (#[trigger] self.view()[j]).parents@ == ts.key@
                        ==> ts.epoch < self.view()[j].epoch),
                0 <= i <= self.tipsets.len(),
                forall|j: int|
                    0 <= j < i && (#[trigger] self.tipsets@[j]).parents@ == ts.key@
                        ==> ts.epoch < self.tipsets@[j].epoch,
            decreases self.tipsets.len() - i,
        {
            if keys_equal(&self.tipsets[i].parents, &ts.key) && self.tipsets[i].epoch <= ts.epoch {
                return false;
            }
            i = i + 1;
        }
        let ghost s0 = self.tipsets@;
        self.tipsets.push(Arc::new(ts));
        let ghost s1 = self.tipsets@;
        assert(s1.drop_last() =~= s0);
        assert forall|a: int, b: int|
            0 <= a < s1.len() && 0 <= b < s1.len() && (#[trigger] s1[b]).key@ == (#[trigger] s1[a]).parents@
            implies s1[b].epoch < s1[a].epoch by {
            if a == s0.len() && b < s0.len() {
                assert(find(s0, ts.parents@) is Some);
                let c = key_index(s0, ts.parents@);
                assert(s0[c].key@ == s0[b].key@);
            }
        }
        true
    }

    /// The stored tipset at position `i`.
    pub fn get(&self, i: usize) -> (r: Arc<Tipset>)
        requires
            i < self.view().len(),
        ensures
            r == self.view()[i as int],
    {
        self.tipsets[i].clone()
    }
}

} // verus!

verus! {

#[verifier::external_type_specification]
#[verifier::external_body]
#[verifier::reject_recursive_types(K)]
#[verifier::reject_recursive_types(V)]
#[verifier::reject_recursive_types(S)]
pub struct ExLruCache<K, V, S>(LruCache<K, V, S>);

#[verifier::external_type_specification]
#[verifier::external_body]
pub struct ExDefaultHasher(lru::DefaultHasher);

/// The entries of an LRU cache from tipset keys to store positions.
pub uninterp spec fn cache_entries(c: LruCache<Vec<u64>, usize>) -> Map<Seq<u64>, usize>;

/// Relies on lru::LruCache::new: a new cache holds no entries.
#[verifier::external_body]
fn cache_new(cap: usize) -> (r: LruCache<Vec<u64>, usize>)
    requires
        cap > 0,
    ensures
        cache_entries(r).dom() == Set::<Seq<u64>>::empty(),
{
    LruCache::new(NonZeroUsize::new(cap).unwrap())
}

/// Relies on lru::LruCache::get: it returns the value held for the key, if
/// any, and changes only the recency order.
#[verifier::external_body]
fn cache_get(c: &mut LruCache<Vec<u64>, usize>, k: &Vec<u64>) -> (r: Option<usize>)
    ensures
        cache_entries(*final(c)) == cache_entries(*old(c)),
        r == (if cache_entries(*old(c)).contains_key(k@) {
            Some(cache_entries(*old(c))[k@])
        } else {
            None
        }),
{
    c.get(k).copied()
}

/// Relies on lru::LruCache::put: afterwards the key maps to the value; any
/// other entry is either kept as it was or evicted.
#[verifier::external_body]
fn cache_put(c: &mut LruCache<Vec<u64>, usize>, k: Vec<u64>, v: usize)
    ensures
        cache_entries(*final(c)).contains_key(k@),
        cache_entries(*final(c))[k@] == v,
        forall|j: Seq<u64>| #[trigger] cache_entries(*final(c)).contains_key(j) && j != k@
            ==> cache_entries(*old(c)).contains_key(j)
                && cache_entries(*final(c))[j] == cache_entries(*old(c))[j],
{
    c.put(k, v);
}

/// A caching index over a tipset store. The cache maps keys to positions in
/// the store and never disagrees with it.
pub struct ChainIndex {
    ts_cache: LruCache<Vec<u64>, usize>,
    db: TipsetStore,
    cache_disabled: bool,
}

impl ChainIndex {
    /// The stored tipsets.
    pub closed spec fn store(&self) -> Seq<Arc<Tipset>> {
        self.db.view()
    }

    /// Whether lookups bypass the cache.
    pub closed spec fn bypasses_cache(&self) -> bool {
        self.cache_disabled
    }

    pub closed spec fn wf(&self) -> bool {
        &&& self.db.wf()
        &&& forall|k: Seq<u64>| #[trigger] cache_entries(self.ts_cache).contains_key(k)
            ==> cache_entries(self.ts_cache)[k] < self.db.view().len()
                && self.db.view()[cache_entries(self.ts_cache)[k] as int].key@ == k
    }

    /// A well-formed index stands over a store that keeps its invariant.
    pub proof fn lemma_wf_store(&self)
        requires
            self.wf(),
        ensures
            store_wf(self.store()),
    {
    }

    /// An index over `db`, with its cache on.
    pub fn new(db: TipsetStore) -> (r: ChainIndex)
        requires
            db.wf(),
        ensures
            r.wf(),
            r.store() == db.view(),
            !r.bypasses_cache(),
    {
        ChainIndex { ts_cache: cache_new(DEFAULT_TIPSET_CACHE_SIZE), db, cache_disabled: false }
    }

    /// Turns the cache off or on; results do not change, only their cost.
    pub fn set_cache_disabled(&mut self, disabled: bool)
        requires
            old(self).wf(),
        ensures
            final(self).wf(),
            final(self).store() == old(self).store(),
            final(self).bypasses_cache() == disabled,
    {
        self.cache_disabled = disabled;
    }

    /// The store behind the index.
    pub fn db(&self) -> (r: &TipsetStore)
        ensures
            r.view() == self.store(),
            self.wf() ==> r.wf(),
    {
        &self.db
    }

    /// Persists `ts` in the store behind the index, if the store admits it.
    pub fn insert(&mut self, ts: Tipset) -> (r: bool)
        requires
            old(self).wf(),
        ensures
            final(self).wf(),
            final(self).bypasses_cache() == old(self).bypasses_cache(),
            r == store_admits(old(self).store(), ts),
            r ==> final(self).store().drop_last() == old(self).store()
                && final(self).store().len() == old(self).store().len() + 1
                && *final(self).store().last() == ts,
            !r ==> final(self).store() == old(self).store(),
    {
        let r = self.db.insert(ts);
        r
    }

    /// The tipset with key `tsk`, from the cache or else from the store.
    pub fn load_tipset(&mut self, tsk: &TipsetKey) -> (r: Option<Arc<Tipset>>)
        requires
            old(self).wf(),
        ensures
            final(self).wf(),
            final(self).store() == old(self).store(),
            final(self).bypasses_cache() == old(self).bypasses_cache(),
            r == find(old(self).store(), tsk@),
    {
        if !self.cache_disabled {
            match cache_get(&mut self.ts_cache, &tsk.cids) {
                Some(i) => {
                    let ghost s = self.db.view();
                    assert(s[i as int].key@ == tsk@);
                    assert(key_index(s, tsk@) == i as int);
                    return Some(self.db.get(i));
                },
                None => {},
            }
        }
        match self.db.position(tsk) {
            Some(i) => {
                cache_put(&mut self.ts_cache, tsk.cids.clone(), i);
                Some(self.db.get(i))
            },
            None => None,
        }
    }

    /// The tipset with key `tsk`; its absence is an error.
    pub fn load_required_tipset(&mut self, tsk: &TipsetKey) -> (r: Result<Arc<Tipset>, ChainError>)
        requires
            old(self).wf(),
        ensures
            final(self).wf(),
            final(self).store() == old(self).store(),
            final(self).bypasses_cache() == old(self).bypasses_cache(),
            r == (match find(old(self).store(), tsk@) {
                Some(t) => Ok(t),
                None => Err(ChainError::NotFound),
            }),
    {
        match self.load_tipset(tsk) {
            Some(t) => Ok(t),
            None => Err(ChainError::NotFound),
        }
    }

    /// The genesis tipset of the chain that `from` ends: the first tipset at
    /// epoch zero met walking toward genesis.
    pub fn genesis(&mut self, from: Arc<Tipset>) -> (r: Result<Arc<Tipset>, ChainError>)
        requires
            old(self).wf(),
        ensures
            final(self).wf(),
            final(self).store() == old(self).store(),
            final(self).bypasses_cache() == old(self).bypasses_cache(),
            r == (match genesis_of(old(self).store(), from) {
                Some(g) => Ok(g),
                None => Err(ChainError::NotFound),
            }),
    {
        let ghost s = self.store();
        if from.epoch == 0 {
            return Ok(from);
        }
        let mut cur = match self.load_tipset(&from.parents) {
            Some(p) => p,
            None => return Err(ChainError::NotFound),
        };
        proof {
            lemma_find_stored(s, from.parents@);
        }
        loop
            invariant
                self.wf(),
                self.store() == s,
                s == old(self).store(),
                self.bypasses_cache() == old(self).bypasses_cache(),
                stored(s, cur),
                genesis_walk(s, cur) == genesis_of(s, from),
            decreases cur.epoch,
        {
            proof {
                lemma_stored_fits(s, cur);
            }
            if cur.epoch == 0 {
                return Ok(cur);
            }
            match self.load_tipset(&cur.parents) {
                Some(p) => {
                    cur = p;
                },
                None => return Err(ChainError::NotFound),
            }
        }
    }

    /// The tipset at epoch `to` on the chain that `from` ends. A null epoch
    /// resolves to the tipset below it or above it as `resolve` says; epoch
    /// zero gives genesis.
    pub fn tipset_by_height(&mut self, to: i64, from: Arc<Tipset>, resolve: ResolveNullTipset) -> (r: Result<Arc<Tipset>, ChainError>)
        requires
            old(self).wf(),
        ensures
            final(self).wf(),
            final(self).store() == old(self).store(),
            final(self).bypasses_cache() == old(self).bypasses_cache(),
            r == by_height(old(self).store(), to as int, from, resolve),
    {
        let ghost s = self.store();
        if to == 0 {
            return self.genesis(from);
        }
        if to > from.epoch {
            return Err(ChainError::InvalidRange);
        }
        let first = match self.load_tipset(&from.parents) {
            Some(p) => p,
            None => return Err(ChainError::NotFound),
        };
        if to == from.epoch {
            return Ok(from);
        }
        if to > first.epoch {
            return match resolve {
                ResolveNullTipset::TakeOlder => Ok(first),
                ResolveNullTipset::TakeNewer => Ok(from),
            };
        }
        proof {
            lemma_find_stored(s, from.parents@);
        }
        let mut child = first;
        loop
            invariant
                self.wf(),
                self.store() == s,
                s == old(self).store(),
                self.bypasses_cache() == old(self).bypasses_cache(),
                stored(s, child),
                to != 0,
                to <= from.epoch,
                to <= child.epoch,
                walk(s, to as int, child, resolve) == walk_from(s, to as int, from, resolve),
            decreases child.epoch - to,
        {
            proof {
                lemma_stored_fits(s, child);
            }
            let parent = match self.load_tipset(&child.parents) {
                Some(p) => p,
                None => return Err(ChainError::NotFound),
            };
            if to == child.epoch {
                return Ok(child);
            }
            if to > parent.epoch {
                return match resolve {
                    ResolveNullTipset::TakeOlder => Ok(parent),
                    ResolveNullTipset::TakeNewer => Ok(child),
                };
            }
            child = parent;
        }
    }

    /// The chain from `from` toward genesis, as far as parents can be
    /// loaded: `from`, its parent, that one's parent, and so on.
    pub fn chain(&mut self, from: Arc<Tipset>) -> (r: Vec<Arc<Tipset>>)
        requires
            old(self).wf(),
        ensures
            final(self).wf(),
            final(self).store() == old(self).store(),
            final(self).bypasses_cache() == old(self).bypasses_cache(),
            r@.len() >= 1,
            forall|i: int| 0 <= i < r@.len() ==> ancestor(old(self).store(), from, i as nat) == Some(#[trigger] r@[i]),
            ancestor(old(self).store(), from, r@.len()) is None,
    {
        let ghost s = self.store();
        let mut out: Vec<Arc<Tipset>> = Vec::new();
        out.push(from.clone());
        proof {
            assert(ancestor(s, from, 0) == Some(from));
            lemma_ancestor_step(s, from, 0);
        }
        let mut cur = match self.load_tipset(&from.parents) {
            Some(p) => p,
            None => return out,
        };
        proof {
            lemma_find_stored(s, from.parents@);
        }
        loop
            invariant
                self.wf(),
                self.store() == s,
                s == old(self).store(),
                self.bypasses_cache() == old(self).bypasses_cache(),
                stored(s, cur),
                out@.len() >= 1,
                ancestor(s, from, out@.len() as nat) == Some(cur),
                forall|i: int| 0 <= i < out@.len() ==> ancestor(s, from, i as nat) == Some(#[trigger] out@[i]),
            decreases cur.epoch,
        {
            proof {
                lemma_stored_fits(s, cur);
                lemma_ancestor_step(s, from, out@.len() as nat);
            }
            out.push(cur.clone());
            match self.load_tipset(&cur.parents) {
                Some(p) => {
                    proof {
                        lemma_find_stored(s, cur.parents@);
                    }
                    cur = p;
                },
                None => return out,
            }
        }
    }

    /// The latest beacon entry among the last tipsets of the chain that
    /// `tipset` ends: the last entry of the first of them that carries one.
    /// Reaching genesis without one, or running out of tipsets, is an error,
    /// unless `ignore_missing_randomness` asks for the placeholder entry;
    /// that is a debugging escape hatch and is never on by default.
    pub fn latest_beacon_entry(&mut self, tipset: Arc<Tipset>, ignore_missing_randomness: bool) -> (r: Result<BeaconEntry, ChainError>)
        requires
            old(self).wf(),
        ensures
            final(self).wf(),
            final(self).store() == old(self).store(),
            final(self).bypasses_cache() == old(self).bypasses_cache(),
            match (r, latest_beacon(old(self).store(), tipset, ignore_missing_randomness)) {
                (Ok(e), Ok(v)) => e@ == v,
                (Err(e), Err(v)) => e == v,
                _ => false,
            },
    {
        let ghost s = self.store();
        let mut cur = tipset;
        let mut budget: usize = BEACON_LOOKBACK;
        let ghost total = beacon_search(s, cur, budget as nat);
        while budget > 0
            invariant
                self.wf(),
                self.store() == s,
                s == old(self).store(),
                self.bypasses_cache() == old(self).bypasses_cache(),
                beacon_search(s, cur, budget as nat) == total,
                total == beacon_search(s, tipset, BEACON_LOOKBACK as nat),
            decreases budget,
        {
            let n = cur.beacon_entries.len();
            if n > 0 {
                return Ok(cur.beacon_entries[n - 1].duplicate());
            }
            if cur.epoch == 0 {
                return if ignore_missing_randomness {
                    Ok(BeaconEntry::placeholder())
                } else {
                    Err(ChainError::NoBeaconEntry)
                };
            }
            match self.load_tipset(&cur.parents) {
                Some(p) => {
                    cur = p;
                    budget = budget - 1;
                },
                None => {
                    budget = 0;
                },
            }
        }
        if ignore_missing_randomness {
            Ok(BeaconEntry::placeholder())
        } else {
            Err(ChainError::NoBeaconEntry)
        }
    }

    /// The key of the tipset at `epoch` on the chain that `heaviest` ends, a
    /// null epoch resolving to the tipset below it: what the virtual machine
    /// asks for when it looks back.
    pub fn get_tipset_key(&mut self, epoch: i64, heaviest: Arc<Tipset>) -> (r: Result<TipsetKey, ChainError>)
        requires
            old(self).wf(),
        ensures
            final(self).wf(),
            final(self).store() == old(self).store(),
            final(self).bypasses_cache() == old(self).bypasses_cache(),
            match (r, by_height(old(self).store(), epoch as int, heaviest, ResolveNullTipset::TakeOlder)) {
                (Ok(k), Ok(t)) => k@ == t.key@,
                (Err(e), Err(f)) => e == f,
                _ => false,
            },
    {
        match self.tipset_by_height(epoch, heaviest, ResolveNullTipset::TakeOlder) {
            Ok(t) => Ok(TipsetKey { cids: t.key.cids.clone() }),
            Err(e) => Err(e),
        }
    }
}

} // verus!

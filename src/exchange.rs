//! Chain-exchange responses: a peer sends tipsets as bundles of headers
//! with their messages compacted into shared lists and per-block index
//! lists. This module rebuilds full tipsets from them.
use vstd::prelude::*;
use crate::fault::BlockHeader;

verus! {

/// Most messages that one block may carry.
pub const BLOCK_MESSAGE_LIMIT: usize = 10000;

/// A block header with its messages, named by their content identifiers.
#[derive(Debug, Clone, PartialEq, Eq)]
pub struct Block {
    pub header: BlockHeader,
    pub bls_messages: Vec<u64>,
    pub secp_messages: Vec<u64>,
}

/// Why blocks do not form a tipset.
#[derive(Debug, Clone, Copy, PartialEq, Eq, Structural)]
pub enum CreateTipsetError {
    Empty,
    BadParents,
    BadEpoch,
    DuplicateMiner,
}

/// Whether headers can form a tipset: at least one, all with the parents
/// and epoch of the first, no two from the same miner.
pub open spec fn tipset_check(hs: Seq<BlockHeader>) -> Result<(), CreateTipsetError> {
    if hs.len() == 0 {
        Err(CreateTipsetError::Empty)
    } else if exists|i: int| 0 <= i < hs.len() && (#[trigger] hs[i]).parents@ != hs[0].parents@ {
        Err(CreateTipsetError::BadParents)
    } else if exists|i: int| 0 <= i < hs.len() && (#[trigger] hs[i]).epoch != hs[0].epoch {
        Err(CreateTipsetError::BadEpoch)
    } else if exists|i: int, j: int|
        0 <= i < j < hs.len() && (#[trigger] hs[i]).miner_address == (#[trigger] hs[j]).miner_address {
        Err(CreateTipsetError::DuplicateMiner)
    } else {
        Ok(())
    }
}

/// The headers of some blocks.
pub open spec fn headers_of(blocks: Seq<Block>) -> Seq<BlockHeader> {
    blocks.map_values(|b: Block| b.header)
}

/// Checks that headers can form a tipset.
pub fn verify_block_headers(blocks: &Vec<Block>) -> (r: Result<(), CreateTipsetError>)
    ensures
        r == tipset_check(headers_of(blocks@)),
{
    let ghost hs = headers_of(blocks@);
    let n = blocks.len();
    if n == 0 {
        return Err(CreateTipsetError::Empty);
    }
    let mut i: usize = 0;
    while i < n
        invariant
            n == blocks@.len(),
            hs == headers_of(blocks@),
            0 <= i <= n,
            forall|k: int| 0 <= k < i ==> (#[trigger] hs[k]).parents@ == hs[0].parents@,
        decreases n - i,
    {
        if !crate::index::keys_equal(&blocks[i].header.parents, &blocks[0].header.parents) {
            assert(hs[i as int].parents@ != hs[0].parents@);
            return Err(CreateTipsetError::BadParents);
        }
        i = i + 1;
    }
    let mut i: usize = 0;
    while i < n
        invariant
            n == blocks@.len(),
            n > 0,
            hs == headers_of(blocks@),
            0 <= i <= n,
            forall|k: int| 0 <= k < n ==> (#[trigger] hs[k]).parents@ == hs[0].parents@,
            forall|k: int| 0 <= k < i ==> (#[trigger] hs[k]).epoch == hs[0].epoch,
        decreases n - i,
    {
        if blocks[i].header.epoch != blocks[0].header.epoch {
            assert(hs[i as int].epoch != hs[0].epoch);
            return Err(CreateTipsetError::BadEpoch);
        }
        i = i + 1;
    }
    let mut i: usize = 0;
    while i < n
        invariant
            n == blocks@.len(),
            n > 0,
            hs == headers_of(blocks@),
            0 <= i <= n,
            forall|k: int| 0 <= k < n ==> (#[trigger] hs[k]).parents@ == hs[0].parents@,
            forall|k: int| 0 <= k < n ==> (#[trigger] hs[k]).epoch == hs[0].epoch,
            forall|a: int, b: int| 0 <= a < b < n && a < i ==> (#[trigger] hs[a]).miner_address != (#[trigger] hs[b]).miner_address,
        decreases n - i,
    {
        let mut j: usize = i + 1;
        while j < n
            invariant
                n == blocks@.len(),
                hs == headers_of(blocks@),
                0 <= i < n,
                i + 1 <= j <= n,
                forall|k: int| 0 <= k < n ==> (#[trigger] hs[k]).parents@ == hs[0].parents@,
                forall|k: int| 0 <= k < n ==> (#[trigger] hs[k]).epoch == hs[0].epoch,
                forall|a: int, b: int| 0 <= a < b < n && a < i ==> (#[trigger] hs[a]).miner_address != (#[trigger] hs[b]).miner_address,
                forall|b: int| i < b < j ==> hs[i as int].miner_address != (#[trigger] hs[b]).miner_address,
            decreases n - j,
        {
            if blocks[i].header.miner_address == blocks[j].header.miner_address {
                assert(hs[i as int].miner_address == hs[j as int].miner_address);
                return Err(CreateTipsetError::DuplicateMiner);
            }
            j = j + 1;
        }
        i = i + 1;
    }
    Ok(())
}

/// Blocks that form a tipset.
#[derive(Debug, Clone, PartialEq, Eq)]
pub struct FullTipset {
    blocks: Vec<Block>,
}

impl FullTipset {
    pub closed spec fn view(&self) -> Seq<Block> {
        self.blocks@
    }

    /// The tipset of `blocks`, in the order given, if they form one.
    pub fn new(blocks: Vec<Block>) -> (r: Result<FullTipset, CreateTipsetError>)
        ensures
            match (r, tipset_check(headers_of(blocks@))) {
                (Ok(t), Ok(())) => t.view() == blocks@,
                (Err(e), Err(f)) => e == f,
                _ => false,
            },
    {
        match verify_block_headers(&blocks) {
            Ok(()) => Ok(FullTipset { blocks }),
            Err(e) => Err(e),
        }
    }

    /// The blocks.
    pub fn blocks(&self) -> (r: &Vec<Block>)
        ensures
            r@ == self.view(),
    {
        &self.blocks
    }
}

/// The messages of a bundle: shared lists, and for each block the indexes
/// into them of that block's messages.
#[derive(Debug, Clone, PartialEq, Eq)]
pub struct CompactedMessages {
    pub bls_msgs: Vec<u64>,
    pub bls_msg_includes: Vec<Vec<u64>>,
    pub secp_msgs: Vec<u64>,
    pub secp_msg_includes: Vec<Vec<u64>>,
}

/// The headers of one tipset and, where asked for, their messages.
#[derive(Debug, Clone, PartialEq, Eq)]
pub struct TipsetBundle {
    pub blocks: Vec<BlockHeader>,
    pub messages: Option<CompactedMessages>,
}

/// The status of a chain-exchange response.
#[derive(Debug, Clone, Copy, PartialEq, Eq, Structural)]
pub enum ChainExchangeResponseStatus {
    Success,
    PartialResponse,
    BlockNotFound,
    GoAway,
    InternalError,
    BadRequest,
}

/// A peer's answer to a chain-exchange request.
#[derive(Debug, Clone, PartialEq, Eq)]
pub struct ChainExchangeResponse {
    pub chain: Vec<TipsetBundle>,
    pub status: ChainExchangeResponseStatus,
    pub message: String,
}

/// Why a chain-exchange response gives no tipsets.
#[derive(Debug, Clone, Copy, PartialEq, Eq, Structural)]
pub enum ExchangeError {
    /// The peer did not answer with tipsets.
    Status(ChainExchangeResponseStatus),
    /// A bundle carries no messages.
    MissingMessages,
    /// The index lists do not match the blocks in number.
    IncludesMismatch,
    /// A block lists more messages than a block may carry.
    TooManyMessages { block: usize },
    /// An index points past its message list.
    InvalidMessageIndex,
    /// The blocks do not form a tipset.
    Tipset(CreateTipsetError),
}

/// Whether every index points into a list of `len` values.
pub open spec fn indexes_valid(indexes: Seq<u64>, len: nat) -> bool {
    forall|j: int| 0 <= j < indexes.len() ==> (#[trigger] indexes[j]) < len
}

/// The values that indexes point to.
pub open spec fn gathered(indexes: Seq<u64>, values: Seq<u64>) -> Seq<u64> {
    indexes.map_values(|k: u64| values[k as int])
}

/// The values that `indexes` point to in `values`, if all point into it.
pub fn values_from_indexes(indexes: &Vec<u64>, values: &Vec<u64>) -> (r: Option<Vec<u64>>)
    ensures
        match r {
            Some(v) => indexes_valid(indexes@, values@.len()) && v@ == gathered(indexes@, values@),
            None => !indexes_valid(indexes@, values@.len()),
        },
{
    let mut out: Vec<u64> = Vec::new();
    let mut j: usize = 0;
    while j < indexes.len()
        invariant
            0 <= j <= indexes@.len(),
            indexes_valid(indexes@.take(j as int), values@.len()),
            out@ == gathered(indexes@.take(j as int), values@),
        decreases indexes@.len() - j,
    {
        let k = indexes[j];
        if k >= values.len() as u64 {
            assert(indexes@[j as int] >= values@.len());
            return None;
        }
        out.push(values[k as usize]);
        proof {
            assert(indexes@.take(j as int + 1) =~= indexes@.take(j as int).push(k));
            assert(out@ =~= gathered(indexes@.take(j as int + 1), values@));
        }
        j = j + 1;
    }
    assert(indexes@.take(j as int) =~= indexes@);
    Some(out)
}

/// Whether block `i` of a bundle lists too many messages.
pub open spec fn too_many(m: CompactedMessages, i: int) -> bool {
    m.bls_msg_includes@[i]@.len() + m.secp_msg_includes@[i]@.len() > BLOCK_MESSAGE_LIMIT
}

/// Whether block `i` of a bundle has an index that points past its list.
pub open spec fn bad_index(m: CompactedMessages, i: int) -> bool {
    !indexes_valid(m.bls_msg_includes@[i]@, m.bls_msgs@.len())
        || !indexes_valid(m.secp_msg_includes@[i]@, m.secp_msgs@.len())
}

/// Whether block `i` of a bundle cannot be rebuilt.
pub open spec fn block_fails(m: CompactedMessages, i: int) -> bool {
    too_many(m, i) || bad_index(m, i)
}

/// Block `i` of a bundle, rebuilt.
pub open spec fn rebuilt(h: BlockHeader, m: CompactedMessages, i: int, b: Block) -> bool {
    &&& b.header == h
    &&& b.bls_messages@ == gathered(m.bls_msg_includes@[i]@, m.bls_msgs@)
    &&& b.secp_messages@ == gathered(m.secp_msg_includes@[i]@, m.secp_msgs@)
}

/// The first block of a bundle of `n` blocks that cannot be rebuilt, where
/// there is one.
pub open spec fn first_failure(m: CompactedMessages, n: int) -> int {
    choose|i: int| 0 <= i < n && #[trigger] block_fails(m, i) && forall|k: int| 0 <= k < i ==> !#[trigger] block_fails(m, k)
}

/// What rebuilding a bundle gives: an error for missing messages or
/// mismatched index lists; for the first block that lists too many messages
/// or points past a list; or from forming the tipset. `Ok` carries nothing:
/// the blocks are those that `rebuilt` describes.
pub open spec fn bundle_check(tsb: TipsetBundle) -> Result<(), ExchangeError> {
    match tsb.messages {
        None => Err(ExchangeError::MissingMessages),
        Some(m) => if tsb.blocks@.len() != m.bls_msg_includes@.len() || tsb.blocks@.len() != m.secp_msg_includes@.len() {
            Err(ExchangeError::IncludesMismatch)
        } else if exists|i: int| 0 <= i < tsb.blocks@.len() && #[trigger] block_fails(m, i) {
            let i = first_failure(m, tsb.blocks@.len() as int);
            if too_many(m, i) {
                Err(ExchangeError::TooManyMessages { block: i as usize })
            } else {
                Err(ExchangeError::InvalidMessageIndex)
            }
        } else {
            match tipset_check(tsb.blocks@) {
                Ok(()) => Ok(()),
                Err(e) => Err(ExchangeError::Tipset(e)),
            }
        },
    }
}

proof fn lemma_first_failure(m: CompactedMessages, n: int, i: int)
    requires
        0 <= i < n,
        block_fails(m, i),
        forall|k: int| 0 <= k < i ==> !#[trigger] block_fails(m, k),
    ensures
        first_failure(m, n) == i,
{
    let j = first_failure(m, n);
    assert(0 <= j < n && block_fails(m, j) && forall|k: int| 0 <= k < j ==> !#[trigger] block_fails(m, k));
    if j < i {
        assert(!block_fails(m, j));
    }
    if i < j {
        assert(!block_fails(m, i));
    }
}

impl FullTipset {
    /// The full tipset that a bundle describes.
    pub fn from_bundle(tsb: TipsetBundle) -> (r: Result<FullTipset, ExchangeError>)
        ensures
            match (r, bundle_check(tsb)) {
                (Ok(t), Ok(())) => t.view().len() == tsb.blocks@.len()
                    && forall|i: int| 0 <= i < t.view().len()
                        ==> rebuilt(tsb.blocks@[i], tsb.messages->Some_0, i, #[trigger] t.view()[i]),
                (Err(e), Err(f)) => e == f,
                _ => false,
            },
    {
        let ghost orig = tsb;
        let TipsetBundle { blocks: mut headers, messages } = tsb;
        let m = match messages {
            Some(m) => m,
            None => return Err(ExchangeError::MissingMessages),
        };
        let n = headers.len();
        if n != m.bls_msg_includes.len() || n != m.secp_msg_includes.len() {
            return Err(ExchangeError::IncludesMismatch);
        }
        let ghost hs = headers@;
        let mut out: Vec<Block> = Vec::new();
        let mut i: usize = 0;
        while i < n
            invariant
                n == hs.len(),
                n == m.bls_msg_includes@.len(),
                n == m.secp_msg_includes@.len(),
                0 <= i <= n,
                headers@ == hs.subrange(i as int, n as int),
                out@.len() == i,
                orig.blocks@ == hs,
                orig.messages == Some(m),
                orig == tsb,
                forall|k: int| 0 <= k < i ==> !#[trigger] block_fails(m, k),
                forall|k: int| 0 <= k < i ==> rebuilt(hs[k], m, k, #[trigger] out@[k]),
            decreases n - i,
        {
            let bls_include = &m.bls_msg_includes[i];
            let secp_include = &m.secp_msg_includes[i];
            if bls_include.len() > BLOCK_MESSAGE_LIMIT || secp_include.len() > BLOCK_MESSAGE_LIMIT - bls_include.len() {
                proof {
                    assert(block_fails(m, i as int));
                    lemma_first_failure(m, n as int, i as int);
                }
                return Err(ExchangeError::TooManyMessages { block: i });
            }
            let bls_messages = match values_from_indexes(bls_include, &m.bls_msgs) {
                Some(v) => v,
                None => {
                    proof {
                        assert(block_fails(m, i as int));
                        lemma_first_failure(m, n as int, i as int);
                    }
                    return Err(ExchangeError::InvalidMessageIndex);
                },
            };
            let secp_messages = match values_from_indexes(secp_include, &m.secp_msgs) {
                Some(v) => v,
                None => {
                    proof {
                        assert(block_fails(m, i as int));
                        lemma_first_failure(m, n as int, i as int);
                    }
                    return Err(ExchangeError::InvalidMessageIndex);
                },
            };
            let header = headers.remove(0);
            assert(header == hs[i as int]);
            assert(headers@ =~= hs.subrange(i as int + 1, n as int));
            out.push(Block { header, bls_messages, secp_messages });
            i = i + 1;
        }
        assert(headers_of(out@) =~= hs);
        match FullTipset::new(out) {
            Ok(t) => Ok(t),
            Err(e) => Err(ExchangeError::Tipset(e)),
        }
    }
}

/// The tipset rebuilt from a bundle: its blocks are the bundle's headers
/// with the messages their index lists point to.
pub open spec fn rebuilt_tipset(tsb: TipsetBundle, t: FullTipset) -> bool {
    &&& t.view().len() == tsb.blocks@.len()
    &&& forall|j: int| 0 <= j < t.view().len() ==> rebuilt(tsb.blocks@[j], tsb.messages->Some_0, j, #[trigger] t.view()[j])
}

/// Whether a response status carries tipsets.
pub open spec fn status_ok(s: ChainExchangeResponseStatus) -> bool {
    s == ChainExchangeResponseStatus::Success || s == ChainExchangeResponseStatus::PartialResponse
}

impl ChainExchangeResponse {
    /// The full tipsets of a successful or partial response, in order; the
    /// first bundle that cannot be rebuilt gives the error.
    pub fn into_result(self) -> (r: Result<Vec<FullTipset>, ExchangeError>)
        ensures
            !status_ok(self.status) ==> r == Err::<Vec<FullTipset>, ExchangeError>(ExchangeError::Status(self.status)),
            status_ok(self.status) ==> match r {
                Ok(v) => v@.len() == self.chain@.len()
                    && forall|i: int| 0 <= i < v@.len() ==> (#[trigger] bundle_check(self.chain@[i])) is Ok
                        && rebuilt_tipset(self.chain@[i], v@[i]),
                Err(e) => exists|i: int| 0 <= i < self.chain@.len()
                    && (#[trigger] bundle_check(self.chain@[i])) == Err::<(), ExchangeError>(e)
                    && forall|k: int| 0 <= k < i ==> (#[trigger] bundle_check(self.chain@[k])) is Ok,
            },
    {
        let ghost orig = self;
        let ChainExchangeResponse { chain: mut bundles, status, message: _ } = self;
        if !(status == ChainExchangeResponseStatus::Success || status == ChainExchangeResponseStatus::PartialResponse) {
            return Err(ExchangeError::Status(status));
        }
        let n = bundles.len();
        let ghost cs = bundles@;
        let mut out: Vec<FullTipset> = Vec::new();
        let mut i: usize = 0;
        while i < n
            invariant
                n == cs.len(),
                cs == orig.chain@,
                0 <= i <= n,
                bundles@ == cs.subrange(i as int, n as int),
                status_ok(orig.status),
                orig == self,
                out@.len() == i,
                forall|k: int| 0 <= k < i ==> (#[trigger] bundle_check(cs[k])) is Ok && rebuilt_tipset(cs[k], out@[k]),
            decreases n - i,
        {
            let b = bundles.remove(0);
            assert(b == cs[i as int]);
            assert(bundles@ =~= cs.subrange(i as int + 1, n as int));
            match FullTipset::from_bundle(b) {
                Ok(t) => out.push(t),
                Err(e) => {
                    assert(bundle_check(cs[i as int]) == Err::<(), ExchangeError>(e));
                    return Err(e);
                },
            }
            i = i + 1;
        }
        Ok(out)
    }
}

} // verus!

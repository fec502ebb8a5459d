//! Consensus-fault detection: the cheap checks and the classification of a
//! pair of block headers (with an optional witness), the verdict once both
//! signatures have been checked, the admissibility of a worker-key lookback,
//! and the gas that a lookback's store activity costs.
use vstd::prelude::*;
use crate::index::{keys_equal, TipsetKey};

verus! {

/// Milligas per unit of gas.
pub const MILLIGAS_PER_GAS: u64 = 1000;

/// The kinds of consensus fault.
#[derive(Debug, Clone, Copy, PartialEq, Eq, Structural)]
pub enum ConsensusFaultType {
    DoubleForkMining,
    ParentGrinding,
    TimeOffsetMining,
}

/// Evidence that a miner broke the block-production rules.
#[derive(Debug, Clone, Copy, PartialEq, Eq, Structural)]
pub struct ConsensusFault {
    pub target: u64,
    pub epoch: i64,
    pub fault_type: ConsensusFaultType,
}

/// The fields of a block header that fault detection reads.
#[derive(Debug, Clone, PartialEq, Eq)]
pub struct BlockHeader {
    /// Content identifier of the header.
    pub cid: u64,
    /// Identifier of the miner actor that produced the block.
    pub miner_address: u64,
    pub epoch: i64,
    pub parents: TipsetKey,
    pub timestamp: u64,
}

/// Network settings that fault detection depends on.
#[derive(Debug, Clone, Copy, PartialEq, Eq, Structural)]
pub struct FaultConfig {
    /// Whether the chain is the test network whose faults are relaxed around
    /// one upgrade.
    pub relaxed_network: bool,
    /// Height of that upgrade, where the network defines it.
    pub relaxed_upgrade_height: Option<i64>,
    /// Epochs after which a tipset is final.
    pub chain_finality: i64,
}

/// Errors of fault detection that are not mere lack of evidence.
#[derive(Debug, Clone, Copy, PartialEq, Eq, Structural)]
pub enum FaultError {
    /// The relaxed network does not define its upgrade height.
    MissingUpgradeHeight,
}

/// The outcome of checking one header's signature against the worker key
/// at its epoch.
#[derive(Debug, Clone, Copy, PartialEq, Eq, Structural)]
pub enum SignatureCheck {
    /// The signature verified; the lookback cost this much gas.
    Verified { gas_used: i64 },
    /// The lookup or the signature failed.
    Rejected,
}

/// Whether two byte strings are equal.
pub fn bytes_equal(a: &[u8], b: &[u8]) -> (r: bool)
    ensures
        r == (a@ == b@),
{
    if a.len() != b.len() {
        return false;
    }
    let mut i: usize = 0;
    while i < a.len()
        invariant
            a@.len() == b@.len(),
            0 <= i <= a@.len(),
            forall|j: int| 0 <= j < i ==> a@[j] == b@[j],
        decreases a@.len() - i,
    {
        if a[i] != b[i] {
            return false;
        }
        i = i + 1;
    }
    assert(a@ =~= b@);
    true
}

/// Whether a key names the block `cid` among its blocks.
pub fn key_contains(k: &TipsetKey, cid: u64) -> (r: bool)
    ensures
        r == k@.contains(cid),
{
    let mut i: usize = 0;
    while i < k.cids.len()
        invariant
            0 <= i <= k@.len(),
            forall|j: int| 0 <= j < i ==> k@[j] != cid,
        decreases k@.len() - i,
    {
        if k.cids[i] == cid {
            return true;
        }
        i = i + 1;
    }
    false
}

/// Whether `epoch` lies within one finality window of the upgrade height.
pub open spec fn near_upgrade(epoch: i64, height: i64, finality: i64) -> bool {
    height - finality < epoch < height + finality
}

/// The fault that a pair of headers shows, first match winning: same epoch,
/// then same parents at different epochs, then a witness that is a sibling
/// of the first header and a parent of the second, which leaves the first
/// header out.
pub open spec fn fault_kind(bh1: BlockHeader, bh2: BlockHeader, witness: Option<BlockHeader>) -> Option<ConsensusFaultType> {
    if bh1.epoch == bh2.epoch {
        Some(ConsensusFaultType::DoubleForkMining)
    } else if bh1.parents@ == bh2.parents@ {
        Some(ConsensusFaultType::TimeOffsetMining)
    } else {
        match witness {
            Some(w) => if bh1.parents@ == w.parents@ && bh1.epoch == w.epoch && bh2.parents@.contains(w.cid)
                && !bh2.parents@.contains(bh1.cid) {
                Some(ConsensusFaultType::ParentGrinding)
            } else {
                None
            },
            None => None,
        }
    }
}

/// The classification of two headers given as raw bytes and decoded: no
/// fault for identical bytes or identifiers, for headers near the relaxed
/// upgrade, for different miners, or for a first header later than the
/// second; otherwise the kind of fault they show, if any.
pub open spec fn classification(
    h1: Seq<u8>,
    h2: Seq<u8>,
    bh1: BlockHeader,
    bh2: BlockHeader,
    witness: Option<BlockHeader>,
    cfg: FaultConfig,
) -> Result<Option<ConsensusFaultType>, FaultError> {
    if h1 == h2 || bh1.cid == bh2.cid {
        Ok(None)
    } else if cfg.relaxed_network && cfg.relaxed_upgrade_height is None {
        Err(FaultError::MissingUpgradeHeight)
    } else if cfg.relaxed_network && (near_upgrade(bh1.epoch, cfg.relaxed_upgrade_height->Some_0, cfg.chain_finality)
        || near_upgrade(bh2.epoch, cfg.relaxed_upgrade_height->Some_0, cfg.chain_finality)) {
        Ok(None)
    } else if bh1.miner_address != bh2.miner_address || bh2.epoch < bh1.epoch {
        Ok(None)
    } else {
        Ok(fault_kind(bh1, bh2, witness))
    }
}

/// The cheap part of fault verification: compares the raw headers and
/// their decoded forms and classifies the fault, if any. `witness` is the
/// decoded third header, present exactly when one was submitted.
pub fn classify_consensus_fault(
    h1: &[u8],
    h2: &[u8],
    bh1: &BlockHeader,
    bh2: &BlockHeader,
    witness: Option<&BlockHeader>,
    cfg: &FaultConfig,
) -> (r: Result<Option<ConsensusFaultType>, FaultError>)
    ensures
        r == classification(h1@, h2@, *bh1, *bh2, match witness {
            Some(w) => Some(*w),
            None => None,
        }, *cfg),
{
    if bytes_equal(h1, h2) || bh1.cid == bh2.cid {
        return Ok(None);
    }
    if cfg.relaxed_network {
        let height = match cfg.relaxed_upgrade_height {
            Some(h) => h,
            None => return Err(FaultError::MissingUpgradeHeight),
        };
        let f = cfg.chain_finality as i128;
        let h = height as i128;
        let e1 = bh1.epoch as i128;
        let e2 = bh2.epoch as i128;
        if (h - f < e1 && e1 < h + f) || (h - f < e2 && e2 < h + f) {
            return Ok(None);
        }
    }
    if bh1.miner_address != bh2.miner_address || bh2.epoch < bh1.epoch {
        return Ok(None);
    }
    if bh1.epoch == bh2.epoch {
        return Ok(Some(ConsensusFaultType::DoubleForkMining));
    }
    if keys_equal(&bh1.parents, &bh2.parents) {
        return Ok(Some(ConsensusFaultType::TimeOffsetMining));
    }
    match witness {
        Some(w) => {
            if keys_equal(&bh1.parents, &w.parents) && bh1.epoch == w.epoch && key_contains(&bh2.parents, w.cid)
                && !key_contains(&bh2.parents, bh1.cid) {
                Ok(Some(ConsensusFaultType::ParentGrinding))
            } else {
                Ok(None)
            }
        },
        None => Ok(None),
    }
}

/// The gas that a signature check reports, zero for a rejected one.
pub open spec fn check_gas(c: SignatureCheck) -> int {
    match c {
        SignatureCheck::Verified { gas_used } => gas_used as int,
        SignatureCheck::Rejected => 0,
    }
}

/// The verdict once the fault is classified and both signatures checked in
/// order: a rejected signature means no fault, with the gas spent before it;
/// two verified ones give the fault against the first header's miner at the
/// second header's epoch, with the gas of both.
pub open spec fn verdict(
    fault_type: ConsensusFaultType,
    bh1: BlockHeader,
    bh2: BlockHeader,
    check1: SignatureCheck,
    check2: SignatureCheck,
) -> (Option<ConsensusFault>, int) {
    match (check1, check2) {
        (SignatureCheck::Rejected, _) => (None, 0),
        (SignatureCheck::Verified { gas_used }, SignatureCheck::Rejected) => (None, gas_used as int),
        (SignatureCheck::Verified { gas_used: g1 }, SignatureCheck::Verified { gas_used: g2 }) => (
            Some(ConsensusFault { target: bh1.miner_address, epoch: bh2.epoch, fault_type }),
            g1 + g2,
        ),
    }
}

/// The expensive part of fault verification: the verdict from the outcomes
/// of the two signature checks.
pub fn conclude_consensus_fault(
    fault_type: ConsensusFaultType,
    bh1: &BlockHeader,
    bh2: &BlockHeader,
    check1: SignatureCheck,
    check2: SignatureCheck,
) -> (r: (Option<ConsensusFault>, i64))
    requires
        check_gas(check1) >= 0,
        check_gas(check2) >= 0,
        check_gas(check1) + check_gas(check2) <= i64::MAX,
    ensures
        (r.0, r.1 as int) == verdict(fault_type, *bh1, *bh2, check1, check2),
{
    let mut total_gas: i64 = 0;
    match check1 {
        SignatureCheck::Verified { gas_used } => {
            total_gas = total_gas + gas_used;
        },
        SignatureCheck::Rejected => return (None, total_gas),
    }
    match check2 {
        SignatureCheck::Verified { gas_used } => {
            total_gas = total_gas + gas_used;
        },
        SignatureCheck::Rejected => return (None, total_gas),
    }
    (Some(ConsensusFault { target: bh1.miner_address, epoch: bh2.epoch, fault_type }), total_gas)
}

/// The whole verification: classification, then, if a fault was found, the
/// verdict from the signature checks (which are not read otherwise).
pub open spec fn fault_verification(
    h1: Seq<u8>,
    h2: Seq<u8>,
    bh1: BlockHeader,
    bh2: BlockHeader,
    witness: Option<BlockHeader>,
    cfg: FaultConfig,
    check1: SignatureCheck,
    check2: SignatureCheck,
) -> Result<(Option<ConsensusFault>, int), FaultError> {
    match classification(h1, h2, bh1, bh2, witness, cfg) {
        Err(e) => Err(e),
        Ok(None) => Ok((None, 0)),
        Ok(Some(t)) => Ok(verdict(t, bh1, bh2, check1, check2)),
    }
}

/// Verifies a consensus fault from the raw and decoded headers, the decoded
/// witness if one was submitted, and the outcomes of checking both headers'
/// signatures.
pub fn verify_consensus_fault(
    h1: &[u8],
    h2: &[u8],
    bh1: &BlockHeader,
    bh2: &BlockHeader,
    witness: Option<&BlockHeader>,
    cfg: &FaultConfig,
    check1: SignatureCheck,
    check2: SignatureCheck,
) -> (r: Result<(Option<ConsensusFault>, i64), FaultError>)
    requires
        check_gas(check1) >= 0,
        check_gas(check2) >= 0,
        check_gas(check1) + check_gas(check2) <= i64::MAX,
    ensures
        match (r, fault_verification(h1@, h2@, *bh1, *bh2, match witness {
            Some(w) => Some(*w),
            None => None,
        }, *cfg, check1, check2)) {
            (Ok(v), Ok(w)) => v.0 == w.0 && v.1 as int == w.1,
            (Err(e), Err(f)) => e == f,
            _ => false,
        },
{
    match classify_consensus_fault(h1, h2, bh1, bh2, witness, cfg) {
        Err(e) => Err(e),
        Ok(None) => Ok((None, 0)),
        Ok(Some(t)) => Ok(conclude_consensus_fault(t, bh1, bh2, check1, check2)),
    }
}

/// Neither header falls in the relaxation window of the network.
pub open spec fn outside_relaxation(cfg: FaultConfig, bh1: BlockHeader, bh2: BlockHeader) -> bool {
    cfg.relaxed_network ==> cfg.relaxed_upgrade_height is Some
        && !near_upgrade(bh1.epoch, cfg.relaxed_upgrade_height->Some_0, cfg.chain_finality)
        && !near_upgrade(bh2.epoch, cfg.relaxed_upgrade_height->Some_0, cfg.chain_finality)
}

/// Identical headers never fault: submitting the same bytes twice, without
/// a witness, gives no fault and costs no gas.
pub proof fn lemma_identical_headers(
    h: Seq<u8>,
    bh: BlockHeader,
    cfg: FaultConfig,
    check1: SignatureCheck,
    check2: SignatureCheck,
)
    ensures
        fault_verification(h, h, bh, bh, None, cfg, check1, check2) == Ok::<(Option<ConsensusFault>, int), FaultError>(
            (None, 0),
        ),
{
}

/// Two distinct headers of one miner at one epoch, both correctly signed,
/// show double-fork mining against that miner, at a positive gas cost.
pub proof fn lemma_double_fork(
    h1: Seq<u8>,
    h2: Seq<u8>,
    bh1: BlockHeader,
    bh2: BlockHeader,
    witness: Option<BlockHeader>,
    cfg: FaultConfig,
    g1: i64,
    g2: i64,
)
    requires
        h1 != h2,
        bh1.cid != bh2.cid,
        bh1.miner_address == bh2.miner_address,
        bh1.epoch == bh2.epoch,
        outside_relaxation(cfg, bh1, bh2),
        g1 > 0,
        g2 > 0,
    ensures
        fault_verification(h1, h2, bh1, bh2, witness, cfg, SignatureCheck::Verified { gas_used: g1 }, SignatureCheck::Verified { gas_used: g2 })
            == Ok::<(Option<ConsensusFault>, int), FaultError>((
            Some(ConsensusFault { target: bh1.miner_address, epoch: bh2.epoch, fault_type: ConsensusFaultType::DoubleForkMining }),
            g1 + g2,
        )),
        g1 + g2 > 0,
{
}

/// Two distinct headers of one miner with the same parents at different
/// epochs, the first earlier, show time-offset mining; once both signatures
/// verify, the fault stands against that miner at the second epoch.
pub proof fn lemma_time_offset(
    h1: Seq<u8>,
    h2: Seq<u8>,
    bh1: BlockHeader,
    bh2: BlockHeader,
    witness: Option<BlockHeader>,
    cfg: FaultConfig,
    g1: i64,
    g2: i64,
)
    requires
        h1 != h2,
        bh1.cid != bh2.cid,
        bh1.miner_address == bh2.miner_address,
        bh1.parents@ == bh2.parents@,
        bh1.epoch < bh2.epoch,
        outside_relaxation(cfg, bh1, bh2),
    ensures
        classification(h1, h2, bh1, bh2, witness, cfg) == Ok::<Option<ConsensusFaultType>, FaultError>(
            Some(ConsensusFaultType::TimeOffsetMining),
        ),
        fault_verification(h1, h2, bh1, bh2, witness, cfg, SignatureCheck::Verified { gas_used: g1 }, SignatureCheck::Verified { gas_used: g2 })
            == Ok::<(Option<ConsensusFault>, int), FaultError>((
            Some(ConsensusFault { target: bh1.miner_address, epoch: bh2.epoch, fault_type: ConsensusFaultType::TimeOffsetMining }),
            g1 + g2,
        )),
{
}

/// A parent-grinding triple shows parent grinding: the witness shares the
/// first header's parents and epoch, the second header's parents include
/// the witness and leave out the first header. If the second header's
/// parents include the first header, there is no fault.
pub proof fn lemma_parent_grinding(
    h1: Seq<u8>,
    h2: Seq<u8>,
    bh1: BlockHeader,
    bh2: BlockHeader,
    w: BlockHeader,
    cfg: FaultConfig,
    check1: SignatureCheck,
    check2: SignatureCheck,
)
    requires
        h1 != h2,
        bh1.cid != bh2.cid,
        bh1.miner_address == bh2.miner_address,
        bh1.epoch < bh2.epoch,
        bh1.parents@ != bh2.parents@,
        outside_relaxation(cfg, bh1, bh2),
        w.parents@ == bh1.parents@,
        w.epoch == bh1.epoch,
        bh2.parents@.contains(w.cid),
    ensures
        !bh2.parents@.contains(bh1.cid) ==> classification(h1, h2, bh1, bh2, Some(w), cfg)
            == Ok::<Option<ConsensusFaultType>, FaultError>(Some(ConsensusFaultType::ParentGrinding)),
        !bh2.parents@.contains(bh1.cid) ==> fault_verification(h1, h2, bh1, bh2, Some(w), cfg, check1, check2)
            == Ok::<(Option<ConsensusFault>, int), FaultError>(
            verdict(ConsensusFaultType::ParentGrinding, bh1, bh2, check1, check2),
        ),
        !bh2.parents@.contains(bh1.cid) && check1 is Verified && check2 is Verified && check_gas(check1) > 0
            && check_gas(check2) > 0 ==> fault_verification(h1, h2, bh1, bh2, Some(w), cfg, check1, check2)
            == Ok::<(Option<ConsensusFault>, int), FaultError>((
            Some(ConsensusFault { target: bh1.miner_address, epoch: bh2.epoch, fault_type: ConsensusFaultType::ParentGrinding }),
            check_gas(check1) + check_gas(check2),
        )) && check_gas(check1) + check_gas(check2) > 0,
        bh2.parents@.contains(bh1.cid) ==> fault_verification(h1, h2, bh1, bh2, Some(w), cfg, check1, check2)
            == Ok::<(Option<ConsensusFault>, int), FaultError>((None, 0)),
{
}

/// Perturbing any one condition of a parent-grinding triple removes the
/// fault: headers at different epochs with different parents show no fault
/// unless the witness shares the first header's parents and epoch and the
/// second header's parents include the witness and not the first header.
pub proof fn lemma_grinding_conditions(
    h1: Seq<u8>,
    h2: Seq<u8>,
    bh1: BlockHeader,
    bh2: BlockHeader,
    w: BlockHeader,
    cfg: FaultConfig,
    check1: SignatureCheck,
    check2: SignatureCheck,
)
    requires
        bh1.epoch != bh2.epoch,
        bh1.parents@ != bh2.parents@,
        !(w.parents@ == bh1.parents@ && w.epoch == bh1.epoch && bh2.parents@.contains(w.cid)
            && !bh2.parents@.contains(bh1.cid)),
    ensures
        fault_verification(h1, h2, bh1, bh2, Some(w), cfg, check1, check2) matches Ok(v) ==> v.0 is None,
{
}

/// Read and write counters of a store, gathered while the worker key was
/// looked up.
#[derive(Debug, Clone, Copy, PartialEq, Eq, Structural)]
pub struct BlockstoreStats {
    /// Blocks read.
    pub r: usize,
    /// Blocks written.
    pub w: usize,
    /// Bytes read.
    pub br: usize,
    /// Bytes written.
    pub bw: usize,
}

/// The store charges of a network version's price list, in milligas.
#[derive(Debug, Clone, Copy, PartialEq, Eq, Structural)]
pub struct PriceList {
    /// Charge for opening a block.
    pub block_open_base: u64,
    /// Fixed charge for linking a block.
    pub block_link_base: u64,
    /// Charge per byte of a linked block.
    pub block_link_per_byte: u64,
}

/// Errors of gas accounting.
#[derive(Debug, Clone, Copy, PartialEq, Eq, Structural)]
pub enum GasError {
    /// The charges exceed the gas limit.
    OutOfGas,
}

/// The charge for linking a block of `size` bytes.
pub open spec fn link_charge(pl: PriceList, size: int) -> int {
    pl.block_link_base + pl.block_link_per_byte * size
}

/// The charges for a store's activity: one block open per read; for the
/// writes, one link sized by all bytes written, then a link of size zero for
/// each further write.
pub open spec fn stats_charge(st: BlockstoreStats, pl: PriceList) -> int {
    st.r * pl.block_open_base + if st.w > 0 {
        link_charge(pl, st.bw as int) + (st.w - 1) * link_charge(pl, 0)
    } else {
        0
    }
}

/// Adds a charge to the gas used so far, within the limit.
fn apply_charge(used: u64, charge: u64) -> (r: Result<u64, GasError>)
    ensures
        used + charge <= u64::MAX ==> r == Ok::<u64, GasError>((used + charge) as u64),
        used + charge > u64::MAX ==> r == Err::<u64, GasError>(GasError::OutOfGas),
{
    match used.checked_add(charge) {
        Some(v) => Ok(v),
        None => Err(GasError::OutOfGas),
    }
}

/// The charge for linking a block of `size` bytes, within the limit.
fn block_link(pl: &PriceList, size: usize) -> (r: Result<u64, GasError>)
    ensures
        link_charge(*pl, size as int) <= u64::MAX ==> r == Ok::<u64, GasError>(link_charge(*pl, size as int) as u64),
        link_charge(*pl, size as int) > u64::MAX ==> r == Err::<u64, GasError>(GasError::OutOfGas),
{
    match pl.block_link_per_byte.checked_mul(size as u64) {
        Some(per) => match per.checked_add(pl.block_link_base) {
            Some(total) => Ok(total),
            None => Err(GasError::OutOfGas),
        },
        None => Err(GasError::OutOfGas),
    }
}

/// The milligas that a store's activity costs under a price list; more than
/// the limit of `u64::MAX` milligas is out of gas.
pub fn cal_gas_used_from_stats(stats: &BlockstoreStats, pl: &PriceList) -> (r: Result<u64, GasError>)
    ensures
        stats_charge(*stats, *pl) <= u64::MAX ==> r == Ok::<u64, GasError>(stats_charge(*stats, *pl) as u64),
        stats_charge(*stats, *pl) > u64::MAX ==> r == Err::<u64, GasError>(GasError::OutOfGas),
{
    let base = pl.block_open_base;
    let ghost writes = if stats.w > 0 {
        link_charge(*pl, stats.bw as int) + (stats.w - 1) * link_charge(*pl, 0)
    } else {
        0
    };
    assert(writes >= 0) by (nonlinear_arith)
        requires
            writes == (if stats.w > 0 {
                link_charge(*pl, stats.bw as int) + (stats.w - 1) * link_charge(*pl, 0)
            } else {
                0
            }),
            pl.block_link_base >= 0,
            pl.block_link_per_byte >= 0,
    ;
    let mut used: u64 = 0;
    let mut i: usize = 0;
    while i < stats.r
        invariant
            0 <= i <= stats.r,
            used == i * base,
            base == pl.block_open_base,
        decreases stats.r - i,
    {
        assert((i + 1) * base == i * base + base) by (nonlinear_arith);
        used = match apply_charge(used, base) {
            Ok(v) => v,
            Err(e) => {
                assert((i + 1) * base <= stats.r * base) by (nonlinear_arith)
                    requires
                        i + 1 <= stats.r,
                        base >= 0,
                ;
                return Err(e);
            },
        };
        i = i + 1;
    }
    if stats.w > 0 {
        let first = match block_link(pl, stats.bw) {
            Ok(c) => c,
            Err(e) => {
                assert((stats.w - 1) * link_charge(*pl, 0) >= 0) by (nonlinear_arith)
                    requires
                        stats.w >= 1,
                        link_charge(*pl, 0) >= 0,
                ;
                return Err(e);
            },
        };
        used = match apply_charge(used, first) {
            Ok(v) => v,
            Err(e) => {
                assert((stats.w - 1) * link_charge(*pl, 0) >= 0) by (nonlinear_arith)
                    requires
                        stats.w >= 1,
                        link_charge(*pl, 0) >= 0,
                ;
                return Err(e);
            },
        };
        let zero = pl.block_link_base;
        assert(link_charge(*pl, 0) == zero);
        let mut j: usize = 1;
        while j < stats.w
            invariant
                1 <= j <= stats.w,
                used == stats.r * base + link_charge(*pl, stats.bw as int) + (j - 1) * zero,
                zero == link_charge(*pl, 0),
                base == pl.block_open_base,
                zero >= 0,
            decreases stats.w - j,
        {
            assert(j * zero == (j - 1) * zero + zero) by (nonlinear_arith);
            used = match apply_charge(used, zero) {
                Ok(v) => v,
                Err(e) => {
                    assert(j * zero <= (stats.w - 1) * zero) by (nonlinear_arith)
                        requires
                            j + 1 <= stats.w,
                            zero >= 0,
                    ;
                    return Err(e);
                },
            };
            j = j + 1;
        }
    }
    Ok(used)
}

/// Whole gas for an amount of milligas, rounded up.
pub open spec fn round_up(milligas: int) -> int {
    (milligas + MILLIGAS_PER_GAS - 1) / (MILLIGAS_PER_GAS as int)
}

/// The gas, rounded up to whole units, that a worker-key lookback's store
/// activity costs.
pub fn lookback_gas(stats: &BlockstoreStats, pl: &PriceList) -> (r: Result<i64, GasError>)
    ensures
        stats_charge(*stats, *pl) <= u64::MAX ==> r == Ok::<i64, GasError>(round_up(stats_charge(*stats, *pl)) as i64)
            && r->Ok_0 == round_up(stats_charge(*stats, *pl)),
        stats_charge(*stats, *pl) > u64::MAX ==> r == Err::<i64, GasError>(GasError::OutOfGas),
{
    match cal_gas_used_from_stats(stats, pl) {
        Ok(milli) => {
            let whole = milli / MILLIGAS_PER_GAS;
            let extra: u64 = if milli % MILLIGAS_PER_GAS == 0 { 0 } else { 1 };
            assert(whole + extra == round_up(milli as int));
            Ok((whole + extra) as i64)
        },
        Err(e) => Err(e),
    }
}

/// Whether a worker key may be looked up at `height` from `current_epoch`:
/// evidence older than the finality window is inadmissible.
pub fn lookback_admissible(height: i64, current_epoch: i64, chain_finality: i64) -> (r: bool)
    ensures
        r == (height >= current_epoch - chain_finality),
{
    height as i128 >= current_epoch as i128 - chain_finality as i128
}

} // verus!

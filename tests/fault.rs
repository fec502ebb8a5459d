use chain_core::fault::{
    cal_gas_used_from_stats, classify_consensus_fault, conclude_consensus_fault, lookback_admissible,
    lookback_gas, verify_consensus_fault, BlockHeader, BlockstoreStats, ConsensusFault,
    ConsensusFaultType, FaultConfig, FaultError, GasError, PriceList, SignatureCheck,
};
use chain_core::index::TipsetKey;

fn header(cid: u64, miner: u64, epoch: i64, parents: &[u64]) -> BlockHeader {
    BlockHeader {
        cid,
        miner_address: miner,
        epoch,
        parents: TipsetKey { cids: parents.to_vec() },
        timestamp: cid,
    }
}

fn plain() -> FaultConfig {
    FaultConfig { relaxed_network: false, relaxed_upgrade_height: None, chain_finality: 900 }
}

const OK1: SignatureCheck = SignatureCheck::Verified { gas_used: 7 };
const OK2: SignatureCheck = SignatureCheck::Verified { gas_used: 5 };

#[test]
fn identical_headers_never_fault() {
    let h = header(1, 7, 10, &[100]);
    let r = verify_consensus_fault(b"abc", b"abc", &h, &h, None, &plain(), OK1, OK2);
    assert_eq!(r, Ok((None, 0)));
    // same identifier, different bytes
    let r = verify_consensus_fault(b"abc", b"abd", &h, &h, None, &plain(), OK1, OK2);
    assert_eq!(r, Ok((None, 0)));
}

#[test]
fn double_fork_mining() {
    let a = header(1, 7, 10, &[100]);
    let b = header(2, 7, 10, &[101]);
    let r = verify_consensus_fault(b"a", b"b", &a, &b, None, &plain(), OK1, OK2).unwrap();
    assert_eq!(
        r,
        (
            Some(ConsensusFault { target: 7, epoch: 10, fault_type: ConsensusFaultType::DoubleForkMining }),
            12
        )
    );
    assert!(r.1 > 0);
}

#[test]
fn time_offset_mining() {
    let a = header(1, 7, 10, &[100, 101]);
    let b = header(2, 7, 12, &[100, 101]);
    assert_eq!(
        classify_consensus_fault(b"a", b"b", &a, &b, None, &plain()),
        Ok(Some(ConsensusFaultType::TimeOffsetMining))
    );
    let r = verify_consensus_fault(b"a", b"b", &a, &b, None, &plain(), OK1, OK2).unwrap();
    assert_eq!(r.0.unwrap().fault_type, ConsensusFaultType::TimeOffsetMining);
    assert_eq!(r.0.unwrap().epoch, 12);
}

#[test]
fn parent_grinding() {
    let a = header(1, 7, 10, &[100]);
    let w = header(3, 8, 10, &[100]);
    let b = header(2, 7, 11, &[3, 4]);
    let r = verify_consensus_fault(b"a", b"b", &a, &b, Some(&w), &plain(), OK1, OK2).unwrap();
    assert_eq!(r.0.unwrap().fault_type, ConsensusFaultType::ParentGrinding);
    // second header includes the first
    let b2 = header(2, 7, 11, &[1, 3]);
    let r = verify_consensus_fault(b"a", b"b", &a, &b2, Some(&w), &plain(), OK1, OK2).unwrap();
    assert_eq!(r, (None, 0));
    // witness not a parent of the second header
    let b3 = header(2, 7, 11, &[4]);
    assert_eq!(classify_consensus_fault(b"a", b"b", &a, &b3, Some(&w), &plain()), Ok(None));
    // witness at another epoch
    let w2 = header(3, 8, 9, &[100]);
    assert_eq!(classify_consensus_fault(b"a", b"b", &a, &b, Some(&w2), &plain()), Ok(None));
    // witness with other parents
    let w3 = header(3, 8, 10, &[200]);
    assert_eq!(classify_consensus_fault(b"a", b"b", &a, &b, Some(&w3), &plain()), Ok(None));
    // no witness
    assert_eq!(classify_consensus_fault(b"a", b"b", &a, &b, None, &plain()), Ok(None));
}

#[test]
fn cheap_rejects() {
    let a = header(1, 7, 10, &[100]);
    let other_miner = header(2, 8, 10, &[100]);
    assert_eq!(classify_consensus_fault(b"a", b"b", &a, &other_miner, None, &plain()), Ok(None));
    let earlier = header(2, 7, 9, &[100]);
    assert_eq!(classify_consensus_fault(b"a", b"b", &a, &earlier, None, &plain()), Ok(None));
}

#[test]
fn relaxed_network_window() {
    let cfg = FaultConfig { relaxed_network: true, relaxed_upgrade_height: Some(1000), chain_finality: 900 };
    let a = header(1, 7, 101, &[100]);
    let b = header(2, 7, 101, &[101]);
    assert_eq!(classify_consensus_fault(b"a", b"b", &a, &b, None, &cfg), Ok(None));
    let a = header(1, 7, 100, &[100]);
    let b = header(2, 7, 100, &[101]);
    assert_eq!(
        classify_consensus_fault(b"a", b"b", &a, &b, None, &cfg),
        Ok(Some(ConsensusFaultType::DoubleForkMining))
    );
    let missing = FaultConfig { relaxed_network: true, relaxed_upgrade_height: None, chain_finality: 900 };
    assert_eq!(
        classify_consensus_fault(b"a", b"b", &a, &b, None, &missing),
        Err(FaultError::MissingUpgradeHeight)
    );
}

#[test]
fn rejected_signature_downgrades() {
    let a = header(1, 7, 10, &[100]);
    let b = header(2, 7, 10, &[101]);
    let t = ConsensusFaultType::DoubleForkMining;
    assert_eq!(conclude_consensus_fault(t, &a, &b, SignatureCheck::Rejected, OK2), (None, 0));
    assert_eq!(conclude_consensus_fault(t, &a, &b, OK1, SignatureCheck::Rejected), (None, 7));
}

#[test]
fn stale_lookback_is_inadmissible() {
    assert!(lookback_admissible(100, 1000, 900));
    assert!(!lookback_admissible(99, 1000, 900));
    assert!(lookback_admissible(i64::MIN, i64::MIN, 0));
}

fn price_list() -> PriceList {
    PriceList { block_open_base: 114617, block_link_base: 353640, block_link_per_byte: 1300 }
}

fn test_cal_gas_used_from_stats_inner(read_count: usize, write_bytes: &[usize]) {
    let pl = price_list();
    let stats = BlockstoreStats {
        r: read_count,
        w: write_bytes.len(),
        br: 0,
        bw: write_bytes.iter().sum(),
    };
    let result = cal_gas_used_from_stats(&stats, &pl).unwrap();

    // One charge per block, as a store that charged each operation would
    let mut expected: u64 = 0;
    for _ in 0..read_count {
        expected += pl.block_open_base;
    }
    for &bytes in write_bytes {
        expected += pl.block_link_base + pl.block_link_per_byte * bytes as u64;
    }
    assert_eq!(result, expected);
}

#[test]
fn test_cal_gas_used_from_stats_1_read() {
    test_cal_gas_used_from_stats_inner(1, &[])
}

#[test]
fn test_cal_gas_used_from_stats_1_write() {
    test_cal_gas_used_from_stats_inner(0, &[100])
}

#[test]
fn test_cal_gas_used_from_stats_multi_read() {
    test_cal_gas_used_from_stats_inner(10, &[])
}

#[test]
fn test_cal_gas_used_from_stats_multi_write() {
    test_cal_gas_used_from_stats_inner(0, &[100, 101, 102, 103, 104, 105, 106, 107, 108, 109])
}

#[test]
fn test_cal_gas_used_from_stats_1_read_1_write() {
    test_cal_gas_used_from_stats_inner(1, &[100])
}

#[test]
fn test_cal_gas_used_from_stats_multi_read_multi_write() {
    test_cal_gas_used_from_stats_inner(10, &[100, 101, 102, 103, 104, 105, 106, 107, 108, 109])
}

#[test]
fn gas_exact_values_and_rounding() {
    let pl = PriceList { block_open_base: 1500, block_link_base: 10, block_link_per_byte: 2 };
    let stats = BlockstoreStats { r: 2, w: 3, br: 0, bw: 100 };
    // 2 * 1500 + (10 + 200) + 2 * 10
    assert_eq!(cal_gas_used_from_stats(&stats, &pl), Ok(3230));
    assert_eq!(lookback_gas(&stats, &pl), Ok(4));
    let none = BlockstoreStats { r: 0, w: 0, br: 0, bw: 0 };
    assert_eq!(lookback_gas(&none, &pl), Ok(0));
    let exact = BlockstoreStats { r: 2, w: 0, br: 0, bw: 0 };
    let pl2 = PriceList { block_open_base: 1000, block_link_base: 0, block_link_per_byte: 0 };
    assert_eq!(lookback_gas(&exact, &pl2), Ok(2));
}

#[test]
fn gas_out_of_gas() {
    let pl = PriceList { block_open_base: u64::MAX / 2 + 1, block_link_base: 0, block_link_per_byte: 0 };
    let stats = BlockstoreStats { r: 2, w: 0, br: 0, bw: 0 };
    assert_eq!(cal_gas_used_from_stats(&stats, &pl), Err(GasError::OutOfGas));
    let pl = PriceList { block_open_base: 0, block_link_base: 1, block_link_per_byte: u64::MAX };
    let stats = BlockstoreStats { r: 0, w: 1, br: 0, bw: 2 };
    assert_eq!(lookback_gas(&stats, &pl), Err(GasError::OutOfGas));
}

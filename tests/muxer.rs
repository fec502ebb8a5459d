use std::sync::Arc;

use chain_core::index::{Tipset, TipsetKey};
use chain_core::muxer::{greets, hello_score, HelloOutcome, PeerScore};
use chain_core::muxer::{gossip_action, peer_action, GossipAction, NetworkEvent, PeerAction};
use chain_core::muxer::{
    caught_up, evaluate_head, expected_epoch, heaviest, is_admissible, should_forward,
    ChainMuxer, ChainMuxerError, ChainMuxerState, HeadSampler, MuxerAction, MuxerEvent,
    NetworkHeadEvaluation, SyncConfig, SyncStage, DEFAULT_RECENT_STATE_ROOTS,
    DEFAULT_REQUEST_WINDOW, DEFAULT_TIPSET_SAMPLE_SIZE,
};

fn ts(id: u64, epoch: i64, weight: u64, timestamps: Vec<u64>) -> Arc<Tipset> {
    Arc::new(Tipset {
        key: TipsetKey { cids: vec![id] },
        parents: TipsetKey { cids: vec![id + 1000] },
        epoch,
        weight,
        timestamps,
        beacon_entries: vec![],
    })
}

fn config(sample: usize) -> SyncConfig {
    SyncConfig { tipset_sample_size: sample, ..SyncConfig::default() }
}

#[test]
fn default_config() {
    let c = SyncConfig::default();
    assert_eq!(c.request_window, DEFAULT_REQUEST_WINDOW);
    assert_eq!(c.recent_state_roots, DEFAULT_RECENT_STATE_ROOTS);
    assert_eq!(c.tipset_sample_size, DEFAULT_TIPSET_SAMPLE_SIZE);
    assert_eq!((c.request_window, c.recent_state_roots, c.tipset_sample_size), (8, 2000, 1));
}

#[test]
fn zero_sample_follows_without_connecting() {
    let mut m = ChainMuxer::new(config(0), false);
    let a = m.step(MuxerEvent::Pending);
    assert!(matches!(a, MuxerAction::StartFollow { head: None }));
    assert_eq!(m.state(), ChainMuxerState::Follow);
    // the follow pair ends, the muxer restarts and follows again
    let a = m.step(MuxerEvent::FollowFinished(Err(ChainMuxerError::TipsetChannelSend(
        "closed".to_string(),
    ))));
    assert!(matches!(a, MuxerAction::Continue));
    assert_eq!(m.state(), ChainMuxerState::Idle);
    let a = m.step(MuxerEvent::Pending);
    assert!(matches!(a, MuxerAction::StartFollow { head: None }));
    assert_ne!(m.state(), ChainMuxerState::Connect);
}

#[test]
fn in_range_follows_with_head() {
    let mut m = ChainMuxer::new(config(3), false);
    assert!(matches!(m.step(MuxerEvent::Pending), MuxerAction::StartEvaluation));
    assert_eq!(m.state(), ChainMuxerState::Connect);
    let head = ts(1, 11, 50, vec![]);
    let a = m.step(MuxerEvent::Evaluated(Ok(NetworkHeadEvaluation::InRange {
        network_head: head.clone(),
    })));
    match a {
        MuxerAction::StartFollow { head: Some(h) } => assert_eq!(h, head),
        _ => panic!("expected follow with head"),
    }
    assert_eq!(m.state(), ChainMuxerState::Follow);
}

#[test]
fn behind_bootstraps_then_reevaluates() {
    let mut m = ChainMuxer::new(config(1), false);
    m.step(MuxerEvent::Pending);
    let nh = ts(1, 100, 500, vec![]);
    let lh = ts(2, 10, 50, vec![]);
    let a = m.step(MuxerEvent::Evaluated(Ok(NetworkHeadEvaluation::Behind {
        network_head: nh.clone(),
        local_head: lh.clone(),
    })));
    match a {
        MuxerAction::StartBootstrap { network_head, local_head } => {
            assert_eq!(network_head, nh);
            assert_eq!(local_head, lh);
        }
        _ => panic!("expected bootstrap"),
    }
    assert_eq!(m.state(), ChainMuxerState::Bootstrap);
    assert!(matches!(m.step(MuxerEvent::Pending), MuxerAction::Wait));
    assert!(matches!(m.step(MuxerEvent::BootstrapFinished(Ok(()))), MuxerAction::Continue));
    assert_eq!(m.state(), ChainMuxerState::Idle);
    assert!(matches!(m.step(MuxerEvent::Pending), MuxerAction::StartEvaluation));
}

#[test]
fn in_sync_follows_without_head() {
    let mut m = ChainMuxer::new(config(1), false);
    m.step(MuxerEvent::Pending);
    let a = m.step(MuxerEvent::Evaluated(Ok(NetworkHeadEvaluation::InSync)));
    assert!(matches!(a, MuxerAction::StartFollow { head: None }));
    assert_eq!(m.sync_state(), SyncStage::Idle);
    assert!(matches!(m.step(MuxerEvent::Pending), MuxerAction::Wait));
    assert_eq!(m.sync_state(), SyncStage::Complete);
    m.set_stage(SyncStage::Following);
    assert_eq!(m.sync_state(), SyncStage::Following);
    assert_eq!(m.state(), ChainMuxerState::Follow);
    assert_eq!(m.config().tipset_sample_size, 1);
}

#[test]
fn evaluation_error_stops() {
    let mut m = ChainMuxer::new(config(1), false);
    m.step(MuxerEvent::Pending);
    let err = ChainMuxerError::P2PEventStreamReceive("closed".to_string());
    match m.step(MuxerEvent::Evaluated(Err(err.clone()))) {
        MuxerAction::Stop(e) => assert_eq!(e, err),
        _ => panic!("expected stop"),
    }
    assert_eq!(m.state(), ChainMuxerState::Idle);
}

#[test]
fn stateless_mode() {
    let mut m = ChainMuxer::new(config(0), true);
    assert!(matches!(m.step(MuxerEvent::Pending), MuxerAction::StartStateless));
    assert_eq!(m.state(), ChainMuxerState::Stateless);
    assert!(matches!(m.step(MuxerEvent::Pending), MuxerAction::Wait));
    let err = ChainMuxerError::P2PEventStreamReceive("gone".to_string());
    assert!(matches!(m.step(MuxerEvent::StatelessFailed(err)), MuxerAction::Stop(_)));
}

#[test]
fn heaviest_takes_last_of_equals() {
    let sample = vec![ts(1, 5, 10, vec![]), ts(2, 6, 30, vec![]), ts(3, 7, 30, vec![]), ts(4, 8, 20, vec![])];
    assert_eq!(heaviest(&sample), sample[2]);
    assert_eq!(heaviest(&vec![sample[0].clone()]), sample[0]);
}

#[test]
fn head_evaluation() {
    let local = ts(9, 10, 100, vec![]);
    assert!(matches!(
        evaluate_head(local.clone(), &vec![ts(1, 12, 100, vec![])]),
        NetworkHeadEvaluation::InSync
    ));
    match evaluate_head(local.clone(), &vec![ts(1, 9, 90, vec![]), ts(2, 11, 101, vec![])]) {
        NetworkHeadEvaluation::InRange { network_head } => assert_eq!(network_head.epoch, 11),
        _ => panic!("expected in range"),
    }
    match evaluate_head(local.clone(), &vec![ts(2, 15, 101, vec![])]) {
        NetworkHeadEvaluation::Behind { network_head, local_head } => {
            assert_eq!(network_head.epoch, 15);
            assert_eq!(local_head, local);
        }
        _ => panic!("expected behind"),
    }
}

#[test]
fn expected_epoch_from_clock() {
    assert_eq!(expected_epoch(1000, 100, 30), 30);
    assert_eq!(expected_epoch(100, 1000, 30), 0);
    assert_eq!(expected_epoch(129, 100, 30), 0);
    assert!(caught_up(30, 30));
    assert!(!caught_up(29, 30));
    assert!(!caught_up(-1, 0));
}

#[test]
fn admission_and_forwarding() {
    assert!(is_admissible(&ts(1, 5, 1, vec![100, 101]), 100, 5));
    assert!(!is_admissible(&ts(1, 5, 1, vec![100, 102]), 100, 5));
    assert!(!is_admissible(&ts(1, 6, 1, vec![100]), 100, 5));
    assert!(is_admissible(&ts(1, 0, 1, vec![]), 0, 0));
    assert!(should_forward(&ts(1, 5, 11, vec![]), 10));
    assert!(!should_forward(&ts(1, 5, 10, vec![]), 10));
    assert!(!should_forward(&ts(1, 5, 9, vec![]), 10));
}

#[test]
fn sampler_collects_until_full() {
    let mut s = HeadSampler::new(2);
    assert!(!s.is_complete());
    assert!(!s.offer(ts(1, 50, 10, vec![]), 100, 5));
    assert!(s.offer(ts(2, 4, 10, vec![90]), 100, 5));
    assert!(s.offer(ts(3, 5, 20, vec![100]), 100, 5));
    assert!(s.is_complete());
    assert!(!s.offer(ts(4, 5, 99, vec![]), 100, 5));
    assert_eq!(s.sample().len(), 2);
    match s.conclude(ts(9, 4, 15, vec![])) {
        NetworkHeadEvaluation::InRange { network_head } => assert_eq!(network_head.weight, 20),
        _ => panic!("expected in range"),
    }
    let mut t = HeadSampler::new(1);
    // a tipset from far in the future is never admitted at the current time
    assert!(!t.offer_now(ts(5, i64::MAX, 1, vec![]), 0, 30));
    assert!(t.offer_now(ts(6, 0, 1, vec![0]), 0, 30));
    assert!(t.is_complete());
}

#[test]
fn gossip_actions() {
    match gossip_action(NetworkEvent::PubsubBlock { header_cid: 42 }) {
        GossipAction::FetchTipset { peer, key } => {
            assert_eq!(peer, None);
            assert_eq!(key.cids, vec![42]);
        }
        _ => panic!("expected fetch"),
    }
    match gossip_action(NetworkEvent::HelloResponseOutbound {
        source: 5,
        heaviest_tip_set: TipsetKey { cids: vec![1, 2] },
    }) {
        GossipAction::FetchTipset { peer, key } => {
            assert_eq!(peer, Some(5));
            assert_eq!(key.cids, vec![1, 2]);
        }
        _ => panic!("expected fetch"),
    }
    assert!(matches!(
        gossip_action(NetworkEvent::PubsubMessage { message_cid: 9 }),
        GossipAction::AddToMessagePool(9)
    ));
    assert!(matches!(gossip_action(NetworkEvent::PeerConnected(3)), GossipAction::Ignore));
    assert!(matches!(gossip_action(NetworkEvent::HelloRequestInbound), GossipAction::Ignore));
    assert_eq!(peer_action(&NetworkEvent::PeerConnected(3)), PeerAction::Greet(3));
    assert_eq!(peer_action(&NetworkEvent::PeerDisconnected(4)), PeerAction::Forget(4));
    assert_eq!(peer_action(&NetworkEvent::ChainExchangeRequestInbound), PeerAction::Nothing);
}

#[test]
fn hello_scoring() {
    assert!(greets(true));
    assert!(!greets(false));
    assert_eq!(hello_score(4, HelloOutcome::RequestFailed), PeerScore::Unchanged);
    assert_eq!(
        hello_score(4, HelloOutcome::Answered { millis: 120 }),
        PeerScore::Success { peer: 4, millis: 120 }
    );
    assert_eq!(
        hello_score(5, HelloOutcome::Unanswered { millis: 900 }),
        PeerScore::Failure { peer: 5, millis: 900 }
    );
}

#[test]
fn offer_now_admits_timeless_candidates() {
    let mut s = HeadSampler::new(2);
    // epoch zero and no timestamps: admissible whatever the clock reads
    assert!(s.offer_now(ts(7, 0, 1, vec![]), 0, 30));
    assert!(s.offer_now(ts(8, -3, 1, vec![1]), 1_000, 30));
    assert!(s.is_complete());
    assert!(!s.offer_now(ts(9, 0, 1, vec![]), 0, 30));
}

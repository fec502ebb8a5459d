//! The sync orchestrator: its configuration, the evaluation of the network
//! head from a sample of gossiped tipsets, and the state machine that moves
//! between idling, connecting, bootstrapping, following and stateless mode.
//! The host runs the jobs that an action names and hands back what they
//! returned as an event.
use std::sync::Arc;
use vstd::prelude::*;
use crate::index::{ChainError, Tipset, TipsetKey};

verus! {

/// Tipsets requested per chain-exchange window.
pub const DEFAULT_REQUEST_WINDOW: usize = 8;

/// Gossiped tipsets sampled before the network head is decided.
pub const DEFAULT_TIPSET_SAMPLE_SIZE: usize = 1;

/// Recent state roots kept after a sync.
pub const DEFAULT_RECENT_STATE_ROOTS: i64 = 2000;

/// Capacity of the channel that forwards tipsets to the processor.
pub const TIPSET_CHANNEL_CAPACITY: usize = 20;

/// Seconds a block timestamp may lie in the future.
pub const ALLOWABLE_CLOCK_DRIFT: u64 = 1;

/// Syncing configuration.
#[derive(Debug, Clone, PartialEq, Eq)]
pub struct SyncConfig {
    /// Request window length for tipsets during chain exchange.
    pub request_window: usize,
    /// Number of recent state roots to keep after a sync.
    pub recent_state_roots: i64,
    /// Tipsets to sample before deciding the network head; zero skips the
    /// evaluation and follows at once.
    pub tipset_sample_size: usize,
}

impl Default for SyncConfig {
    fn default() -> (r: SyncConfig)
        ensures
            r.request_window == DEFAULT_REQUEST_WINDOW,
            r.recent_state_roots == DEFAULT_RECENT_STATE_ROOTS,
            r.tipset_sample_size == DEFAULT_TIPSET_SAMPLE_SIZE,
    {
        SyncConfig {
            request_window: DEFAULT_REQUEST_WINDOW,
            recent_state_roots: DEFAULT_RECENT_STATE_ROOTS,
            tipset_sample_size: DEFAULT_TIPSET_SAMPLE_SIZE,
        }
    }
}

/// Why a phase of the orchestrator failed.
#[derive(Debug, Clone, PartialEq, Eq)]
pub enum ChainMuxerError {
    TipsetProcessor(String),
    TipsetRangeSyncer(String),
    TipsetValidator(String),
    TipsetChannelSend(String),
    P2PEventStreamReceive(String),
    ChainStore(ChainError),
    ChainExchange(String),
    Block(String),
    NetworkFollowingFailure(String),
}

/// Where the local head stands against the network head.
pub enum NetworkHeadEvaluation {
    /// The local head is behind; a bulk range sync is needed.
    Behind { network_head: Arc<Tipset>, local_head: Arc<Tipset> },
    /// The network head is one epoch ahead and can be followed directly.
    InRange { network_head: Arc<Tipset> },
    /// The local head is as heavy as the network head.
    InSync,
}

/// The index of the heaviest tipset of a non-empty sample; among equally
/// heavy ones, the last.
pub open spec fn heaviest_index(s: Seq<Arc<Tipset>>) -> int
    decreases s.len(),
{
    if s.len() <= 1 {
        0
    } else {
        let j = heaviest_index(s.drop_last());
        if s.last().weight >= s[j].weight {
            s.len() - 1
        } else {
            j
        }
    }
}

/// The evaluation of a sampled network head against the local head.
pub open spec fn evaluation_of(local_head: Arc<Tipset>, network_head: Arc<Tipset>) -> NetworkHeadEvaluation {
    if local_head.weight >= network_head.weight {
        NetworkHeadEvaluation::InSync
    } else if network_head.epoch - local_head.epoch == 1 {
        NetworkHeadEvaluation::InRange { network_head }
    } else {
        NetworkHeadEvaluation::Behind { network_head, local_head }
    }
}

/// The heaviest tipset of a sample: among equally heavy ones, the last.
pub fn heaviest(sample: &Vec<Arc<Tipset>>) -> (r: Arc<Tipset>)
    requires
        sample@.len() > 0,
    ensures
        0 <= heaviest_index(sample@) < sample@.len(),
        r == sample@[heaviest_index(sample@)],
        forall|i: int| 0 <= i < sample@.len() ==> (#[trigger] sample@[i]).weight <= r.weight,
{
    let mut best: usize = 0;
    let mut i: usize = 1;
    assert(sample@.take(1).len() == 1);
    while i < sample.len()
        invariant
            1 <= i <= sample@.len(),
            best < i,
            best as int == heaviest_index(sample@.take(i as int)),
            forall|j: int| 0 <= j < i ==> (#[trigger] sample@[j]).weight <= sample@[best as int].weight,
        decreases sample@.len() - i,
    {
        assert(sample@.take(i as int + 1).drop_last() =~= sample@.take(i as int));
        if sample[i].weight >= sample[best].weight {
            best = i;
        }
        i = i + 1;
    }
    assert(sample@.take(i as int) =~= sample@);
    sample[best].clone()
}

/// Decides where the local head stands against the heaviest tipset of a
/// non-empty sample: in sync if the local head is at least as heavy, in
/// range if the network head is exactly one epoch ahead, behind otherwise.
pub fn evaluate_head(local_head: Arc<Tipset>, sample: &Vec<Arc<Tipset>>) -> (r: NetworkHeadEvaluation)
    requires
        sample@.len() > 0,
    ensures
        r == evaluation_of(local_head, sample@[heaviest_index(sample@)]),
{
    let network_head = heaviest(sample);
    if local_head.weight >= network_head.weight {
        return NetworkHeadEvaluation::InSync;
    }
    if network_head.epoch as i128 - local_head.epoch as i128 == 1 {
        return NetworkHeadEvaluation::InRange { network_head };
    }
    NetworkHeadEvaluation::Behind { network_head, local_head }
}

/// The epoch that the wall clock says the chain should be at.
pub open spec fn expected_epoch_of(now: u64, genesis_timestamp: u64, block_delay: u32) -> int {
    if now >= genesis_timestamp {
        (now - genesis_timestamp) / (block_delay as int)
    } else {
        0
    }
}

/// The epoch that the wall clock says the chain should be at: whole block
/// delays since genesis, zero before it.
pub fn expected_epoch(now: u64, genesis_timestamp: u64, block_delay: u32) -> (r: u64)
    requires
        block_delay > 0,
    ensures
        r == expected_epoch_of(now, genesis_timestamp, block_delay),
{
    now.saturating_sub(genesis_timestamp) / (block_delay as u64)
}

/// Whether the local head already reaches the expected epoch, so that no
/// sample needs to be collected.
pub fn caught_up(local_epoch: i64, now_epoch: u64) -> (r: bool)
    ensures
        r == (local_epoch >= now_epoch),
{
    local_epoch >= 0 && local_epoch as u64 >= now_epoch
}

/// Whether a block timestamp lies no further in the future than the
/// allowed drift.
pub open spec fn within_drift(timestamp: u64, now: u64) -> bool {
    timestamp <= now + ALLOWABLE_CLOCK_DRIFT
}

/// Whether a gossiped tipset may join the sample: every block's timestamp
/// is within the clock drift and its epoch is not in the future.
pub open spec fn admissible(t: Arc<Tipset>, now: u64, now_epoch: u64) -> bool {
    &&& forall|i: int| 0 <= i < t.timestamps@.len() ==> within_drift(#[trigger] t.timestamps@[i], now)
    &&& t.epoch <= now_epoch
}

/// Whether a sample of `len` tipsets out of `target` takes `t` at
/// wall-clock time `now`, for a chain with that genesis time and block delay.
pub open spec fn admitted_at(len: nat, target: nat, t: Arc<Tipset>, now: u64, genesis_timestamp: u64, block_delay: u32) -> bool {
    len < target && admissible(t, now, expected_epoch_of(now, genesis_timestamp, block_delay) as u64)
}

/// Whether a gossiped tipset may join the sample.
pub fn is_admissible(t: &Arc<Tipset>, now: u64, now_epoch: u64) -> (r: bool)
    ensures
        r == admissible(*t, now, now_epoch),
{
    let mut i: usize = 0;
    while i < t.timestamps.len()
        invariant
            0 <= i <= t.timestamps@.len(),
            forall|j: int| 0 <= j < i ==> within_drift(#[trigger] t.timestamps@[j], now),
        decreases t.timestamps@.len() - i,
    {
        if t.timestamps[i] > now.saturating_add(ALLOWABLE_CLOCK_DRIFT) {
            return false;
        }
        i = i + 1;
    }
    t.epoch <= 0 || (t.epoch as u64) <= now_epoch
}

/// Whether a gossiped tipset is heavy enough to forward to the processor:
/// it is heavier than the local heaviest tipset.
pub fn should_forward(t: &Arc<Tipset>, local_heaviest_weight: u64) -> (r: bool)
    ensures
        r == (t.weight > local_heaviest_weight),
{
    t.weight > local_heaviest_weight
}

/// Relies on chrono::Utc::now and DateTime::timestamp: the seconds since
/// the Unix epoch now. Nothing is promised of the value.
#[verifier::external_body]
fn unix_now() -> (r: i64) {
    chrono::Utc::now().timestamp()
}

/// Collects admissible gossiped tipsets until the sample is full, then
/// evaluates the network head.
pub struct HeadSampler {
    sample: Vec<Arc<Tipset>>,
    target: usize,
}

impl HeadSampler {
    /// The tipsets admitted so far.
    pub closed spec fn view(&self) -> Seq<Arc<Tipset>> {
        self.sample@
    }

    /// How many tipsets the sample needs.
    pub closed spec fn target(&self) -> nat {
        self.target as nat
    }

    pub closed spec fn wf(&self) -> bool {
        self.sample@.len() <= self.target
    }

    /// An empty sample that needs `target` tipsets.
    pub fn new(target: usize) -> (r: HeadSampler)
        ensures
            r.wf(),
            r.view() == Seq::<Arc<Tipset>>::empty(),
            r.target() == target,
    {
        HeadSampler { sample: Vec::new(), target }
    }

    /// Whether the sample is full.
    pub fn is_complete(&self) -> (r: bool)
        ensures
            r == (self.view().len() >= self.target()),
    {
        self.sample.len() >= self.target
    }

    /// The tipsets admitted so far.
    pub fn sample(&self) -> (r: &Vec<Arc<Tipset>>)
        ensures
            r@ == self.view(),
    {
        &self.sample
    }

    /// Offers a gossiped tipset that passed shallow validation, at wall-clock
    /// time `now` and expected epoch `now_epoch`. It joins the sample if the
    /// sample is not full and the tipset is admissible; tells whether it did.
    pub fn offer(&mut self, candidate: Arc<Tipset>, now: u64, now_epoch: u64) -> (r: bool)
        requires
            old(self).wf(),
        ensures
            final(self).wf(),
            final(self).target() == old(self).target(),
            r == (old(self).view().len() < old(self).target() && admissible(candidate, now, now_epoch)),
            r ==> final(self).view() == old(self).view().push(candidate),
            !r ==> final(self).view() == old(self).view(),
    {
        if self.sample.len() >= self.target {
            return false;
        }
        if !is_admissible(&candidate, now, now_epoch) {
            return false;
        }
        self.sample.push(candidate);
        true
    }

    /// Offers a gossiped tipset at the current wall-clock time, for a chain
    /// whose genesis was at `genesis_timestamp` with `block_delay` seconds
    /// per epoch. The tipset joins as `offer` decides at some time `now`; one
    /// that is admissible at any time (epoch not above zero, no timestamp
    /// above the drift allowed at the Unix epoch) always joins a sample that
    /// is not full. The clock is read through chrono, which panics on a
    /// machine clock set before the Unix epoch; a negative reading could not
    /// reach the conversion below.
    pub fn offer_now(&mut self, candidate: Arc<Tipset>, genesis_timestamp: u64, block_delay: u32) -> (r: bool)
        requires
            old(self).wf(),
            block_delay > 0,
        ensures
            final(self).wf(),
            final(self).target() == old(self).target(),
            r ==> final(self).view() == old(self).view().push(candidate),
            !r ==> final(self).view() == old(self).view(),
            old(self).view().len() >= old(self).target() ==> !r,
            exists|now: u64| r == #[trigger] admitted_at(old(self).view().len(), old(self).target(), candidate, now, genesis_timestamp, block_delay),
            old(self).view().len() < old(self).target() && candidate.epoch <= 0
                && (forall|i: int| 0 <= i < candidate.timestamps@.len() ==> #[trigger] candidate.timestamps@[i] <= ALLOWABLE_CLOCK_DRIFT)
                ==> r,
    {
        let clock = unix_now();
        let now: u64 = if clock < 0 { 0 } else { clock as u64 };
        let now_epoch = expected_epoch(now, genesis_timestamp, block_delay);
        let r = self.offer(candidate, now, now_epoch);
        assert(r == admitted_at(old(self).view().len(), old(self).target(), candidate, now, genesis_timestamp, block_delay));
        r
    }

    /// The evaluation of the full sample against the local head.
    pub fn conclude(&self, local_head: Arc<Tipset>) -> (r: NetworkHeadEvaluation)
        requires
            self.view().len() > 0,
        ensures
            r == evaluation_of(local_head, self.view()[heaviest_index(self.view())]),
    {
        evaluate_head(local_head, &self.sample)
    }
}

/// The phases of the orchestrator.
#[derive(Debug, Clone, Copy, PartialEq, Eq, Structural)]
pub enum ChainMuxerState {
    Idle,
    Connect,
    Bootstrap,
    Follow,
    Stateless,
}

/// The coarse stage that the orchestrator reports to monitoring.
#[derive(Debug, Clone, Copy, PartialEq, Eq, Structural)]
pub enum SyncStage {
    Idle,
    Bootstrapping,
    Following,
    Complete,
}

/// What the job of the current phase reported.
pub enum MuxerEvent {
    /// Nothing finished yet.
    Pending,
    /// The network-head evaluation finished.
    Evaluated(Result<NetworkHeadEvaluation, ChainMuxerError>),
    /// The bootstrap pair finished.
    BootstrapFinished(Result<(), ChainMuxerError>),
    /// The follow pair finished.
    FollowFinished(Result<(), ChainMuxerError>),
    /// The stateless event pump failed.
    StatelessFailed(ChainMuxerError),
}

/// What the host does next.
pub enum MuxerAction {
    /// Start the stateless event pump.
    StartStateless,
    /// Start evaluating the network head.
    StartEvaluation,
    /// Start a range sync from the local head to the network head, raced
    /// against the gossip pump.
    StartBootstrap { network_head: Arc<Tipset>, local_head: Arc<Tipset> },
    /// Start following, first handing `head` to the processor if present,
    /// raced against the gossip pump.
    StartFollow { head: Option<Arc<Tipset>> },
    /// Step again at once: the orchestrator went back to idle.
    Continue,
    /// Wait for the running job.
    Wait,
    /// Stop the sync driver with this error.
    Stop(ChainMuxerError),
}

/// The phase and the action that follow `state` on `event`.
pub open spec fn transition(
    state: ChainMuxerState,
    stateless_mode: bool,
    sample_size: nat,
    event: MuxerEvent,
) -> (ChainMuxerState, MuxerAction) {
    match state {
        ChainMuxerState::Idle => if stateless_mode {
            (ChainMuxerState::Stateless, MuxerAction::StartStateless)
        } else if sample_size == 0 {
            (ChainMuxerState::Follow, MuxerAction::StartFollow { head: None })
        } else {
            (ChainMuxerState::Connect, MuxerAction::StartEvaluation)
        },
        ChainMuxerState::Connect => match event {
            MuxerEvent::Evaluated(Ok(NetworkHeadEvaluation::Behind { network_head, local_head })) => (
                ChainMuxerState::Bootstrap,
                MuxerAction::StartBootstrap { network_head, local_head },
            ),
            MuxerEvent::Evaluated(Ok(NetworkHeadEvaluation::InRange { network_head })) => (
                ChainMuxerState::Follow,
                MuxerAction::StartFollow { head: Some(network_head) },
            ),
            MuxerEvent::Evaluated(Ok(NetworkHeadEvaluation::InSync)) => (
                ChainMuxerState::Follow,
                MuxerAction::StartFollow { head: None },
            ),
            MuxerEvent::Evaluated(Err(e)) => (ChainMuxerState::Idle, MuxerAction::Stop(e)),
            _ => (ChainMuxerState::Connect, MuxerAction::Wait),
        },
        ChainMuxerState::Bootstrap => match event {
            MuxerEvent::BootstrapFinished(_) => (ChainMuxerState::Idle, MuxerAction::Continue),
            _ => (ChainMuxerState::Bootstrap, MuxerAction::Wait),
        },
        ChainMuxerState::Follow => match event {
            MuxerEvent::FollowFinished(_) => (ChainMuxerState::Idle, MuxerAction::Continue),
            _ => (ChainMuxerState::Follow, MuxerAction::Wait),
        },
        ChainMuxerState::Stateless => match event {
            MuxerEvent::StatelessFailed(e) => (ChainMuxerState::Stateless, MuxerAction::Stop(e)),
            _ => (ChainMuxerState::Stateless, MuxerAction::Wait),
        },
    }
}

/// The stage reported after `state` meets `event`: following with nothing
/// finished marks the sync complete.
pub open spec fn stage_after(state: ChainMuxerState, stage: SyncStage, event: MuxerEvent) -> SyncStage {
    match (state, event) {
        (ChainMuxerState::Follow, MuxerEvent::Pending) => SyncStage::Complete,
        _ => stage,
    }
}

/// The orchestrator's decisions: which phase it is in, and what to do next
/// when the running job reports.
pub struct ChainMuxer {
    state: ChainMuxerState,
    stage: SyncStage,
    stateless_mode: bool,
    config: SyncConfig,
}

impl ChainMuxer {
    pub closed spec fn phase(&self) -> ChainMuxerState {
        self.state
    }

    pub closed spec fn reported_stage(&self) -> SyncStage {
        self.stage
    }

    pub closed spec fn is_stateless(&self) -> bool {
        self.stateless_mode
    }

    pub closed spec fn sample_size(&self) -> nat {
        self.config.tipset_sample_size as nat
    }

    /// An idle orchestrator.
    pub fn new(config: SyncConfig, stateless_mode: bool) -> (r: ChainMuxer)
        ensures
            r.phase() == ChainMuxerState::Idle,
            r.reported_stage() == SyncStage::Idle,
            r.is_stateless() == stateless_mode,
            r.sample_size() == config.tipset_sample_size,
    {
        ChainMuxer { state: ChainMuxerState::Idle, stage: SyncStage::Idle, stateless_mode, config }
    }

    /// The current phase.
    pub fn state(&self) -> (r: ChainMuxerState)
        ensures
            r == self.phase(),
    {
        self.state
    }

    /// The stage reported to monitoring.
    pub fn sync_state(&self) -> (r: SyncStage)
        ensures
            r == self.reported_stage(),
    {
        self.stage
    }

    /// Records the stage that a sync worker has reached.
    pub fn set_stage(&mut self, stage: SyncStage)
        ensures
            final(self).reported_stage() == stage,
            final(self).phase() == old(self).phase(),
            final(self).is_stateless() == old(self).is_stateless(),
            final(self).sample_size() == old(self).sample_size(),
    {
        self.stage = stage;
    }

    /// The configuration.
    pub fn config(&self) -> (r: &SyncConfig)
        ensures
            r.tipset_sample_size == self.sample_size(),
    {
        &self.config
    }

    /// Takes what the running job reported and moves to the next phase.
    pub fn step(&mut self, event: MuxerEvent) -> (r: MuxerAction)
        ensures
            (final(self).phase(), r) == transition(old(self).phase(), old(self).is_stateless(), old(self).sample_size(), event),
            final(self).reported_stage() == stage_after(old(self).phase(), old(self).reported_stage(), event),
            final(self).is_stateless() == old(self).is_stateless(),
            final(self).sample_size() == old(self).sample_size(),
    {
        match self.state {
            ChainMuxerState::Idle => {
                if self.stateless_mode {
                    self.state = ChainMuxerState::Stateless;
                    MuxerAction::StartStateless
                } else if self.config.tipset_sample_size == 0 {
                    self.state = ChainMuxerState::Follow;
                    MuxerAction::StartFollow { head: None }
                } else {
                    self.state = ChainMuxerState::Connect;
                    MuxerAction::StartEvaluation
                }
            },
            ChainMuxerState::Connect => match event {
                MuxerEvent::Evaluated(Ok(NetworkHeadEvaluation::Behind { network_head, local_head })) => {
                    self.state = ChainMuxerState::Bootstrap;
                    MuxerAction::StartBootstrap { network_head, local_head }
                },
                MuxerEvent::Evaluated(Ok(NetworkHeadEvaluation::InRange { network_head })) => {
                    self.state = ChainMuxerState::Follow;
                    MuxerAction::StartFollow { head: Some(network_head) }
                },
                MuxerEvent::Evaluated(Ok(NetworkHeadEvaluation::InSync)) => {
                    self.state = ChainMuxerState::Follow;
                    MuxerAction::StartFollow { head: None }
                },
                MuxerEvent::Evaluated(Err(e)) => {
                    self.state = ChainMuxerState::Idle;
                    MuxerAction::Stop(e)
                },
                _ => MuxerAction::Wait,
            },
            ChainMuxerState::Bootstrap => match event {
                MuxerEvent::BootstrapFinished(_) => {
                    self.state = ChainMuxerState::Idle;
                    MuxerAction::Continue
                },
                _ => MuxerAction::Wait,
            },
            ChainMuxerState::Follow => match event {
                MuxerEvent::FollowFinished(_) => {
                    self.state = ChainMuxerState::Idle;
                    MuxerAction::Continue
                },
                MuxerEvent::Pending => {
                    self.stage = SyncStage::Complete;
                    MuxerAction::Wait
                },
                _ => MuxerAction::Wait,
            },
            ChainMuxerState::Stateless => match event {
                MuxerEvent::StatelessFailed(e) => MuxerAction::Stop(e),
                _ => MuxerAction::Wait,
            },
        }
    }
}

/// The phase after a run of events from `state`.
pub open spec fn run(state: ChainMuxerState, stateless_mode: bool, sample_size: nat, events: Seq<MuxerEvent>) -> ChainMuxerState
    decreases events.len(),
{
    if events.len() == 0 {
        state
    } else {
        run(
            transition(state, stateless_mode, sample_size, events[0]).0,
            stateless_mode,
            sample_size,
            events.drop_first(),
        )
    }
}

/// With a sample size of zero and stateless mode off, an idle orchestrator
/// goes straight to following with no head, and no run of events from a
/// phase other than connecting ever reaches connecting.
pub proof fn lemma_zero_sample_never_connects(state: ChainMuxerState, events: Seq<MuxerEvent>)
    requires
        state != ChainMuxerState::Connect,
    ensures
        forall|e: MuxerEvent| #[trigger] transition(ChainMuxerState::Idle, false, 0, e)
            == (ChainMuxerState::Follow, MuxerAction::StartFollow { head: None }),
        run(state, false, 0, events) != ChainMuxerState::Connect,
    decreases events.len(),
{
    if events.len() > 0 {
        lemma_zero_sample_never_connects(transition(state, false, 0, events[0]).0, events.drop_first());
    }
}

/// An evaluation that finds the network head in range always leads to
/// following, seeded with that head, and never to bootstrapping.
pub proof fn lemma_in_range_follows(stateless_mode: bool, sample_size: nat, network_head: Arc<Tipset>)
    ensures
        transition(
            ChainMuxerState::Connect,
            stateless_mode,
            sample_size,
            MuxerEvent::Evaluated(Ok(NetworkHeadEvaluation::InRange { network_head })),
        ) == (ChainMuxerState::Follow, MuxerAction::StartFollow { head: Some(network_head) }),
{
}

/// What the peer-to-peer layer reports. Peers are named by an identifier,
/// blocks and messages by their content identifiers.
pub enum NetworkEvent {
    HelloRequestInbound,
    /// A peer answered our hello with its heaviest tipset.
    HelloResponseOutbound { source: u64, heaviest_tip_set: TipsetKey },
    HelloRequestOutbound,
    HelloResponseInbound,
    PeerConnected(u64),
    PeerDisconnected(u64),
    /// A block arrived by gossip.
    PubsubBlock { header_cid: u64 },
    /// A message arrived by gossip.
    PubsubMessage { message_cid: u64 },
    ChainExchangeRequestOutbound,
    ChainExchangeResponseInbound,
    ChainExchangeRequestInbound,
    ChainExchangeResponseOutbound,
}

/// What the gossip pump does with an event besides peer bookkeeping.
pub enum GossipAction {
    Ignore,
    /// Fetch the full tipset with this key, from the store or else from the
    /// network, asking `peer` if one is named.
    FetchTipset { peer: Option<u64>, key: TipsetKey },
    /// Hand the message to the message pool.
    AddToMessagePool(u64),
}

/// The mathematical form of a gossip action.
pub enum GossipPlan {
    Ignore,
    Fetch { peer: Option<u64>, key: Seq<u64> },
    Pool(u64),
}

impl GossipAction {
    pub open spec fn plan(&self) -> GossipPlan {
        match self {
            GossipAction::Ignore => GossipPlan::Ignore,
            GossipAction::FetchTipset { peer, key } => GossipPlan::Fetch { peer: *peer, key: key@ },
            GossipAction::AddToMessagePool(m) => GossipPlan::Pool(*m),
        }
    }
}

/// What the gossip pump does with an event.
pub open spec fn gossip_plan(event: NetworkEvent) -> GossipPlan {
    match event {
        NetworkEvent::HelloResponseOutbound { source, heaviest_tip_set } => GossipPlan::Fetch {
            peer: Some(source),
            key: heaviest_tip_set@,
        },
        NetworkEvent::PubsubBlock { header_cid } => GossipPlan::Fetch { peer: None, key: seq![header_cid] },
        NetworkEvent::PubsubMessage { message_cid } => GossipPlan::Pool(message_cid),
        _ => GossipPlan::Ignore,
    }
}

/// Decides what the gossip pump does with an event: a peer's hello answer
/// names its heaviest tipset, to fetch from that peer; a gossiped block
/// names the one-block tipset to fetch; a gossiped message goes to the
/// message pool; other events carry nothing.
pub fn gossip_action(event: NetworkEvent) -> (r: GossipAction)
    ensures
        r.plan() == gossip_plan(event),
{
    match event {
        NetworkEvent::HelloResponseOutbound { source, heaviest_tip_set } => GossipAction::FetchTipset {
            peer: Some(source),
            key: heaviest_tip_set,
        },
        NetworkEvent::PubsubBlock { header_cid } => {
            let mut cids: Vec<u64> = Vec::new();
            cids.push(header_cid);
            assert(cids@ =~= seq![header_cid]);
            GossipAction::FetchTipset { peer: None, key: TipsetKey { cids } }
        },
        NetworkEvent::PubsubMessage { message_cid } => GossipAction::AddToMessagePool(message_cid),
        _ => GossipAction::Ignore,
    }
}

/// The peer bookkeeping that an event calls for.
#[derive(Debug, Clone, Copy, PartialEq, Eq, Structural)]
pub enum PeerAction {
    Nothing,
    /// Greet a newly connected peer with a hello request.
    Greet(u64),
    /// Forget a disconnected peer and clear its bad mark.
    Forget(u64),
}

/// The peer bookkeeping that an event calls for: greet a connected peer,
/// forget a disconnected one, nothing otherwise.
pub fn peer_action(event: &NetworkEvent) -> (r: PeerAction)
    ensures
        r == match *event {
            NetworkEvent::PeerConnected(p) => PeerAction::Greet(p),
            NetworkEvent::PeerDisconnected(p) => PeerAction::Forget(p),
            _ => PeerAction::Nothing,
        },
{
    match event {
        NetworkEvent::PeerConnected(p) => PeerAction::Greet(*p),
        NetworkEvent::PeerDisconnected(p) => PeerAction::Forget(*p),
        _ => PeerAction::Nothing,
    }
}

/// How a hello request to a newly connected peer ended.
#[derive(Debug, Clone, Copy, PartialEq, Eq, Structural)]
pub enum HelloOutcome {
    /// The request could not be made.
    RequestFailed,
    /// The peer answered, after this many milliseconds.
    Answered { millis: u64 },
    /// The peer did not answer, after this many milliseconds.
    Unanswered { millis: u64 },
}

/// What the peer manager records about a peer.
#[derive(Debug, Clone, Copy, PartialEq, Eq, Structural)]
pub enum PeerScore {
    /// Record nothing.
    Unchanged,
    /// A success with its round-trip time.
    Success { peer: u64, millis: u64 },
    /// A failure with the time waited.
    Failure { peer: u64, millis: u64 },
}

/// Whether a connected peer is greeted: only a new one.
pub fn greets(peer_is_new: bool) -> (r: bool)
    ensures
        r == peer_is_new,
{
    peer_is_new
}

/// What the peer manager records after greeting `peer`: a success when it
/// answered, a failure when it did not, nothing when the request failed.
pub fn hello_score(peer: u64, outcome: HelloOutcome) -> (r: PeerScore)
    ensures
        r == match outcome {
            HelloOutcome::RequestFailed => PeerScore::Unchanged,
            HelloOutcome::Answered { millis } => PeerScore::Success { peer, millis },
            HelloOutcome::Unanswered { millis } => PeerScore::Failure { peer, millis },
        },
{
    match outcome {
        HelloOutcome::RequestFailed => PeerScore::Unchanged,
        HelloOutcome::Answered { millis } => PeerScore::Success { peer, millis },
        HelloOutcome::Unanswered { millis } => PeerScore::Failure { peer, millis },
    }
}

} // verus!

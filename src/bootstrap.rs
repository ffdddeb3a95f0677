use vstd::prelude::*;

verus! {

/// The RPC error code with which a node answers while it is still warming up.
pub const RPC_IN_WARMUP: i32 = -28;

/// The lowest protocol version of the node that is supported (0.21).
pub const MIN_NODE_VERSION: usize = 210000;

/// What the node reported of its chain when asked for its blockchain status.
#[derive(Debug, Clone, Copy, PartialEq, Eq, Structural)]
pub struct ChainStatus {
    pub initial_block_download: bool,
    pub headers: u64,
    pub blocks: u64,
}

/// The outcome of one blockchain-status query.
#[derive(Debug, Clone, Copy, PartialEq, Eq, Structural)]
pub enum PollStatus {
    /// The node answered.
    Answered(ChainStatus),
    /// The node answered with an RPC error carrying this code.
    ServerError(i32),
    /// The query failed in any other way (transport, parsing).
    Unavailable,
}

/// What one poll of the node decided.
#[derive(Debug, Clone, Copy, PartialEq, Eq, Structural)]
pub enum PollResult {
    /// The node is synced: polling is over.
    Ready,
    /// The node is still syncing or warming up: poll again after a pause.
    Retry,
    /// The node cannot be used: polling is over with an error.
    Failed,
}

/// Whether the node still has blocks to download.
pub open spec fn still_syncing(s: ChainStatus) -> bool {
    s.initial_block_download || s.headers > s.blocks
}

/// What one blockchain-status query decides: a synced node is ready, a
/// syncing or warming-up node is polled again, and anything else is fatal.
pub open spec fn poll_result_of(p: PollStatus) -> PollResult {
    match p {
        PollStatus::Answered(s) => if still_syncing(s) {
            PollResult::Retry
        } else {
            PollResult::Ready
        },
        PollStatus::ServerError(code) => if code == RPC_IN_WARMUP {
            PollResult::Retry
        } else {
            PollResult::Failed
        },
        PollStatus::Unavailable => PollResult::Failed,
    }
}

/// Number of blocks that the node knows of by header and has not yet validated.
pub fn blocks_left(s: &ChainStatus) -> (r: u64)
    ensures
        r == if s.headers > s.blocks { s.headers - s.blocks } else { 0 },
{
    if s.headers > s.blocks {
        s.headers - s.blocks
    } else {
        0
    }
}

/// Classifies one blockchain-status query: synced, transient, or fatal.
pub fn rpc_poll(p: &PollStatus) -> (r: PollResult)
    ensures
        r == poll_result_of(*p),
{
    match p {
        PollStatus::Answered(s) => {
            if s.initial_block_download || s.headers > s.blocks {
                PollResult::Retry
            } else {
                PollResult::Ready
            }
        },
        PollStatus::ServerError(code) => {
            if *code == RPC_IN_WARMUP {
                PollResult::Retry
            } else {
                PollResult::Failed
            }
        },
        PollStatus::Unavailable => PollResult::Failed,
    }
}

/// What happened in one round of the startup loop: either the cancellation
/// signal was found set, or the node was polled.
#[derive(Debug, Clone, Copy, PartialEq, Eq, Structural)]
pub enum BootstrapEvent {
    Cancelled,
    Polled(PollStatus),
}

/// Why startup was abandoned.
#[derive(Debug, Clone, Copy, PartialEq, Eq, Structural)]
pub enum BootstrapError {
    /// The cancellation signal was set.
    Interrupted,
    /// The node answered with an error that is not transient.
    DaemonNotAvailable,
    /// The node is older than the minimum supported version.
    UnsupportedVersion,
    /// The node's peer-to-peer networking is switched off.
    NetworkInactive,
    /// The node prunes old blocks.
    PrunedNode,
}

/// What the startup loop does after one round.
#[derive(Debug, Clone, Copy, PartialEq, Eq, Structural)]
pub enum BootstrapAction {
    /// Sleep for the fixed interval, then start the next round.
    Sleep,
    /// Leave the loop: the node is ready.
    Proceed,
    /// Leave the loop with an error.
    Abort(BootstrapError),
}

/// What the startup loop does after one round: cancellation aborts first,
/// else the poll's outcome decides.
pub open spec fn action_of(e: BootstrapEvent) -> BootstrapAction {
    match e {
        BootstrapEvent::Cancelled => BootstrapAction::Abort(BootstrapError::Interrupted),
        BootstrapEvent::Polled(p) => match poll_result_of(p) {
            PollResult::Ready => BootstrapAction::Proceed,
            PollResult::Retry => BootstrapAction::Sleep,
            PollResult::Failed => BootstrapAction::Abort(BootstrapError::DaemonNotAvailable),
        },
    }
}

/// Decides what the startup loop does after one round.
pub fn bootstrap_step(e: &BootstrapEvent) -> (r: BootstrapAction)
    ensures
        r == action_of(*e),
{
    match e {
        BootstrapEvent::Cancelled => BootstrapAction::Abort(BootstrapError::Interrupted),
        BootstrapEvent::Polled(p) => match rpc_poll(p) {
            PollResult::Ready => BootstrapAction::Proceed,
            PollResult::Retry => BootstrapAction::Sleep,
            PollResult::Failed => BootstrapAction::Abort(BootstrapError::DaemonNotAvailable),
        },
    }
}

/// Runs the startup loop over a sequence of rounds: the number of sleeps
/// taken, and how the loop ended (`None` while the rounds ran out first).
pub open spec fn run_bootstrap(events: Seq<BootstrapEvent>) -> (nat, Option<
    Result<(), BootstrapError>,
>)
    decreases events.len(),
{
    if events.len() == 0 {
        (0, None)
    } else {
        match action_of(events[0]) {
            BootstrapAction::Proceed => (0, Some(Ok(()))),
            BootstrapAction::Abort(err) => (0, Some(Err(err))),
            BootstrapAction::Sleep => {
                let rest = run_bootstrap(events.drop_first());
                (rest.0 + 1, rest.1)
            },
        }
    }
}

/// A node that reports `k` rounds of downloading and is then synced brings
/// the loop to success after exactly `k` sleeps.
pub proof fn lemma_bootstrap_waits_for_sync(k: nat, syncing: ChainStatus, synced: ChainStatus)
    requires
        still_syncing(syncing),
        !still_syncing(synced),
    ensures
        run_bootstrap(
            Seq::new(k, |i: int| BootstrapEvent::Polled(PollStatus::Answered(syncing))).push(
                BootstrapEvent::Polled(PollStatus::Answered(synced)),
            ),
        ) == (k, Some(Ok::<(), BootstrapError>(()))),
    decreases k,
{
    let s = Seq::new(k, |i: int| BootstrapEvent::Polled(PollStatus::Answered(syncing))).push(
        BootstrapEvent::Polled(PollStatus::Answered(synced)),
    );
    if k > 0 {
        lemma_bootstrap_waits_for_sync((k - 1) as nat, syncing, synced);
        assert(s.drop_first() =~= Seq::new(
            (k - 1) as nat,
            |i: int| BootstrapEvent::Polled(PollStatus::Answered(syncing)),
        ).push(BootstrapEvent::Polled(PollStatus::Answered(synced))));
    }
}

/// A node that keeps answering that it is warming up holds the loop for as
/// many rounds as it answers so, none of them an error; when cancellation is
/// then signalled the loop ends with an interruption, not an RPC error.
pub proof fn lemma_bootstrap_warmup_until_cancelled(k: nat)
    ensures
        run_bootstrap(
            Seq::new(k, |i: int| BootstrapEvent::Polled(PollStatus::ServerError(RPC_IN_WARMUP))).push(
                BootstrapEvent::Cancelled,
            ),
        ) == (k, Some(Err::<(), BootstrapError>(BootstrapError::Interrupted))),
        run_bootstrap(
            Seq::new(k, |i: int| BootstrapEvent::Polled(PollStatus::ServerError(RPC_IN_WARMUP))),
        ) == (k, None::<Result<(), BootstrapError>>),
    decreases k,
{
    let w = Seq::new(k, |i: int| BootstrapEvent::Polled(PollStatus::ServerError(RPC_IN_WARMUP)));
    if k > 0 {
        lemma_bootstrap_warmup_until_cancelled((k - 1) as nat);
        let w1 = Seq::new(
            (k - 1) as nat,
            |i: int| BootstrapEvent::Polled(PollStatus::ServerError(RPC_IN_WARMUP)),
        );
        assert(w.drop_first() =~= w1);
        assert(w.push(BootstrapEvent::Cancelled).drop_first() =~= w1.push(BootstrapEvent::Cancelled));
    }
}

/// The node is usable only at the minimum version or later, with its
/// peer-to-peer networking switched on; the version is checked first.
pub open spec fn network_check(version: usize, network_active: bool) -> Result<(), BootstrapError> {
    if version < MIN_NODE_VERSION {
        Err(BootstrapError::UnsupportedVersion)
    } else if !network_active {
        Err(BootstrapError::NetworkInactive)
    } else {
        Ok(())
    }
}

/// Checks what the node reported of its version and its networking.
pub fn check_network_info(version: usize, network_active: bool) -> (r: Result<(), BootstrapError>)
    ensures
        r == network_check(version, network_active),
        r is Ok <==> (version >= MIN_NODE_VERSION && network_active),
{
    if version < MIN_NODE_VERSION {
        Err(BootstrapError::UnsupportedVersion)
    } else if !network_active {
        Err(BootstrapError::NetworkInactive)
    } else {
        Ok(())
    }
}

/// Checks that the node keeps every block.
pub fn check_chain_info(pruned: bool) -> (r: Result<(), BootstrapError>)
    ensures
        r == (if pruned {
            Err(BootstrapError::PrunedNode)
        } else {
            Ok(())
        }),
{
    if pruned {
        Err(BootstrapError::PrunedNode)
    } else {
        Ok(())
    }
}

} // verus!

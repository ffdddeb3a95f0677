use electrs::bootstrap::{
    blocks_left, bootstrap_step, check_chain_info, check_network_info, rpc_poll, BootstrapAction,
    BootstrapError, BootstrapEvent, ChainStatus, PollResult, PollStatus, MIN_NODE_VERSION,
    RPC_IN_WARMUP,
};

fn status(ibd: bool, headers: u64, blocks: u64) -> PollStatus {
    PollStatus::Answered(ChainStatus { initial_block_download: ibd, headers, blocks })
}

/// Runs the startup loop over the given rounds; returns the sleeps taken and
/// how it ended, if it did.
fn run(events: &[BootstrapEvent]) -> (usize, Option<Result<(), BootstrapError>>) {
    let mut sleeps = 0;
    for e in events {
        match bootstrap_step(e) {
            BootstrapAction::Sleep => sleeps += 1,
            BootstrapAction::Proceed => return (sleeps, Some(Ok(()))),
            BootstrapAction::Abort(err) => return (sleeps, Some(Err(err))),
        }
    }
    (sleeps, None)
}

#[test]
fn poll_classification() {
    assert_eq!(rpc_poll(&status(false, 100, 100)), PollResult::Ready);
    assert_eq!(rpc_poll(&status(true, 100, 100)), PollResult::Retry);
    assert_eq!(rpc_poll(&status(false, 101, 100)), PollResult::Retry);
    assert_eq!(rpc_poll(&status(false, 99, 100)), PollResult::Ready);
    assert_eq!(rpc_poll(&PollStatus::ServerError(RPC_IN_WARMUP)), PollResult::Retry);
    assert_eq!(rpc_poll(&PollStatus::ServerError(-1)), PollResult::Failed);
    assert_eq!(rpc_poll(&PollStatus::Unavailable), PollResult::Failed);
}

#[test]
fn blocks_left_counts_missing_blocks() {
    assert_eq!(blocks_left(&ChainStatus { initial_block_download: false, headers: 120, blocks: 100 }), 20);
    assert_eq!(blocks_left(&ChainStatus { initial_block_download: true, headers: 5, blocks: 9 }), 0);
}

#[test]
fn bootstrap_waits_for_download_then_succeeds() {
    let events = [
        BootstrapEvent::Polled(status(true, 10, 3)),
        BootstrapEvent::Polled(status(false, 10, 7)),
        BootstrapEvent::Polled(status(false, 10, 10)),
    ];
    assert_eq!(run(&events), (2, Some(Ok(()))));
}

#[test]
fn bootstrap_warmup_retries_until_cancelled() {
    let mut events = vec![BootstrapEvent::Polled(PollStatus::ServerError(-28)); 50];
    assert_eq!(run(&events), (50, None));
    events.push(BootstrapEvent::Cancelled);
    assert_eq!(run(&events), (50, Some(Err(BootstrapError::Interrupted))));
}

#[test]
fn bootstrap_other_error_is_fatal() {
    let events = [
        BootstrapEvent::Polled(PollStatus::ServerError(-28)),
        BootstrapEvent::Polled(PollStatus::ServerError(-8)),
        BootstrapEvent::Polled(status(false, 1, 1)),
    ];
    assert_eq!(run(&events), (1, Some(Err(BootstrapError::DaemonNotAvailable))));
}

#[test]
fn bootstrap_cancel_comes_first() {
    assert_eq!(run(&[BootstrapEvent::Cancelled]), (0, Some(Err(BootstrapError::Interrupted))));
}

#[test]
fn node_compatibility_checks() {
    assert_eq!(check_network_info(MIN_NODE_VERSION, true), Ok(()));
    assert_eq!(check_network_info(250000, true), Ok(()));
    assert_eq!(check_network_info(209999, true), Err(BootstrapError::UnsupportedVersion));
    assert_eq!(check_network_info(200000, false), Err(BootstrapError::UnsupportedVersion));
    assert_eq!(check_network_info(210000, false), Err(BootstrapError::NetworkInactive));
    assert_eq!(check_chain_info(true), Err(BootstrapError::PrunedNode));
    assert_eq!(check_chain_info(false), Ok(()));
}

use manual_seal::channel::{CommandChannel, RecvOutcome, DEFAULT_CAPACITY};
use manual_seal::command::SealCommand;
use manual_seal::errors::SealError;
use manual_seal::rpc::submit_seal_request;

fn command(ticket: u64) -> SealCommand {
    SealCommand { max_transactions: None, inherent_overrides: None, ticket }
}

#[test]
fn backpressure_on_capacity_two() {
    // capacity=2 channel; C1 and C2 enqueue, C3 fails with ChannelSaturated.
    let mut chan = CommandChannel::with_capacity(2);
    assert_eq!(chan.try_send(command(1)), Ok(()));
    assert_eq!(chan.try_send(command(2)), Ok(()));
    assert_eq!(chan.try_send(command(3)), Err(SealError::ChannelSaturated));
    assert_eq!(chan.len(), 2);
}

#[test]
fn saturation_drops_nothing_queued() {
    let mut chan = CommandChannel::with_capacity(1);
    assert_eq!(chan.try_send(command(10)), Ok(()));
    assert_eq!(chan.try_send(command(11)), Err(SealError::ChannelSaturated));
    match chan.recv() {
        RecvOutcome::Received { command } => assert_eq!(command.ticket, 10),
        other => panic!("expected the first command, got {:?}", other),
    }
    assert_eq!(chan.recv(), RecvOutcome::Empty);
}

#[test]
fn commands_come_out_in_submission_order() {
    let mut chan = CommandChannel::with_capacity(5);
    for t in 0..5u64 {
        assert_eq!(chan.try_send(command(t)), Ok(()));
    }
    for t in 0..5u64 {
        match chan.recv() {
            RecvOutcome::Received { command } => assert_eq!(command.ticket, t),
            other => panic!("expected ticket {}, got {:?}", t, other),
        }
    }
    assert_eq!(chan.recv(), RecvOutcome::Empty);
}

#[test]
fn default_capacity_is_one_thousand() {
    let mut chan = CommandChannel::with_default_capacity();
    assert_eq!(chan.capacity(), DEFAULT_CAPACITY);
    assert_eq!(chan.capacity(), 1000);
    for t in 0..1000u64 {
        assert_eq!(chan.try_send(command(t)), Ok(()));
    }
    assert_eq!(chan.try_send(command(1000)), Err(SealError::ChannelSaturated));
}

#[test]
fn closed_channel_rejects_and_drains() {
    let mut chan = CommandChannel::with_capacity(4);
    assert_eq!(chan.try_send(command(1)), Ok(()));
    chan.close();
    assert!(chan.closed());
    // Further submissions fail with EngineShutdown, not ChannelSaturated.
    assert_eq!(chan.try_send(command(2)), Err(SealError::EngineShutdown));
    // What was queued before the close is still drained in order...
    match chan.recv() {
        RecvOutcome::Received { command } => assert_eq!(command.ticket, 1),
        other => panic!("expected the queued command, got {:?}", other),
    }
    // ...and only then comes the terminal signal.
    assert_eq!(chan.recv(), RecvOutcome::Closed);
    assert_eq!(chan.recv(), RecvOutcome::Closed);
}

#[test]
fn submit_builds_the_command_it_was_given() {
    let mut chan = CommandChannel::with_capacity(2);
    assert_eq!(submit_seal_request(&mut chan, Some(3), None, 42), Ok(()));
    match chan.recv() {
        RecvOutcome::Received { command } => {
            assert_eq!(command.max_transactions, Some(3));
            assert_eq!(command.inherent_overrides, None);
            assert_eq!(command.ticket, 42);
        }
        other => panic!("expected the submitted command, got {:?}", other),
    }
}

#[test]
fn submit_reports_saturation_and_shutdown() {
    let mut chan = CommandChannel::with_capacity(1);
    assert_eq!(submit_seal_request(&mut chan, None, None, 1), Ok(()));
    assert_eq!(
        submit_seal_request(&mut chan, None, None, 2),
        Err(SealError::ChannelSaturated)
    );
    chan.close();
    assert_eq!(
        submit_seal_request(&mut chan, None, None, 3),
        Err(SealError::EngineShutdown)
    );
}

use astria_bridge::execution::{CommitmentStateError, CommitmentStateErrorKind, FirmExceedsSoft};
use astria_bridge::primitive::Timestamp;
use astria_bridge::raw;
use astria_bridge::startup::{Startup, StartupInfo};
use astria_bridge::submitter::{
    AfterVerdict, Batch, ExitReason, Inclusion, RetryPolicy, SubmissionFailure, Submitter,
    BATCH_QUEUE_SIZE,
};
use bytes::Bytes;
use std::future::Future;
use std::task::{Context, Poll, Waker};
use tokio::sync::mpsc;
use tokio::sync::mpsc::error::{TryRecvError, TrySendError};

fn raw_block_at(number: u32) -> raw::execution::Block {
    raw::execution::Block {
        number,
        hash: Bytes::copy_from_slice(&[number as u8; 32]),
        parent_block_hash: Bytes::copy_from_slice(&[number as u8 + 1; 32]),
        timestamp: Some(Timestamp { seconds: 100, nanos: 1 }),
    }
}

fn commitment(firm: u32, soft: u32, next: u32) -> raw::execution::CommitmentState {
    raw::execution::CommitmentState {
        soft: Some(raw_block_at(soft)),
        firm: Some(raw_block_at(firm)),
        next_sequencer_height: next,
        base_celestia_height: 300,
    }
}

fn ready() -> StartupInfo {
    let genesis = raw::execution::GenesisInfo {
        rollup_id: Bytes::copy_from_slice(&[8u8; 32]),
        celestia_block_variance: 5,
    };
    Startup::new("astria".to_string())
        .start()
        .on_execution_client(Ok((genesis, commitment(2, 4, 17))))
        .unwrap()
        .on_sequencer_genesis(Ok("astria".to_string()))
        .unwrap()
}

fn policy() -> RetryPolicy {
    RetryPolicy { max_retries: 3, initial_delay_ms: 100, max_delay_ms: 350 }
}

fn batch(tag: u8) -> Batch<u8> {
    Batch {
        actions: vec![tag, tag + 1],
        first_rollup_height: u64::from(tag),
        last_rollup_height: u64::from(tag) + 1,
    }
}

fn included(height: u64) -> Inclusion {
    Inclusion { height, tx_hash: [height as u8; 32] }
}

#[test]
fn queue_holds_as_many_batches_as_the_submitter_allows() {
    assert_eq!(BATCH_QUEUE_SIZE, 256);
    let (tx, mut rx) = mpsc::channel::<Batch<u8>>(BATCH_QUEUE_SIZE);
    for i in 0..256u16 {
        assert!(tx.try_send(batch((i % 200) as u8)).is_ok());
    }
    assert!(matches!(tx.try_send(batch(1)), Err(TrySendError::Full(_))));
    assert_eq!(rx.try_recv().unwrap(), batch(0));
    assert!(tx.try_send(batch(1)).is_ok());
    assert!(matches!(tx.try_send(batch(2)), Err(TrySendError::Full(_))));
    assert_eq!(rx.try_recv().unwrap(), batch(1));
    drop(rx);
    assert!(matches!(tx.try_send(batch(3)), Err(TrySendError::Closed(_))));
    assert!(tx.is_closed());
}

#[test]
fn queue_suspends_a_sender_while_full_and_fails_it_once_closed() {
    let mut context = Context::from_waker(Waker::noop());
    let (tx, mut rx) = mpsc::channel::<Batch<u8>>(BATCH_QUEUE_SIZE);
    for i in 0..BATCH_QUEUE_SIZE {
        let mut send = Box::pin(tx.send(batch((i % 200) as u8)));
        assert!(matches!(send.as_mut().poll(&mut context), Poll::Ready(Ok(()))));
    }

    let mut waiting = Box::pin(tx.send(batch(201)));
    assert!(waiting.as_mut().poll(&mut context).is_pending());
    assert!(waiting.as_mut().poll(&mut context).is_pending());
    assert_eq!(rx.try_recv().unwrap(), batch(0));
    assert!(matches!(waiting.as_mut().poll(&mut context), Poll::Ready(Ok(()))));

    let mut pending = Box::pin(tx.send(batch(202)));
    assert!(pending.as_mut().poll(&mut context).is_pending());
    drop(rx);
    match pending.as_mut().poll(&mut context) {
        Poll::Ready(Err(refused)) => assert_eq!(refused.0, batch(202)),
        _ => panic!("a pending send fails once the queue is closed"),
    }
    let mut late = Box::pin(tx.send(batch(203)));
    match late.as_mut().poll(&mut context) {
        Poll::Ready(Err(refused)) => assert_eq!(refused.0, batch(203)),
        _ => panic!("a new send fails once the queue is closed"),
    }
}

#[test]
fn queue_delivers_in_the_order_sent() {
    let (tx, mut rx) = mpsc::channel::<Batch<u8>>(BATCH_QUEUE_SIZE);
    for tag in [3u8, 1, 2] {
        tx.try_send(batch(tag)).unwrap();
    }
    assert_eq!(rx.try_recv().unwrap(), batch(3));
    assert_eq!(rx.try_recv().unwrap(), batch(1));
    assert_eq!(rx.try_recv().unwrap(), batch(2));
    assert_eq!(rx.try_recv().unwrap_err(), TryRecvError::Empty);
    drop(tx);
    assert_eq!(rx.try_recv().unwrap_err(), TryRecvError::Disconnected);
}

#[test]
fn failures_of_the_transport_are_retryable_and_no_others() {
    assert!(SubmissionFailure::Network.is_retryable());
    assert!(SubmissionFailure::Timeout.is_retryable());
    assert!(!SubmissionFailure::MalformedTransaction.is_retryable());
    assert!(!SubmissionFailure::ChainIdMismatch.is_retryable());
    assert!(!SubmissionFailure::Rejected.is_retryable());
}

#[test]
fn backoff_doubles_up_to_the_longest_delay() {
    let policy = policy();
    assert_eq!(policy.backoff_ms(0), 100);
    assert_eq!(policy.backoff_ms(1), 200);
    assert_eq!(policy.backoff_ms(2), 350);
    assert_eq!(policy.backoff_ms(3), 350);
    assert_eq!(policy.backoff_ms(1000), 350);

    let capped = RetryPolicy { max_retries: 1, initial_delay_ms: 500, max_delay_ms: 60 };
    assert_eq!(capped.backoff_ms(0), 60);
    assert_eq!(capped.backoff_ms(5), 60);

    let none = RetryPolicy { max_retries: 1, initial_delay_ms: 0, max_delay_ms: 60 };
    assert_eq!(none.backoff_ms(0), 0);
    assert_eq!(none.backoff_ms(9), 0);

    let huge = RetryPolicy { max_retries: 1, initial_delay_ms: 1, max_delay_ms: u64::MAX };
    assert_eq!(huge.backoff_ms(10), 1024);
    assert_eq!(huge.backoff_ms(63), 1 << 63);
    assert_eq!(huge.backoff_ms(64), u64::MAX);
    assert_eq!(huge.backoff_ms(65), u64::MAX);
}

#[test]
fn submitter_submits_batches_in_the_order_received_despite_retries() {
    let mut observed: Vec<Batch<u8>> = Vec::new();
    let submitter = Submitter::new(ready(), policy());
    assert_eq!(submitter.last_inclusion(), None);

    let submission = submitter.on_batch(batch(1));
    assert_eq!(submission.chain_id(), "astria");
    assert_eq!(submission.next_sequencer_height(), 17);
    observed.push(submission.batch().clone());
    let backoff = match submission.on_verdict(Err(SubmissionFailure::Timeout)) {
        AfterVerdict::Wait(backoff) => backoff,
        _ => panic!("a timeout is followed by a retry"),
    };
    assert_eq!(backoff.delay_ms(), 100);
    let submission = backoff.on_elapsed();
    observed.push(submission.batch().clone());
    let backoff = match submission.on_verdict(Err(SubmissionFailure::Network)) {
        AfterVerdict::Wait(backoff) => backoff,
        _ => panic!("a network failure is followed by a retry"),
    };
    assert_eq!(backoff.delay_ms(), 200);
    let submission = backoff.on_elapsed();
    observed.push(submission.batch().clone());
    let submitter = match submission.on_verdict(Ok(included(40))) {
        AfterVerdict::Receive(submitter) => submitter,
        _ => panic!("an accepted batch is followed by the next"),
    };
    assert_eq!(submitter.last_inclusion(), Some(included(40)));

    let submission = submitter.on_batch(batch(2));
    observed.push(submission.batch().clone());
    let submitter = match submission.on_verdict(Ok(included(41))) {
        AfterVerdict::Receive(submitter) => submitter,
        _ => panic!("an accepted batch is followed by the next"),
    };

    let submission = submitter.on_batch(batch(3));
    observed.push(submission.batch().clone());
    let submitter = match submission.on_verdict(Ok(included(42))) {
        AfterVerdict::Receive(submitter) => submitter,
        _ => panic!("an accepted batch is followed by the next"),
    };
    assert_eq!(submitter.last_inclusion(), Some(included(42)));

    assert_eq!(observed, vec![batch(1), batch(1), batch(1), batch(2), batch(3)]);
}

#[test]
fn submitter_stops_on_shutdown_while_waiting_for_a_batch() {
    let submitter: Submitter<Batch<u8>> = Submitter::new(ready(), policy());
    let exit = submitter.on_shutdown();
    assert_eq!(exit.reason, ExitReason::Shutdown);
    assert_eq!(exit.unsubmitted, None);
    assert_eq!(exit.last_inclusion, None);
}

#[test]
fn submitter_finishes_the_submission_under_way_before_it_shuts_down() {
    let submitter = Submitter::new(ready(), policy());
    let submission = submitter.on_batch(batch(1)).note_shutdown();
    assert_eq!(submission.batch(), &batch(1));
    let exit = match submission.on_verdict(Ok(included(40))) {
        AfterVerdict::Stop(exit) => exit,
        _ => panic!("shutdown takes effect with the verdict"),
    };
    assert_eq!(exit.reason, ExitReason::Shutdown);
    assert_eq!(exit.unsubmitted, None);
    assert_eq!(exit.last_inclusion, Some(included(40)));
}

#[test]
fn submitter_does_not_retry_once_shutdown_was_requested() {
    let submitter = Submitter::new(ready(), policy());
    let submission = submitter.on_batch(batch(1)).note_shutdown();
    let exit = match submission.on_verdict(Err(SubmissionFailure::Timeout)) {
        AfterVerdict::Stop(exit) => exit,
        _ => panic!("shutdown takes effect with the verdict"),
    };
    assert_eq!(exit.reason, ExitReason::Shutdown);
    assert_eq!(exit.unsubmitted, Some(batch(1)));

    let submitter = Submitter::new(ready(), policy());
    let backoff = match submitter.on_batch(batch(2)).on_verdict(Err(SubmissionFailure::Network)) {
        AfterVerdict::Wait(backoff) => backoff,
        _ => panic!("a network failure is followed by a retry"),
    };
    let exit = backoff.on_shutdown();
    assert_eq!(exit.reason, ExitReason::Shutdown);
    assert_eq!(exit.unsubmitted, Some(batch(2)));
    assert_eq!(exit.last_inclusion, None);
}

#[test]
fn submitter_stops_when_the_queue_is_closed() {
    let submitter: Submitter<Batch<u8>> = Submitter::new(ready(), policy());
    let exit = submitter.on_queue_closed();
    assert_eq!(exit.reason, ExitReason::QueueClosed);
    assert_eq!(exit.unsubmitted, None);
}

#[test]
fn submitter_halts_on_a_fatal_failure_and_hands_the_batch_back() {
    for failure in [
        SubmissionFailure::MalformedTransaction,
        SubmissionFailure::ChainIdMismatch,
        SubmissionFailure::Rejected,
    ] {
        let submitter = Submitter::new(ready(), policy());
        let exit = match submitter.on_batch(batch(5)).on_verdict(Err(failure)) {
            AfterVerdict::Stop(exit) => exit,
            _ => panic!("a fatal failure stops the submitter"),
        };
        assert_eq!(exit.reason, ExitReason::Fatal(failure));
        assert_eq!(exit.unsubmitted, Some(batch(5)));
        assert_eq!(exit.last_inclusion, None);

        let submitter = Submitter::new(ready(), policy());
        let exit = match submitter.on_batch(batch(5)).note_shutdown().on_verdict(Err(failure)) {
            AfterVerdict::Stop(exit) => exit,
            _ => panic!("a fatal failure stops the submitter"),
        };
        assert_eq!(exit.reason, ExitReason::Fatal(failure));
    }
}

#[test]
fn submitter_gives_up_when_the_retry_budget_is_spent() {
    let submitter = Submitter::new(ready(), policy());
    let mut submission = submitter.on_batch(batch(1));
    let mut delays = Vec::new();
    let exit = loop {
        match submission.on_verdict(Err(SubmissionFailure::Timeout)) {
            AfterVerdict::Wait(backoff) => {
                delays.push(backoff.delay_ms());
                submission = backoff.on_elapsed();
                assert_eq!(submission.batch(), &batch(1));
            }
            AfterVerdict::Stop(exit) => break exit,
            AfterVerdict::Receive(_) => panic!("a failed batch is not passed over"),
        }
    };
    assert_eq!(delays, vec![100, 200, 350]);
    assert_eq!(exit.reason, ExitReason::RetriesExhausted(SubmissionFailure::Timeout));
    assert_eq!(exit.unsubmitted, Some(batch(1)));

    let never = RetryPolicy { max_retries: 0, initial_delay_ms: 1, max_delay_ms: 1 };
    let submitter = Submitter::new(ready(), never);
    let exit = match submitter.on_batch(batch(1)).on_verdict(Err(SubmissionFailure::Network)) {
        AfterVerdict::Stop(exit) => exit,
        _ => panic!("no retry is left"),
    };
    assert_eq!(exit.reason, ExitReason::RetriesExhausted(SubmissionFailure::Network));
}

#[test]
fn submitter_keeps_its_commitment_state_when_an_update_is_invalid() {
    let mut submitter: Submitter<Batch<u8>> = Submitter::new(ready(), policy());
    assert_eq!(submitter.commitment_state().next_sequencer_height(), 17);

    let err = submitter.replace_commitment_state(&commitment(9, 4, 99)).unwrap_err();
    assert_eq!(
        err,
        CommitmentStateError(CommitmentStateErrorKind::FirmExceedsSoft(FirmExceedsSoft {
            firm: 9,
            soft: 4
        }))
    );
    assert_eq!(submitter.commitment_state().next_sequencer_height(), 17);
    assert_eq!(submitter.commitment_state().firm().number(), 2);
    assert_eq!(submitter.commitment_state().soft().number(), 4);

    submitter.replace_commitment_state(&commitment(3, 6, 18)).unwrap();
    assert_eq!(submitter.commitment_state().next_sequencer_height(), 18);
    assert_eq!(submitter.commitment_state().firm().number(), 3);
    assert_eq!(submitter.commitment_state().soft().number(), 6);

    let submission = submitter.on_batch(batch(1));
    assert_eq!(submission.next_sequencer_height(), 18);
}

#[test]
fn only_a_requested_shutdown_is_no_failure() {
    assert!(!ExitReason::Shutdown.is_failure());
    assert!(ExitReason::QueueClosed.is_failure());
    assert!(ExitReason::Fatal(SubmissionFailure::Rejected).is_failure());
    assert!(ExitReason::RetriesExhausted(SubmissionFailure::Timeout).is_failure());
}

#[test]
fn exits_are_reported_in_words() {
    assert_eq!(ExitReason::Shutdown.message(), "shutdown was requested");
    assert_eq!(ExitReason::QueueClosed.message(), "the batch queue was closed");
    assert_eq!(
        ExitReason::Fatal(SubmissionFailure::MalformedTransaction).message(),
        "a batch was refused for good: the sequencer could not read the transaction"
    );
    assert_eq!(
        ExitReason::Fatal(SubmissionFailure::ChainIdMismatch).message(),
        "a batch was refused for good: the transaction names a chain that the sequencer does \
         not serve"
    );
    assert_eq!(
        ExitReason::Fatal(SubmissionFailure::Rejected).message(),
        "a batch was refused for good: the sequencer rejected the transaction"
    );
    assert_eq!(
        ExitReason::RetriesExhausted(SubmissionFailure::Network).message(),
        "a batch failed after the last retry: the connection to the sequencer failed"
    );
    assert_eq!(
        ExitReason::RetriesExhausted(SubmissionFailure::Timeout).message(),
        "a batch failed after the last retry: the sequencer did not answer in time"
    );
}

//! The decisions of the withdrawal submitter.
//!
//! The submitter takes batches from a bounded queue and submits them to
//! the sequencer one at a time, in the order in which it took them. Waiting
//! (for a batch, for the sequencer, for a retry delay, for shutdown) is the
//! caller's work. What to do once the wait is over is decided here.
//!
//! Three types stand for the three things a submitter can be waiting for:
//!
//! - [`Submitter`]: for the next batch, for shutdown, or for the queue to
//!   close;
//! - [`Submission`]: for the sequencer's verdict on the batch in flight;
//! - [`Backoff`]: for the delay before that batch is tried again, or for
//!   shutdown.
//!
//! Each method consumes the value it is called on and returns what comes
//! next, so at most one batch is in flight, and a new batch can only be taken
//! once the one before it was accepted. A submitter can only be made from a
//! completed [`StartupInfo`].
//!
//! For reasoning, every value carries a log of the batches taken and of the
//! submissions begun. The log is not compiled; it is what the order
//! guarantee [`Log::submissions_follow_receipt`] is stated over.

use vstd::prelude::*;
use vstd::string::StringExecFns;

use crate::execution::{
    commitment_state_from_raw, CommitmentState, CommitmentStateError, CommitmentStateView,
};
use crate::raw;
use crate::startup::StartupInfo;

verus! {

/// How many batches the queue into the submitter holds before a sender
/// has to wait.
pub const BATCH_QUEUE_SIZE: usize = 256;

/// Withdrawal actions observed on the rollup between two of its blocks.
#[derive(Clone, Debug, PartialEq, Eq)]
pub struct Batch<Action> {
    pub actions: Vec<Action>,
    pub first_rollup_height: u64,
    pub last_rollup_height: u64,
}

/// Why the sequencer did not take a transaction.
#[derive(Clone, Copy, Debug, PartialEq, Eq)]
pub enum SubmissionFailure {
    /// The connection failed before an answer arrived.
    Network,
    /// No answer arrived in time.
    Timeout,
    /// The sequencer could not read the transaction.
    MalformedTransaction,
    /// The transaction names another chain than the sequencer serves.
    ChainIdMismatch,
    /// The sequencer read the transaction and will never include it.
    Rejected,
}

impl SubmissionFailure {
    /// A failure is worth another attempt if it came from the transport
    /// and says nothing about the transaction.
    pub open spec fn retryable(self) -> bool {
        self is Network || self is Timeout
    }

    #[verifier::when_used_as_spec(retryable)]
    pub fn is_retryable(self) -> (retry: bool)
        ensures
            retry == self.retryable(),
    {
        match self {
            SubmissionFailure::Network => true,
            SubmissionFailure::Timeout => true,
            SubmissionFailure::MalformedTransaction => false,
            SubmissionFailure::ChainIdMismatch => false,
            SubmissionFailure::Rejected => false,
        }
    }
}

impl SubmissionFailure {
    /// The words that name this failure in a report.
    pub open spec fn message_text(self) -> Seq<char> {
        match self {
            SubmissionFailure::Network => "the connection to the sequencer failed"@,
            SubmissionFailure::Timeout => "the sequencer did not answer in time"@,
            SubmissionFailure::MalformedTransaction => {
                "the sequencer could not read the transaction"@
            },
            SubmissionFailure::ChainIdMismatch => {
                "the transaction names a chain that the sequencer does not serve"@
            },
            SubmissionFailure::Rejected => "the sequencer rejected the transaction"@,
        }
    }

    pub fn message(self) -> (text: String)
        ensures
            text@ == self.message_text(),
    {
        match self {
            SubmissionFailure::Network => String::from_str(
                "the connection to the sequencer failed",
            ),
            SubmissionFailure::Timeout => String::from_str("the sequencer did not answer in time"),
            SubmissionFailure::MalformedTransaction => String::from_str(
                "the sequencer could not read the transaction",
            ),
            SubmissionFailure::ChainIdMismatch => String::from_str(
                "the transaction names a chain that the sequencer does not serve",
            ),
            SubmissionFailure::Rejected => String::from_str(
                "the sequencer rejected the transaction",
            ),
        }
    }
}

/// Where the sequencer included a transaction.
#[derive(Clone, Copy, Debug, PartialEq, Eq)]
pub struct Inclusion {
    pub height: u64,
    pub tx_hash: [u8; 32],
}

/// How often and how patiently a failed submission is tried again.
#[derive(Clone, Copy, Debug, PartialEq, Eq)]
pub struct RetryPolicy {
    /// How many times one batch may be tried again after its first
    /// attempt.
    pub max_retries: u32,
    /// The delay before the first retry, in milliseconds.
    pub initial_delay_ms: u64,
    /// The longest delay before any retry, in milliseconds.
    pub max_delay_ms: u64,
}

impl RetryPolicy {
    /// The delay before retry number `retry`, counted from zero: the
    /// initial delay doubled once per earlier retry, and never more than the
    /// longest delay.
    pub open spec fn delay_ms(self, retry: nat) -> nat
        decreases retry,
    {
        if retry == 0 {
            if self.initial_delay_ms <= self.max_delay_ms {
                self.initial_delay_ms as nat
            } else {
                self.max_delay_ms as nat
            }
        } else {
            let before = self.delay_ms((retry - 1) as nat);
            if 2 * before <= self.max_delay_ms {
                2 * before
            } else {
                self.max_delay_ms as nat
            }
        }
    }

    /// No delay exceeds the longest delay.
    pub proof fn lemma_delay_is_bounded(self, retry: nat)
        ensures
            self.delay_ms(retry) <= self.max_delay_ms,
        decreases retry,
    {
        if retry > 0 {
            self.lemma_delay_is_bounded((retry - 1) as nat);
        }
    }

    /// Computes the delay before retry number `retry`.
    pub fn backoff_ms(&self, retry: u32) -> (delay: u64)
        ensures
            delay == self.delay_ms(retry as nat),
            delay <= self.max_delay_ms,
    {
        let mut delay: u64 = if self.initial_delay_ms <= self.max_delay_ms {
            self.initial_delay_ms
        } else {
            self.max_delay_ms
        };
        let mut done: u32 = 0;
        while done < retry
            invariant
                done <= retry,
                delay == self.delay_ms(done as nat),
                delay <= self.max_delay_ms,
            decreases retry - done,
        {
            delay = if delay <= self.max_delay_ms / 2 {
                2 * delay
            } else {
                self.max_delay_ms
            };
            done += 1;
        }
        delay
    }
}

/// One submission begun: the batch, and its place in the order of
/// receipt, counted from zero.
pub struct Attempt<B> {
    pub batch_index: nat,
    pub batch: B,
}

/// What a submitter has done so far: the batches it took from the queue,
/// in order; the submissions it began, in order, retries included; and how
/// many batches the sequencer accepted.
pub struct Log<B> {
    pub received: Seq<B>,
    pub attempts: Seq<Attempt<B>>,
    pub accepted: nat,
}

impl<B> Log<B> {
    /// The log of a submitter that has done nothing.
    pub open spec fn empty() -> Self {
        Log { received: Seq::empty(), attempts: Seq::empty(), accepted: 0 }
    }

    /// The log after a batch was taken and its first submission begun.
    pub open spec fn took(self, batch: B) -> Self {
        Log {
            received: self.received.push(batch),
            attempts: self.attempts.push(Attempt { batch_index: self.received.len(), batch }),
            accepted: self.accepted,
        }
    }

    /// The log after another submission of the last batch taken was
    /// begun.
    pub open spec fn retried(self) -> Self
        recommends
            self.received.len() > 0,
    {
        Log {
            received: self.received,
            attempts: self.attempts.push(
                Attempt {
                    batch_index: (self.received.len() - 1) as nat,
                    batch: self.received.last(),
                },
            ),
            accepted: self.accepted,
        }
    }

    /// The log after the sequencer accepted the batch in flight.
    pub open spec fn accepted_one(self) -> Self {
        Log { received: self.received, attempts: self.attempts, accepted: self.accepted + 1 }
    }

    /// Every submission is of a batch that was taken, and of no batch
    /// later than the first one not yet accepted.
    pub open spec fn attempts_are_of_received(self) -> bool {
        forall|k: int|
            0 <= k < self.attempts.len() ==> {
                let attempt = #[trigger] self.attempts[k];
                &&& attempt.batch_index < self.received.len()
                &&& attempt.batch_index <= self.accepted
                &&& attempt.batch == self.received[attempt.batch_index as int]
            }
    }

    /// Submissions are begun in the order in which their batches were
    /// taken: a later submission is never of an earlier batch.
    pub open spec fn attempts_are_ordered(self) -> bool {
        forall|j: int, k: int|
            0 <= j <= k < self.attempts.len() ==> (#[trigger] self.attempts[j]).batch_index <= (
            #[trigger] self.attempts[k]).batch_index
    }

    /// A submission of the batch at the given place was begun.
    pub open spec fn was_attempted(self, batch_index: nat) -> bool {
        exists|k: int|
            0 <= k < self.attempts.len() && (#[trigger] self.attempts[k]).batch_index
                == batch_index
    }

    /// Every accepted batch was submitted: none was skipped.
    pub open spec fn accepted_were_attempted(self) -> bool {
        forall|i: nat| i < self.accepted ==> #[trigger] self.was_attempted(i)
    }

    /// The batches are submitted strictly in the order received: all
    /// three statements above hold, and only batches that were taken can have
    /// been accepted.
    pub open spec fn submissions_follow_receipt(self) -> bool {
        &&& self.accepted <= self.received.len()
        &&& self.attempts_are_of_received()
        &&& self.attempts_are_ordered()
        &&& self.accepted_were_attempted()
    }

    /// Nothing is in flight: every batch taken was accepted.
    pub open spec fn settled(self) -> bool {
        self.accepted == self.received.len()
    }

    /// The given batch is in flight: it is the last one taken, the only
    /// one not yet accepted, and the last submission begun was of it.
    pub open spec fn in_flight(self, batch: B) -> bool {
        &&& self.received.len() == self.accepted + 1
        &&& self.received.last() == batch
        &&& self.attempts.len() > 0
        &&& self.attempts.last().batch_index == self.accepted
    }

    /// A submitter that has done nothing has kept the order, and has
    /// nothing in flight.
    pub proof fn lemma_empty_follows_receipt()
        ensures
            Self::empty().submissions_follow_receipt(),
            Self::empty().settled(),
    {
    }

    /// Taking a batch while nothing is in flight keeps the order, and
    /// puts that batch in flight.
    pub proof fn lemma_took_follows_receipt(self, batch: B)
        requires
            self.submissions_follow_receipt(),
            self.settled(),
        ensures
            self.took(batch).submissions_follow_receipt(),
            self.took(batch).in_flight(batch),
    {
        let after = self.took(batch);
        assert forall|i: nat| i < after.accepted implies #[trigger] after.was_attempted(i) by {
            assert(self.was_attempted(i));
            let k = choose|k: int|
                0 <= k < self.attempts.len() && (#[trigger] self.attempts[k]).batch_index == i;
            assert(after.attempts[k].batch_index == i);
        }
    }

    /// Beginning another submission of the batch in flight keeps the
    /// order, and that batch in flight.
    pub proof fn lemma_retried_follows_receipt(self, batch: B)
        requires
            self.submissions_follow_receipt(),
            self.in_flight(batch),
        ensures
            self.retried().submissions_follow_receipt(),
            self.retried().in_flight(batch),
    {
        let after = self.retried();
        assert forall|i: nat| i < after.accepted implies #[trigger] after.was_attempted(i) by {
            assert(self.was_attempted(i));
            let k = choose|k: int|
                0 <= k < self.attempts.len() && (#[trigger] self.attempts[k]).batch_index == i;
            assert(after.attempts[k].batch_index == i);
        }
    }

    /// Acceptance of the batch in flight keeps the order, and leaves
    /// nothing in flight.
    pub proof fn lemma_accepted_follows_receipt(self, batch: B)
        requires
            self.submissions_follow_receipt(),
            self.in_flight(batch),
        ensures
            self.accepted_one().submissions_follow_receipt(),
            self.accepted_one().settled(),
    {
        let after = self.accepted_one();
        assert forall|i: nat| i < after.accepted implies #[trigger] after.was_attempted(i) by {
            if i < self.accepted {
                assert(self.was_attempted(i));
                let k = choose|k: int|
                    0 <= k < self.attempts.len() && (#[trigger] self.attempts[k]).batch_index == i;
                assert(after.attempts[k].batch_index == i);
            } else {
                let last = self.attempts.len() - 1;
                assert(after.attempts[last].batch_index == i);
            }
        }
    }

    /// Where submissions follow receipt, the batches submitted, read in
    /// the order of submission, are the batches received, read in the order
    /// of receipt, each one repeated as often as it was tried: of two
    /// submissions the later one is of the same batch or of one received
    /// later.
    pub proof fn lemma_later_submission_is_of_later_batch(self, earlier: int, later: int)
        requires
            self.submissions_follow_receipt(),
            0 <= earlier <= later < self.attempts.len(),
        ensures
            self.attempts[earlier].batch_index <= self.attempts[later].batch_index,
            self.attempts[earlier].batch == self.received[self.attempts[earlier].batch_index as int],
            self.attempts[later].batch == self.received[self.attempts[later].batch_index as int],
    {
    }
}

/// Why a submitter stopped.
#[derive(Clone, Copy, Debug, PartialEq, Eq)]
pub enum ExitReason {
    /// Shutdown was requested.
    Shutdown,
    /// The queue was closed: no batch can arrive any more.
    QueueClosed,
    /// The sequencer refused a batch for good.
    Fatal(SubmissionFailure),
    /// A batch failed once more than the policy lets it be retried.
    RetriesExhausted(SubmissionFailure),
}

impl ExitReason {
    /// A submitter that stops for any reason but a requested shutdown has
    /// failed: withdrawals may be left unsubmitted, and the node must not go
    /// on as if nothing had happened.
    pub open spec fn failed(self) -> bool {
        !(self is Shutdown)
    }

    #[verifier::when_used_as_spec(failed)]
    pub fn is_failure(self) -> (failed: bool)
        ensures
            failed == self.failed(),
    {
        match self {
            ExitReason::Shutdown => false,
            ExitReason::QueueClosed => true,
            ExitReason::Fatal(_) => true,
            ExitReason::RetriesExhausted(_) => true,
        }
    }

    /// The sentence that reports this exit.
    pub open spec fn message_text(self) -> Seq<char> {
        match self {
            ExitReason::Shutdown => "shutdown was requested"@,
            ExitReason::QueueClosed => "the batch queue was closed"@,
            ExitReason::Fatal(failure) => {
                "a batch was refused for good: "@ + failure.message_text()
            },
            ExitReason::RetriesExhausted(failure) => {
                "a batch failed after the last retry: "@ + failure.message_text()
            },
        }
    }

    pub fn message(self) -> (text: String)
        ensures
            text@ == self.message_text(),
    {
        match self {
            ExitReason::Shutdown => String::from_str("shutdown was requested"),
            ExitReason::QueueClosed => String::from_str("the batch queue was closed"),
            ExitReason::Fatal(failure) => {
                let mut text = String::from_str("a batch was refused for good: ");
                text.append(failure.message().as_str());
                text
            },
            ExitReason::RetriesExhausted(failure) => {
                let mut text = String::from_str("a batch failed after the last retry: ");
                text.append(failure.message().as_str());
                text
            },
        }
    }
}

/// What is left of a submitter that stopped: the reason, the batch that
/// was in flight and not accepted, if there was one, and where the last
/// accepted batch was included.
pub struct Exit<B> {
    pub reason: ExitReason,
    pub unsubmitted: Option<B>,
    pub last_inclusion: Option<Inclusion>,
}

/// What every stage of a submitter holds.
struct Context {
    chain_id: String,
    commitment_state: CommitmentState,
    policy: RetryPolicy,
    last_inclusion: Option<Inclusion>,
}

/// What every stage of a submitter holds: the chain that transactions
/// are built for, the commitment state last accepted, the retry policy, and
/// where the last accepted batch was included.
pub struct ContextView {
    pub chain_id: Seq<char>,
    pub commitment_state: CommitmentStateView,
    pub policy: RetryPolicy,
    pub last_inclusion: Option<Inclusion>,
}

impl View for Context {
    type V = ContextView;

    closed spec fn view(&self) -> ContextView {
        ContextView {
            chain_id: self.chain_id@,
            commitment_state: self.commitment_state@,
            policy: self.policy,
            last_inclusion: self.last_inclusion,
        }
    }
}

/// A submitter with nothing in flight. It waits for the next batch, for
/// shutdown, or for the queue to close.
pub struct Submitter<B> {
    context: Context,
    log: Ghost<Log<B>>,
}

/// A submitter with a submission under way. It waits for the sequencer's
/// verdict.
pub struct Submission<B> {
    context: Context,
    batch: B,
    next_sequencer_height: u32,
    retries: u32,
    shutdown_noted: bool,
    log: Ghost<Log<B>>,
}

/// A submitter whose last submission failed for a reason that may pass.
/// It waits for the delay before the next attempt, or for shutdown.
pub struct Backoff<B> {
    context: Context,
    batch: B,
    next_sequencer_height: u32,
    retries: u32,
    log: Ghost<Log<B>>,
}

/// What a submitter does after the sequencer's verdict.
pub enum AfterVerdict<B> {
    /// The batch was accepted: the next batch may be taken.
    Receive(Submitter<B>),
    /// The submission failed for a reason that may pass: it is tried
    /// again after a delay.
    Wait(Backoff<B>),
    /// The submitter stops.
    Stop(Exit<B>),
}

impl<B> Submitter<B> {
    #[verifier::type_invariant]
    spec fn inv(self) -> bool {
        &&& self.log@.submissions_follow_receipt()
        &&& self.log@.settled()
    }

    /// What this submitter has done so far.
    pub closed spec fn log(self) -> Log<B> {
        self.log@
    }

    /// What this submitter works with.
    pub closed spec fn context(self) -> ContextView {
        self.context@
    }

    /// A submitter that has done nothing yet, for the chain and the
    /// commitment state that the handshake established.
    pub fn new(info: StartupInfo, policy: RetryPolicy) -> (submitter: Self)
        ensures
            submitter.log() == Log::<B>::empty(),
            submitter.log().submissions_follow_receipt(),
            submitter.log().settled(),
            submitter.context() == (ContextView {
                chain_id: info@.chain_id,
                commitment_state: info@.commitment_state,
                policy,
                last_inclusion: None,
            }),
    {
        let (_, commitment_state, chain_id) = info.into_parts();
        Submitter {
            context: Context { chain_id, commitment_state, policy, last_inclusion: None },
            log: Ghost(Log::empty()),
        }
    }

    /// The commitment state last accepted.
    pub fn commitment_state(&self) -> (state: &CommitmentState)
        ensures
            state@ == self.context().commitment_state,
    {
        &self.context.commitment_state
    }

    /// Where the last accepted batch was included.
    pub fn last_inclusion(&self) -> (inclusion: Option<Inclusion>)
        ensures
            inclusion == self.context().last_inclusion,
    {
        self.context.last_inclusion
    }

    /// Takes a received commitment state in place of the current one if
    /// it is valid. If it is not, the current one stays and the fault is
    /// returned.
    pub fn replace_commitment_state(&mut self, update: &raw::execution::CommitmentState) -> (res:
        Result<(), CommitmentStateError>)
        ensures
            final(self).log() == old(self).log(),
            match res {
                Ok(()) => {
                    &&& commitment_state_from_raw(update@) matches Ok(state)
                    &&& final(self).context() == (ContextView {
                        commitment_state: state,
                        ..old(self).context()
                    })
                },
                Err(e) => {
                    &&& commitment_state_from_raw(update@) matches Err(fault)
                    &&& e == fault
                    &&& final(self).context() == old(self).context()
                },
            },
    {
        proof {
            use_type_invariant(&*self);
        }
        match CommitmentState::try_from_raw_ref(update) {
            Ok(state) => {
                self.context.commitment_state = state;
                Ok(())
            },
            Err(e) => Err(e),
        }
    }

    /// Takes the next batch from the queue and begins its submission,
    /// for the next sequencer height of the current commitment state.
    pub fn on_batch(self, batch: B) -> (submission: Submission<B>)
        ensures
            submission.log() == self.log().took(batch),
            submission.log().submissions_follow_receipt(),
            submission.log().in_flight(batch),
            submission.context() == self.context(),
            submission.in_flight() == batch,
            submission.target_height() == self.context().commitment_state.next_sequencer_height,
            submission.retries_made() == 0,
            !submission.shutdown_pending(),
    {
        proof {
            use_type_invariant(&self);
            self.log@.lemma_took_follows_receipt(batch);
        }
        let next_sequencer_height = self.context.commitment_state.next_sequencer_height();
        let ghost log = self.log@.took(batch);
        Submission {
            context: self.context,
            batch,
            next_sequencer_height,
            retries: 0,
            shutdown_noted: false,
            log: Ghost(log),
        }
    }

    /// Stops because shutdown was requested while waiting for a batch.
    /// No batch is in flight, and none is taken any more.
    pub fn on_shutdown(self) -> (exit: Exit<B>)
        ensures
            exit.reason == ExitReason::Shutdown,
            exit.unsubmitted is None,
            exit.last_inclusion == self.context().last_inclusion,
    {
        Exit {
            reason: ExitReason::Shutdown,
            unsubmitted: None,
            last_inclusion: self.context.last_inclusion,
        }
    }

    /// Stops because the queue was closed.
    pub fn on_queue_closed(self) -> (exit: Exit<B>)
        ensures
            exit.reason == ExitReason::QueueClosed,
            exit.unsubmitted is None,
            exit.last_inclusion == self.context().last_inclusion,
    {
        Exit {
            reason: ExitReason::QueueClosed,
            unsubmitted: None,
            last_inclusion: self.context.last_inclusion,
        }
    }
}

/// What a submitter does after a verdict, as a choice.
pub enum Decision {
    /// Take the next batch.
    Receive,
    /// Try the batch in flight again after this many milliseconds.
    Wait(u64),
    /// Stop for this reason.
    Stop(ExitReason),
}

/// The decision after a verdict.
///
/// An accepted batch lets the next one be taken. A failure that may pass
/// is followed by another attempt, after the delay that the policy gives
/// for it, as long as the policy allows one more. Any other failure stops
/// the submitter, as does a failure when no retry is left. A shutdown
/// request that arrived while the submission was under way takes effect
/// now, unless the failure is one that stops the submitter anyway.
pub open spec fn decide(
    policy: RetryPolicy,
    retries: u32,
    shutdown_noted: bool,
    verdict: Result<Inclusion, SubmissionFailure>,
) -> Decision {
    match verdict {
        Ok(_) => if shutdown_noted {
            Decision::Stop(ExitReason::Shutdown)
        } else {
            Decision::Receive
        },
        Err(failure) => if !failure.retryable() {
            Decision::Stop(ExitReason::Fatal(failure))
        } else if shutdown_noted {
            Decision::Stop(ExitReason::Shutdown)
        } else if retries < policy.max_retries {
            Decision::Wait(policy.delay_ms(retries as nat) as u64)
        } else {
            Decision::Stop(ExitReason::RetriesExhausted(failure))
        },
    }
}

impl<B> Submission<B> {
    #[verifier::type_invariant]
    spec fn inv(self) -> bool {
        &&& self.log@.submissions_follow_receipt()
        &&& self.log@.in_flight(self.batch)
        &&& self.retries <= self.context.policy.max_retries
    }

    /// What this submitter has done so far.
    pub closed spec fn log(self) -> Log<B> {
        self.log@
    }

    /// What this submitter works with.
    pub closed spec fn context(self) -> ContextView {
        self.context@
    }

    /// The batch whose submission is under way.
    pub closed spec fn in_flight(self) -> B {
        self.batch
    }

    /// The sequencer height that the transaction is built for.
    pub closed spec fn target_height(self) -> u32 {
        self.next_sequencer_height
    }

    /// How many times this batch was tried again.
    pub closed spec fn retries_made(self) -> u32 {
        self.retries
    }

    /// Whether shutdown was requested since the batch was taken.
    pub closed spec fn shutdown_pending(self) -> bool {
        self.shutdown_noted
    }

    /// The batch to sign and submit. It is the last batch taken, and
    /// every batch taken before it was accepted.
    pub fn batch(&self) -> (batch: &B)
        ensures
            *batch == self.in_flight(),
            self.log().submissions_follow_receipt(),
            self.log().in_flight(*batch),
    {
        proof {
            use_type_invariant(self);
        }
        &self.batch
    }

    /// The chain that the transaction is built and signed for.
    pub fn chain_id(&self) -> (chain_id: &String)
        ensures
            chain_id@ == self.context().chain_id,
    {
        &self.context.chain_id
    }

    /// The sequencer height that the transaction is built for.
    pub fn next_sequencer_height(&self) -> (height: u32)
        ensures
            height == self.target_height(),
    {
        self.next_sequencer_height
    }

    /// Records that shutdown was requested. The submission under way is
    /// left to finish; the request takes effect with its verdict.
    pub fn note_shutdown(self) -> (submission: Submission<B>)
        ensures
            submission.log() == self.log(),
            submission.log().submissions_follow_receipt(),
            submission.log().in_flight(self.in_flight()),
            submission.context() == self.context(),
            submission.in_flight() == self.in_flight(),
            submission.target_height() == self.target_height(),
            submission.retries_made() == self.retries_made(),
            submission.shutdown_pending(),
    {
        proof {
            use_type_invariant(&self);
        }
        Submission {
            context: self.context,
            batch: self.batch,
            next_sequencer_height: self.next_sequencer_height,
            retries: self.retries,
            shutdown_noted: true,
            log: self.log,
        }
    }

    /// Takes the sequencer's verdict on the submission under way and
    /// does what [`decide`] says.
    ///
    /// On acceptance the log counts one more accepted batch and the place
    /// of inclusion is kept. Before a retry nothing changes. A submitter that
    /// stops hands back the batch unless it was accepted.
    pub fn on_verdict(self, verdict: Result<Inclusion, SubmissionFailure>) -> (next: AfterVerdict<B>)
        ensures
            match decide(
                self.context().policy,
                self.retries_made(),
                self.shutdown_pending(),
                verdict,
            ) {
                Decision::Receive => {
                    &&& next matches AfterVerdict::Receive(submitter)
                    &&& verdict matches Ok(inclusion)
                    &&& submitter.log() == self.log().accepted_one()
                    &&& submitter.log().submissions_follow_receipt()
                    &&& submitter.log().settled()
                    &&& submitter.context() == (ContextView {
                        last_inclusion: Some(inclusion),
                        ..self.context()
                    })
                },
                Decision::Wait(delay_ms) => {
                    &&& next matches AfterVerdict::Wait(backoff)
                    &&& backoff.log() == self.log()
                    &&& backoff.log().submissions_follow_receipt()
                    &&& backoff.log().in_flight(self.in_flight())
                    &&& backoff.context() == self.context()
                    &&& backoff.in_flight() == self.in_flight()
                    &&& backoff.target_height() == self.target_height()
                    &&& backoff.retries_made() == self.retries_made()
                    &&& backoff.delay() == delay_ms
                },
                Decision::Stop(reason) => {
                    &&& next matches AfterVerdict::Stop(exit)
                    &&& exit.reason == reason
                    &&& match verdict {
                        Ok(inclusion) => {
                            &&& exit.unsubmitted is None
                            &&& exit.last_inclusion == Some(inclusion)
                        },
                        Err(_) => {
                            &&& exit.unsubmitted == Some(self.in_flight())
                            &&& exit.last_inclusion == self.context().last_inclusion
                        },
                    }
                },
            },
    {
        proof {
            use_type_invariant(&self);
            self.log@.lemma_accepted_follows_receipt(self.batch);
        }
        match verdict {
            Ok(inclusion) => {
                if self.shutdown_noted {
                    AfterVerdict::Stop(
                        Exit {
                            reason: ExitReason::Shutdown,
                            unsubmitted: None,
                            last_inclusion: Some(inclusion),
                        },
                    )
                } else {
                    let ghost log = self.log@.accepted_one();
                    let Context { chain_id, commitment_state, policy, last_inclusion: _ } =
                        self.context;
                    AfterVerdict::Receive(
                        Submitter {
                            context: Context {
                                chain_id,
                                commitment_state,
                                policy,
                                last_inclusion: Some(inclusion),
                            },
                            log: Ghost(log),
                        },
                    )
                }
            },
            Err(failure) => {
                let reason = if !failure.is_retryable() {
                    ExitReason::Fatal(failure)
                } else if self.shutdown_noted {
                    ExitReason::Shutdown
                } else if self.retries < self.context.policy.max_retries {
                    return AfterVerdict::Wait(
                        Backoff {
                            context: self.context,
                            batch: self.batch,
                            next_sequencer_height: self.next_sequencer_height,
                            retries: self.retries,
                            log: self.log,
                        },
                    );
                } else {
                    ExitReason::RetriesExhausted(failure)
                };
                AfterVerdict::Stop(
                    Exit {
                        reason,
                        unsubmitted: Some(self.batch),
                        last_inclusion: self.context.last_inclusion,
                    },
                )
            },
        }
    }
}

impl<B> Backoff<B> {
    #[verifier::type_invariant]
    spec fn inv(self) -> bool {
        &&& self.log@.submissions_follow_receipt()
        &&& self.log@.in_flight(self.batch)
        &&& self.retries < self.context.policy.max_retries
    }

    /// What this submitter has done so far.
    pub closed spec fn log(self) -> Log<B> {
        self.log@
    }

    /// What this submitter works with.
    pub closed spec fn context(self) -> ContextView {
        self.context@
    }

    /// The batch that is to be tried again.
    pub closed spec fn in_flight(self) -> B {
        self.batch
    }

    /// The sequencer height that the transaction is built for.
    pub closed spec fn target_height(self) -> u32 {
        self.next_sequencer_height
    }

    /// How many times this batch was tried again so far.
    pub closed spec fn retries_made(self) -> u32 {
        self.retries
    }

    /// How long to wait before the next attempt, in milliseconds.
    pub closed spec fn delay(self) -> u64 {
        self.context.policy.delay_ms(self.retries as nat) as u64
    }

    /// How long to wait before the next attempt, in milliseconds: what
    /// the policy gives for this retry, which is never more than its longest
    /// delay.
    pub fn delay_ms(&self) -> (delay_ms: u64)
        ensures
            delay_ms == self.delay(),
            delay_ms == self.context().policy.delay_ms(self.retries_made() as nat),
            delay_ms <= self.context().policy.max_delay_ms,
    {
        self.context.policy.backoff_ms(self.retries)
    }

    /// The delay is over: begins another submission of the same batch.
    pub fn on_elapsed(self) -> (submission: Submission<B>)
        ensures
            submission.log() == self.log().retried(),
            submission.log().submissions_follow_receipt(),
            submission.log().in_flight(self.in_flight()),
            submission.context() == self.context(),
            submission.in_flight() == self.in_flight(),
            submission.target_height() == self.target_height(),
            submission.retries_made() == self.retries_made() + 1,
            !submission.shutdown_pending(),
    {
        proof {
            use_type_invariant(&self);
            self.log@.lemma_retried_follows_receipt(self.batch);
        }
        let ghost log = self.log@.retried();
        Submission {
            context: self.context,
            batch: self.batch,
            next_sequencer_height: self.next_sequencer_height,
            retries: self.retries + 1,
            shutdown_noted: false,
            log: Ghost(log),
        }
    }

    /// Stops because shutdown was requested during the delay. The batch
    /// is handed back: it was not accepted.
    pub fn on_shutdown(self) -> (exit: Exit<B>)
        ensures
            exit.reason == ExitReason::Shutdown,
            exit.unsubmitted == Some(self.in_flight()),
            exit.last_inclusion == self.context().last_inclusion,
    {
        Exit {
            reason: ExitReason::Shutdown,
            unsubmitted: Some(self.batch),
            last_inclusion: self.context.last_inclusion,
        }
    }
}

} // verus!

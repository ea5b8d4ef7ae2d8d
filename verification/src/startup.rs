//! The handshake that precedes all submission.
//!
//! Before a node signs or sends anything it learns, in this order, what
//! its execution client holds (genesis parameters and the last commitment
//! state) and which chain its sequencer serves. A [`Startup`] value says by
//! its type how far the handshake has come. Each step consumes the value, so
//! the handshake can only move forward; the last step yields the
//! [`StartupInfo`] that a submitter is made from. A step that fails ends the
//! handshake for good: the error is all that is left.

use vstd::prelude::*;

use crate::execution::{
    commitment_state_from_raw, genesis_info_from_raw, CommitmentState, CommitmentStateError,
    CommitmentStateView, GenesisInfo, GenesisInfoError, GenesisInfoView,
};
use crate::raw;

verus! {

/// Why the handshake did not complete.
#[derive(Clone, Debug, PartialEq, Eq)]
pub enum StartupError {
    /// The execution client did not answer; carries the transport's
    /// account of it.
    ExecutionClientUnreachable(String),
    /// The execution client's genesis parameters are not valid.
    InvalidGenesisInfo(GenesisInfoError),
    /// The execution client's commitment state is not valid.
    InvalidCommitmentState(CommitmentStateError),
    /// The sequencer did not answer; carries the transport's account of
    /// it.
    SequencerUnreachable(String),
    /// The sequencer serves another chain than the node is configured
    /// for.
    ChainIdMismatch { expected: String, actual: String },
}

/// What a [`StartupError`] holds, with texts read out.
pub enum StartupErrorView {
    ExecutionClientUnreachable(Seq<char>),
    InvalidGenesisInfo(GenesisInfoError),
    InvalidCommitmentState(CommitmentStateError),
    SequencerUnreachable(Seq<char>),
    ChainIdMismatch { expected: Seq<char>, actual: Seq<char> },
}

impl View for StartupError {
    type V = StartupErrorView;

    open spec fn view(&self) -> StartupErrorView {
        match *self {
            StartupError::ExecutionClientUnreachable(why) => {
                StartupErrorView::ExecutionClientUnreachable(why@)
            },
            StartupError::InvalidGenesisInfo(e) => StartupErrorView::InvalidGenesisInfo(e),
            StartupError::InvalidCommitmentState(e) => StartupErrorView::InvalidCommitmentState(e),
            StartupError::SequencerUnreachable(why) => StartupErrorView::SequencerUnreachable(why@),
            StartupError::ChainIdMismatch { expected, actual } => StartupErrorView::ChainIdMismatch {
                expected: expected@,
                actual: actual@,
            },
        }
    }
}

/// Nothing has been asked yet.
pub struct NotStarted;

/// The execution client has been asked for its genesis parameters and
/// commitment state.
pub struct AwaitingExecutionClient;

/// The execution client has answered; the sequencer has been asked which
/// chain it serves.
pub struct AwaitingSequencerGenesis {
    genesis_info: GenesisInfo,
    commitment_state: CommitmentState,
}

/// The handshake, as far as `Stage` says it has come.
pub struct Startup<Stage> {
    expected_chain_id: String,
    stage: Stage,
}

/// The outcome of a completed handshake: validated genesis parameters,
/// the most recent commitment state, and the chain to build transactions
/// for.
#[derive(Debug)]
pub struct StartupInfo {
    genesis_info: GenesisInfo,
    commitment_state: CommitmentState,
    chain_id: String,
}

/// What a [`StartupInfo`] holds.
pub struct StartupInfoView {
    pub genesis_info: GenesisInfoView,
    pub commitment_state: CommitmentStateView,
    pub chain_id: Seq<char>,
}

impl View for StartupInfo {
    type V = StartupInfoView;

    closed spec fn view(&self) -> StartupInfoView {
        StartupInfoView {
            genesis_info: self.genesis_info@,
            commitment_state: self.commitment_state@,
            chain_id: self.chain_id@,
        }
    }
}

impl StartupInfo {
    pub fn genesis_info(&self) -> (info: GenesisInfo)
        ensures
            info@ == self@.genesis_info,
    {
        self.genesis_info
    }

    /// The commitment state, whose firm block is numbered no higher than
    /// its soft block.
    pub fn commitment_state(&self) -> (state: &CommitmentState)
        ensures
            state@ == self@.commitment_state,
    {
        &self.commitment_state
    }

    pub fn chain_id(&self) -> (chain_id: &String)
        ensures
            chain_id@ == self@.chain_id,
    {
        &self.chain_id
    }

    /// Gives up the three parts.
    pub fn into_parts(self) -> (parts: (GenesisInfo, CommitmentState, String))
        ensures
            parts.0@ == self@.genesis_info,
            parts.1@ == self@.commitment_state,
            parts.2@ == self@.chain_id,
    {
        (self.genesis_info, self.commitment_state, self.chain_id)
    }
}

/// What the execution client said, or why it could not be reached.
pub open spec fn execution_reply_view(
    reply: Result<(raw::execution::GenesisInfo, raw::execution::CommitmentState), String>,
) -> Result<(raw::execution::GenesisInfoView, raw::execution::CommitmentStateView), Seq<char>> {
    match reply {
        Ok((genesis_info, commitment_state)) => Ok((genesis_info@, commitment_state@)),
        Err(why) => Err(why@),
    }
}

/// What the handshake makes of the execution client's answer. The
/// genesis parameters are validated first, then the commitment state; the
/// first fault found is the one reported.
pub open spec fn execution_client_outcome(
    reply: Result<(raw::execution::GenesisInfoView, raw::execution::CommitmentStateView), Seq<char>>,
) -> Result<(GenesisInfoView, CommitmentStateView), StartupErrorView> {
    match reply {
        Err(why) => Err(StartupErrorView::ExecutionClientUnreachable(why)),
        Ok((raw_genesis_info, raw_commitment_state)) => match genesis_info_from_raw(
            raw_genesis_info,
        ) {
            Err(e) => Err(StartupErrorView::InvalidGenesisInfo(e)),
            Ok(genesis_info) => match commitment_state_from_raw(raw_commitment_state) {
                Err(e) => Err(StartupErrorView::InvalidCommitmentState(e)),
                Ok(commitment_state) => Ok((genesis_info, commitment_state)),
            },
        },
    }
}

/// What the handshake makes of the sequencer's answer: the chain id it
/// reports must be the expected one.
pub open spec fn sequencer_genesis_outcome(
    expected_chain_id: Seq<char>,
    reply: Result<Seq<char>, Seq<char>>,
) -> Result<Seq<char>, StartupErrorView> {
    match reply {
        Err(why) => Err(StartupErrorView::SequencerUnreachable(why)),
        Ok(actual) => if actual == expected_chain_id {
            Ok(actual)
        } else {
            Err(StartupErrorView::ChainIdMismatch { expected: expected_chain_id, actual })
        },
    }
}

/// The view of a text that arrived, or of the reason why none did.
pub open spec fn text_reply_view(reply: Result<String, String>) -> Result<Seq<char>, Seq<char>> {
    match reply {
        Ok(text) => Ok(text@),
        Err(why) => Err(why@),
    }
}

impl<Stage> Startup<Stage> {
    /// The chain id that the node is configured for.
    pub closed spec fn expected_chain_id(self) -> Seq<char> {
        self.expected_chain_id@
    }
}

impl Startup<NotStarted> {
    /// A handshake that has not begun, for a node configured for the
    /// given chain.
    pub fn new(expected_chain_id: String) -> (startup: Self)
        ensures
            startup.expected_chain_id() == expected_chain_id@,
    {
        Self { expected_chain_id, stage: NotStarted }
    }

    /// Begins the handshake: the execution client is to be asked next.
    pub fn start(self) -> (next: Startup<AwaitingExecutionClient>)
        ensures
            next.expected_chain_id() == self.expected_chain_id(),
    {
        Startup { expected_chain_id: self.expected_chain_id, stage: AwaitingExecutionClient }
    }
}

impl Startup<AwaitingExecutionClient> {
    /// Takes the execution client's answer, or the reason why there is
    /// none, and validates it.
    pub fn on_execution_client(
        self,
        reply: Result<(raw::execution::GenesisInfo, raw::execution::CommitmentState), String>,
    ) -> (next: Result<Startup<AwaitingSequencerGenesis>, StartupError>)
        ensures
            match next {
                Ok(startup) => {
                    &&& execution_client_outcome(execution_reply_view(reply)) matches Ok(supplied)
                    &&& startup.genesis_info() == supplied.0
                    &&& startup.commitment_state() == supplied.1
                    &&& startup.expected_chain_id() == self.expected_chain_id()
                },
                Err(e) => {
                    &&& execution_client_outcome(execution_reply_view(reply)) matches Err(fault)
                    &&& e@ == fault
                },
            },
    {
        let (raw_genesis_info, raw_commitment_state) = match reply {
            Ok(pair) => pair,
            Err(why) => {
                return Err(StartupError::ExecutionClientUnreachable(why));
            },
        };
        let genesis_info = match GenesisInfo::try_from_raw_ref(&raw_genesis_info) {
            Ok(genesis_info) => genesis_info,
            Err(e) => {
                return Err(StartupError::InvalidGenesisInfo(e));
            },
        };
        let commitment_state = match CommitmentState::try_from_raw_ref(&raw_commitment_state) {
            Ok(commitment_state) => commitment_state,
            Err(e) => {
                return Err(StartupError::InvalidCommitmentState(e));
            },
        };
        Ok(
            Startup {
                expected_chain_id: self.expected_chain_id,
                stage: AwaitingSequencerGenesis { genesis_info, commitment_state },
            },
        )
    }
}

impl Startup<AwaitingSequencerGenesis> {
    /// The genesis parameters that the execution client supplied.
    pub closed spec fn genesis_info(self) -> GenesisInfoView {
        self.stage.genesis_info@
    }

    /// The commitment state that the execution client supplied.
    pub closed spec fn commitment_state(self) -> CommitmentStateView {
        self.stage.commitment_state@
    }

    /// Takes the chain id that the sequencer reports, or the reason why
    /// there is none. With the expected chain id the handshake is complete.
    pub fn on_sequencer_genesis(self, reply: Result<String, String>) -> (ready: Result<
        StartupInfo,
        StartupError,
    >)
        ensures
            match sequencer_genesis_outcome(self.expected_chain_id(), text_reply_view(reply)) {
                Ok(chain_id) => {
                    &&& ready matches Ok(info)
                    &&& info@ == (StartupInfoView {
                        genesis_info: self.genesis_info(),
                        commitment_state: self.commitment_state(),
                        chain_id,
                    })
                },
                Err(fault) => {
                    &&& ready matches Err(e)
                    &&& e@ == fault
                },
            },
    {
        let actual = match reply {
            Ok(actual) => actual,
            Err(why) => {
                return Err(StartupError::SequencerUnreachable(why));
            },
        };
        if actual != self.expected_chain_id {
            return Err(
                StartupError::ChainIdMismatch { expected: self.expected_chain_id, actual },
            );
        }
        let AwaitingSequencerGenesis { genesis_info, commitment_state } = self.stage;
        Ok(StartupInfo { genesis_info, commitment_state, chain_id: actual })
    }
}

} // verus!

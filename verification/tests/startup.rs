use astria_bridge::execution::{
    BlockError, BlockErrorKind, CommitmentStateError, CommitmentStateErrorKind, FirmExceedsSoft,
    GenesisInfoError, GenesisInfoErrorKind,
};
use astria_bridge::primitive::{IncorrectRollupIdLength, Timestamp};
use astria_bridge::raw;
use astria_bridge::startup::{Startup, StartupError};
use bytes::Bytes;

fn genesis(rollup_id_len: usize) -> raw::execution::GenesisInfo {
    raw::execution::GenesisInfo {
        rollup_id: Bytes::copy_from_slice(&vec![8u8; rollup_id_len]),
        celestia_block_variance: 5,
    }
}

fn raw_block_at(number: u32) -> raw::execution::Block {
    raw::execution::Block {
        number,
        hash: Bytes::copy_from_slice(&[number as u8; 32]),
        parent_block_hash: Bytes::copy_from_slice(&[number as u8 + 1; 32]),
        timestamp: Some(Timestamp { seconds: 100, nanos: 1 }),
    }
}

fn commitment(firm: u32, soft: u32) -> raw::execution::CommitmentState {
    raw::execution::CommitmentState {
        soft: Some(raw_block_at(soft)),
        firm: Some(raw_block_at(firm)),
        next_sequencer_height: 17,
        base_celestia_height: 300,
    }
}

#[test]
fn handshake_reaches_ready_in_order() {
    let startup = Startup::new("astria-dusk".to_string()).start();
    let startup = startup.on_execution_client(Ok((genesis(32), commitment(2, 4)))).unwrap();
    let info = startup.on_sequencer_genesis(Ok("astria-dusk".to_string())).unwrap();
    assert_eq!(info.chain_id(), "astria-dusk");
    assert_eq!(info.genesis_info().rollup_id().get(), [8u8; 32]);
    assert_eq!(info.genesis_info().celestia_block_variance(), 5);
    assert_eq!(info.commitment_state().firm().number(), 2);
    assert_eq!(info.commitment_state().soft().number(), 4);
    assert_eq!(info.commitment_state().next_sequencer_height(), 17);
    assert_eq!(info.commitment_state().base_celestia_height(), 300);

    let (genesis_info, commitment_state, chain_id) = info.into_parts();
    assert_eq!(genesis_info.celestia_block_variance(), 5);
    assert_eq!(commitment_state.next_sequencer_height(), 17);
    assert_eq!(chain_id, "astria-dusk");
}

#[test]
fn handshake_fails_when_the_execution_client_is_unreachable() {
    let startup = Startup::new("astria".to_string()).start();
    let err = match startup.on_execution_client(Err("connection refused".to_string())) {
        Err(err) => err,
        Ok(_) => panic!("an unreachable execution client ends the handshake"),
    };
    assert_eq!(err, StartupError::ExecutionClientUnreachable("connection refused".to_string()));
}

#[test]
fn handshake_fails_on_invalid_genesis_data() {
    let startup = Startup::new("astria".to_string()).start();
    let err = match startup.on_execution_client(Ok((genesis(31), commitment(9, 4)))) {
        Err(err) => err,
        Ok(_) => panic!("invalid genesis data end the handshake"),
    };
    assert_eq!(
        err,
        StartupError::InvalidGenesisInfo(GenesisInfoError(
            GenesisInfoErrorKind::IncorrectRollupIdLength(IncorrectRollupIdLength { received: 31 })
        ))
    );
}

#[test]
fn handshake_fails_on_an_invalid_commitment_state() {
    let startup = Startup::new("astria".to_string()).start();
    let err = match startup.on_execution_client(Ok((genesis(32), commitment(9, 4)))) {
        Err(err) => err,
        Ok(_) => panic!("firm above soft ends the handshake"),
    };
    assert_eq!(
        err,
        StartupError::InvalidCommitmentState(CommitmentStateError(
            CommitmentStateErrorKind::FirmExceedsSoft(FirmExceedsSoft { firm: 9, soft: 4 })
        ))
    );

    let mut state = commitment(1, 4);
    state.soft.as_mut().unwrap().timestamp = None;
    let startup = Startup::new("astria".to_string()).start();
    let err = match startup.on_execution_client(Ok((genesis(32), state))) {
        Err(err) => err,
        Ok(_) => panic!("a block without timestamp ends the handshake"),
    };
    assert_eq!(
        err,
        StartupError::InvalidCommitmentState(CommitmentStateError(
            CommitmentStateErrorKind::Soft(BlockError(BlockErrorKind::FieldNotSet(".timestamp")))
        ))
    );
}

#[test]
fn handshake_fails_when_the_sequencer_is_unreachable() {
    let startup = Startup::new("astria".to_string()).start();
    let startup = startup.on_execution_client(Ok((genesis(32), commitment(2, 4)))).unwrap();
    let err = startup.on_sequencer_genesis(Err("timed out".to_string())).unwrap_err();
    assert_eq!(err, StartupError::SequencerUnreachable("timed out".to_string()));
}

#[test]
fn handshake_fails_on_a_mismatched_chain_id() {
    let startup = Startup::new("astria".to_string()).start();
    let startup = startup.on_execution_client(Ok((genesis(32), commitment(2, 4)))).unwrap();
    let err = startup.on_sequencer_genesis(Ok("astria-2".to_string())).unwrap_err();
    assert_eq!(
        err,
        StartupError::ChainIdMismatch {
            expected: "astria".to_string(),
            actual: "astria-2".to_string()
        }
    );
}

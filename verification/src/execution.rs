//! Execution-layer blocks and the commitment state that tracks them.
//!
//! A [`CommitmentState`] pairs the block that matches the newest sequencer
//! block (soft) with the block whose data is confirmed on the
//! data-availability layer (firm). The firm block never has a higher number
//! than the soft one; every way of obtaining a state checks this once.

use bytes::Bytes;
use vstd::prelude::*;
use vstd::string::StringExecFns;

use crate::buffer::{bytes_as_slice, bytes_contents, bytes_from_slice};
use crate::outcome::viewed;
use crate::primitive::{IncorrectRollupIdLength, RollupId, Timestamp, ROLLUP_ID_LEN};
use crate::raw;
use crate::text::{decimal, decimal_text};

verus! {

/// Why received genesis parameters were refused.
#[derive(Clone, Copy, Debug, PartialEq, Eq)]
pub enum GenesisInfoErrorKind {
    IncorrectRollupIdLength(IncorrectRollupIdLength),
}

/// The error of validating a received [`raw::execution::GenesisInfo`].
#[derive(Clone, Copy, Debug, PartialEq, Eq)]
pub struct GenesisInfoError(pub GenesisInfoErrorKind);

impl GenesisInfoError {
    pub fn incorrect_rollup_id_length(inner: IncorrectRollupIdLength) -> (e: Self)
        ensures
            e == GenesisInfoError(GenesisInfoErrorKind::IncorrectRollupIdLength(inner)),
    {
        Self(GenesisInfoErrorKind::IncorrectRollupIdLength(inner))
    }

    /// The sentence that reports this error.
    pub open spec fn message_text(self) -> Seq<char> {
        "`rollup_id` field did not contain a valid rollup ID"@
    }

    pub fn message(&self) -> (text: String)
        ensures
            text@ == self.message_text(),
    {
        String::from_str("`rollup_id` field did not contain a valid rollup ID")
    }
}

/// What a rollup must supply before its execution client can start: the
/// id that marks its transactions, and how far data-availability heights
/// may vary when searching for its blocks.
#[derive(Clone, Copy, Debug)]
pub struct GenesisInfo {
    rollup_id: RollupId,
    celestia_block_variance: u32,
}

/// What a [`GenesisInfo`] holds.
pub struct GenesisInfoView {
    pub rollup_id: Seq<u8>,
    pub celestia_block_variance: u32,
}

impl View for GenesisInfo {
    type V = GenesisInfoView;

    closed spec fn view(&self) -> GenesisInfoView {
        GenesisInfoView {
            rollup_id: self.rollup_id@,
            celestia_block_variance: self.celestia_block_variance,
        }
    }
}

/// The outcome of validating received genesis parameters: they are taken
/// over unchanged if the rollup id has 32 bytes, and refused with the
/// length found otherwise.
pub open spec fn genesis_info_from_raw(raw: raw::execution::GenesisInfoView) -> Result<
    GenesisInfoView,
    GenesisInfoError,
> {
    if raw.rollup_id.len() == ROLLUP_ID_LEN {
        Ok(
            GenesisInfoView {
                rollup_id: raw.rollup_id,
                celestia_block_variance: raw.celestia_block_variance,
            },
        )
    } else {
        Err(
            GenesisInfoError(
                GenesisInfoErrorKind::IncorrectRollupIdLength(
                    IncorrectRollupIdLength { received: raw.rollup_id.len() as usize },
                ),
            ),
        )
    }
}

/// The wire form of genesis parameters.
pub open spec fn genesis_info_to_raw(info: GenesisInfoView) -> raw::execution::GenesisInfoView {
    raw::execution::GenesisInfoView {
        rollup_id: info.rollup_id,
        celestia_block_variance: info.celestia_block_variance,
    }
}

impl GenesisInfo {
    /// The rollup id of any genesis info has 32 bytes.
    pub proof fn lemma_rollup_id_len(self)
        ensures
            self@.rollup_id.len() == ROLLUP_ID_LEN,
    {
        self.rollup_id.lemma_len();
    }

    #[must_use]
    pub fn rollup_id(&self) -> (id: RollupId)
        ensures
            id@ == self@.rollup_id,
    {
        self.rollup_id
    }

    #[must_use]
    pub fn celestia_block_variance(&self) -> (variance: u32)
        ensures
            variance == self@.celestia_block_variance,
    {
        self.celestia_block_variance
    }

    /// Validates received genesis parameters.
    pub fn try_from_raw_ref(raw: &raw::execution::GenesisInfo) -> (res: Result<
        Self,
        GenesisInfoError,
    >)
        ensures
            viewed(res) == genesis_info_from_raw(raw@),
    {
        let rollup_id = match RollupId::try_from_slice(bytes_as_slice(&raw.rollup_id)) {
            Ok(id) => id,
            Err(e) => {
                return Err(GenesisInfoError::incorrect_rollup_id_length(e));
            },
        };
        Ok(Self { rollup_id, celestia_block_variance: raw.celestia_block_variance })
    }

    /// The wire form of these genesis parameters.
    pub fn to_raw(&self) -> (raw: raw::execution::GenesisInfo)
        ensures
            raw@ == genesis_info_to_raw(self@),
    {
        let id = self.rollup_id.get();
        raw::execution::GenesisInfo {
            rollup_id: bytes_from_slice(id.as_slice()),
            celestia_block_variance: self.celestia_block_variance,
        }
    }
}

/// The wire form of genesis parameters, as a conversion.
///
/// Two buffers that hold the same bytes need not be the same value, so
/// the conversion is described by what its result holds and not by a
/// result at the level of specifications.
impl From<GenesisInfo> for raw::execution::GenesisInfo {
    fn from(value: GenesisInfo) -> (raw: Self)
        ensures
            raw@ == genesis_info_to_raw(value@),
    {
        value.to_raw()
    }
}

impl vstd::std_specs::convert::FromSpecImpl<GenesisInfo> for raw::execution::GenesisInfo {
    open spec fn obeys_from_spec() -> bool {
        false
    }

    open spec fn from_spec(value: GenesisInfo) -> Self {
        arbitrary()
    }
}

/// Sending genesis parameters and validating what arrives gives back the
/// parameters sent.
pub proof fn lemma_genesis_info_round_trip(info: GenesisInfo)
    ensures
        genesis_info_from_raw(genesis_info_to_raw(info@)) matches Ok(received) && received
            == info@,
{
    info.lemma_rollup_id_len();
}

/// Why a received block was refused.
#[derive(Clone, Copy, Debug, PartialEq, Eq)]
pub enum BlockErrorKind {
    FieldNotSet(&'static str),
}

/// The error of validating a received [`raw::execution::Block`].
#[derive(Clone, Copy, Debug, PartialEq, Eq)]
pub struct BlockError(pub BlockErrorKind);

impl BlockError {
    pub fn field_not_set(field: &'static str) -> (e: Self)
        ensures
            e == BlockError(BlockErrorKind::FieldNotSet(field)),
    {
        Self(BlockErrorKind::FieldNotSet(field))
    }

    /// The sentence that reports this error.
    pub open spec fn message_text(self) -> Seq<char> {
        match self.0 {
            BlockErrorKind::FieldNotSet(field) => field@ + " field not set"@,
        }
    }

    pub fn message(&self) -> (text: String)
        ensures
            text@ == self.message_text(),
    {
        match self.0 {
            BlockErrorKind::FieldNotSet(field) => {
                let mut text = String::from_str(field);
                text.append(" field not set");
                text
            },
        }
    }
}

/// A reference to one execution-layer block: its number, its hash, the
/// hash of its parent and its timestamp.
#[derive(Debug, PartialEq)]
pub struct Block {
    number: u32,
    hash: Bytes,
    parent_block_hash: Bytes,
    timestamp: Timestamp,
}

/// What a [`Block`] holds, with buffers read out.
pub struct BlockView {
    pub number: u32,
    pub hash: Seq<u8>,
    pub parent_block_hash: Seq<u8>,
    pub timestamp: Timestamp,
}

impl View for Block {
    type V = BlockView;

    closed spec fn view(&self) -> BlockView {
        BlockView {
            number: self.number,
            hash: bytes_contents(self.hash),
            parent_block_hash: bytes_contents(self.parent_block_hash),
            timestamp: self.timestamp,
        }
    }
}

/// The outcome of validating a received block: it is taken over unchanged
/// if it carries a timestamp, and refused otherwise.
pub open spec fn block_from_raw(raw: raw::execution::BlockView) -> Result<BlockView, BlockError> {
    match raw.timestamp {
        None => Err(BlockError(BlockErrorKind::FieldNotSet(".timestamp"))),
        Some(timestamp) => Ok(
            BlockView {
                number: raw.number,
                hash: raw.hash,
                parent_block_hash: raw.parent_block_hash,
                timestamp,
            },
        ),
    }
}

/// The wire form of a block.
pub open spec fn block_to_raw(block: BlockView) -> raw::execution::BlockView {
    raw::execution::BlockView {
        number: block.number,
        hash: block.hash,
        parent_block_hash: block.parent_block_hash,
        timestamp: Some(block.timestamp),
    }
}

impl Clone for Block {
    fn clone(&self) -> (out: Self)
        ensures
            out@ == self@,
    {
        Self {
            number: self.number,
            hash: self.hash.clone(),
            parent_block_hash: self.parent_block_hash.clone(),
            timestamp: self.timestamp,
        }
    }
}

impl Block {
    #[must_use]
    pub fn number(&self) -> (number: u32)
        ensures
            number == self@.number,
    {
        self.number
    }

    #[must_use]
    pub fn hash(&self) -> (hash: &Bytes)
        ensures
            bytes_contents(*hash) == self@.hash,
    {
        &self.hash
    }

    #[must_use]
    pub fn parent_block_hash(&self) -> (hash: &Bytes)
        ensures
            bytes_contents(*hash) == self@.parent_block_hash,
    {
        &self.parent_block_hash
    }

    #[must_use]
    pub fn timestamp(&self) -> (timestamp: Timestamp)
        ensures
            timestamp == self@.timestamp,
    {
        self.timestamp
    }

    /// Validates a received block.
    pub fn try_from_raw_ref(raw: &raw::execution::Block) -> (res: Result<Self, BlockError>)
        ensures
            viewed(res) == block_from_raw(raw@),
    {
        let timestamp = match raw.timestamp {
            Some(timestamp) => timestamp,
            None => {
                return Err(BlockError::field_not_set(".timestamp"));
            },
        };
        Ok(
            Self {
                number: raw.number,
                hash: raw.hash.clone(),
                parent_block_hash: raw.parent_block_hash.clone(),
                timestamp,
            },
        )
    }

    /// The wire form of this block.
    pub fn to_raw(&self) -> (raw: raw::execution::Block)
        ensures
            raw@ == block_to_raw(self@),
    {
        raw::execution::Block {
            number: self.number,
            hash: self.hash.clone(),
            parent_block_hash: self.parent_block_hash.clone(),
            timestamp: Some(self.timestamp),
        }
    }
}

/// The wire form of a block, as a conversion.
///
/// Two buffers that hold the same bytes need not be the same value, so
/// the conversion is described by what its result holds and not by a
/// result at the level of specifications.
impl From<Block> for raw::execution::Block {
    fn from(value: Block) -> (raw: Self)
        ensures
            raw@ == block_to_raw(value@),
    {
        value.to_raw()
    }
}

impl vstd::std_specs::convert::FromSpecImpl<Block> for raw::execution::Block {
    open spec fn obeys_from_spec() -> bool {
        false
    }

    open spec fn from_spec(value: Block) -> Self {
        arbitrary()
    }
}

/// Sending a block and validating what arrives gives back the block sent.
pub proof fn lemma_block_round_trip(block: BlockView)
    ensures
        block_from_raw(block_to_raw(block)) matches Ok(received) && received == block,
{
}

/// A firm block numbered above the soft block: no commitment state may
/// hold such a pair. Carries both numbers.
#[derive(Clone, Copy, Debug, PartialEq, Eq)]
pub struct FirmExceedsSoft {
    pub firm: u32,
    pub soft: u32,
}

impl FirmExceedsSoft {
    /// The sentence that reports this error.
    pub open spec fn message_text(self) -> Seq<char> {
        "firm commitment at `"@ + decimal_text(self.firm as nat)
            + " exceeds soft commitment at `"@ + decimal_text(self.soft as nat)
    }

    pub fn message(&self) -> (text: String)
        ensures
            text@ == self.message_text(),
    {
        let mut text = String::from_str("firm commitment at `");
        text.append(decimal(self.firm as u64).as_str());
        text.append(" exceeds soft commitment at `");
        text.append(decimal(self.soft as u64).as_str());
        text
    }
}

/// Why a received commitment state was refused.
#[derive(Clone, Copy, Debug, PartialEq, Eq)]
pub enum CommitmentStateErrorKind {
    FieldNotSet(&'static str),
    Firm(BlockError),
    Soft(BlockError),
    FirmExceedsSoft(FirmExceedsSoft),
}

/// The error of validating a received [`raw::execution::CommitmentState`].
#[derive(Clone, Copy, Debug, PartialEq, Eq)]
pub struct CommitmentStateError(pub CommitmentStateErrorKind);

impl CommitmentStateError {
    pub fn field_not_set(field: &'static str) -> (e: Self)
        ensures
            e == CommitmentStateError(CommitmentStateErrorKind::FieldNotSet(field)),
    {
        Self(CommitmentStateErrorKind::FieldNotSet(field))
    }

    pub fn firm(source: BlockError) -> (e: Self)
        ensures
            e == CommitmentStateError(CommitmentStateErrorKind::Firm(source)),
    {
        Self(CommitmentStateErrorKind::Firm(source))
    }

    pub fn soft(source: BlockError) -> (e: Self)
        ensures
            e == CommitmentStateError(CommitmentStateErrorKind::Soft(source)),
    {
        Self(CommitmentStateErrorKind::Soft(source))
    }

    pub fn firm_exceeds_soft(source: FirmExceedsSoft) -> (e: Self)
        ensures
            e == CommitmentStateError(CommitmentStateErrorKind::FirmExceedsSoft(source)),
    {
        Self(CommitmentStateErrorKind::FirmExceedsSoft(source))
    }

    /// The sentence that reports this error.
    pub open spec fn message_text(self) -> Seq<char> {
        match self.0 {
            CommitmentStateErrorKind::FieldNotSet(field) => field@ + " field not set"@,
            CommitmentStateErrorKind::Firm(_) => ".firm field did not contain a valid block"@,
            CommitmentStateErrorKind::Soft(_) => ".soft field did not contain a valid block"@,
            CommitmentStateErrorKind::FirmExceedsSoft(source) => source.message_text(),
        }
    }

    pub fn message(&self) -> (text: String)
        ensures
            text@ == self.message_text(),
    {
        match self.0 {
            CommitmentStateErrorKind::FieldNotSet(field) => {
                let mut text = String::from_str(field);
                text.append(" field not set");
                text
            },
            CommitmentStateErrorKind::Firm(_) => String::from_str(
                ".firm field did not contain a valid block",
            ),
            CommitmentStateErrorKind::Soft(_) => String::from_str(
                ".soft field did not contain a valid block",
            ),
            CommitmentStateErrorKind::FirmExceedsSoft(source) => source.message(),
        }
    }
}

/// Marks a builder whose firm block is still missing.
pub struct NoFirm;

/// Marks a builder whose soft block is still missing.
pub struct NoSoft;

/// Marks a builder whose next sequencer height is still missing.
pub struct NoNextSequencerHeight;

/// Marks a builder whose base data-availability height is still missing.
pub struct NoBaseCelestiaHeight;

/// The firm block a builder was given.
pub struct WithFirm(Block);

/// The soft block a builder was given.
pub struct WithSoft(Block);

/// The next sequencer height a builder was given.
pub struct WithNextSequencerHeight(u32);

/// The base data-availability height a builder was given.
pub struct WithBaseCelestiaHeight(u32);

impl View for WithFirm {
    type V = BlockView;

    closed spec fn view(&self) -> BlockView {
        self.0@
    }
}

impl View for WithSoft {
    type V = BlockView;

    closed spec fn view(&self) -> BlockView {
        self.0@
    }
}

impl View for WithNextSequencerHeight {
    type V = u32;

    closed spec fn view(&self) -> u32 {
        self.0
    }
}

impl View for WithBaseCelestiaHeight {
    type V = u32;

    closed spec fn view(&self) -> u32 {
        self.0
    }
}

/// Collects the four parts of a [`CommitmentState`].
///
/// Each type parameter records whether the part it stands for was given.
/// [`CommitmentStateBuilder::build`] exists only on the builder that has
/// all four, so a state with a part missing cannot be asked for.
pub struct CommitmentStateBuilder<
    TFirm = NoFirm,
    TSoft = NoSoft,
    TNextSequencerHeight = NoNextSequencerHeight,
    TBaseCelestiaHeight = NoBaseCelestiaHeight,
> {
    firm: TFirm,
    soft: TSoft,
    next_sequencer_height: TNextSequencerHeight,
    base_celestia_height: TBaseCelestiaHeight,
}

impl CommitmentStateBuilder<NoFirm, NoSoft, NoNextSequencerHeight, NoBaseCelestiaHeight> {
    /// A builder that was given nothing yet.
    pub fn new() -> (builder: Self) {
        Self {
            firm: NoFirm,
            soft: NoSoft,
            next_sequencer_height: NoNextSequencerHeight,
            base_celestia_height: NoBaseCelestiaHeight,
        }
    }
}

impl<
    TFirm,
    TSoft,
    TNextSequencerHeight,
    TBaseCelestiaHeight,
> CommitmentStateBuilder<TFirm, TSoft, TNextSequencerHeight, TBaseCelestiaHeight> {
    /// What stands in the place of the firm block.
    pub closed spec fn firm_part(self) -> TFirm {
        self.firm
    }

    /// What stands in the place of the soft block.
    pub closed spec fn soft_part(self) -> TSoft {
        self.soft
    }

    /// What stands in the place of the next sequencer height.
    pub closed spec fn next_sequencer_height_part(self) -> TNextSequencerHeight {
        self.next_sequencer_height
    }

    /// What stands in the place of the base data-availability height.
    pub closed spec fn base_celestia_height_part(self) -> TBaseCelestiaHeight {
        self.base_celestia_height
    }

    /// Supplies the firm block and leaves the other parts as they are.
    pub fn firm(self, firm: Block) -> (out: CommitmentStateBuilder<
        WithFirm,
        TSoft,
        TNextSequencerHeight,
        TBaseCelestiaHeight,
    >)
        ensures
            out.firm_part()@ == firm@,
            out.soft_part() == self.soft_part(),
            out.next_sequencer_height_part() == self.next_sequencer_height_part(),
            out.base_celestia_height_part() == self.base_celestia_height_part(),
    {
        let Self { soft, next_sequencer_height, base_celestia_height, .. } = self;
        CommitmentStateBuilder {
            firm: WithFirm(firm),
            soft,
            next_sequencer_height,
            base_celestia_height,
        }
    }

    /// Supplies the soft block and leaves the other parts as they are.
    pub fn soft(self, soft: Block) -> (out: CommitmentStateBuilder<
        TFirm,
        WithSoft,
        TNextSequencerHeight,
        TBaseCelestiaHeight,
    >)
        ensures
            out.firm_part() == self.firm_part(),
            out.soft_part()@ == soft@,
            out.next_sequencer_height_part() == self.next_sequencer_height_part(),
            out.base_celestia_height_part() == self.base_celestia_height_part(),
    {
        let Self { firm, next_sequencer_height, base_celestia_height, .. } = self;
        CommitmentStateBuilder {
            firm,
            soft: WithSoft(soft),
            next_sequencer_height,
            base_celestia_height,
        }
    }

    /// Supplies the next sequencer height and leaves the other parts as
    /// they are.
    pub fn next_sequencer_height(self, next_sequencer_height: u32) -> (out: CommitmentStateBuilder<
        TFirm,
        TSoft,
        WithNextSequencerHeight,
        TBaseCelestiaHeight,
    >)
        ensures
            out.firm_part() == self.firm_part(),
            out.soft_part() == self.soft_part(),
            out.next_sequencer_height_part()@ == next_sequencer_height,
            out.base_celestia_height_part() == self.base_celestia_height_part(),
    {
        let Self { firm, soft, base_celestia_height, .. } = self;
        CommitmentStateBuilder {
            firm,
            soft,
            next_sequencer_height: WithNextSequencerHeight(next_sequencer_height),
            base_celestia_height,
        }
    }

    /// Supplies the base data-availability height and leaves the other
    /// parts as they are.
    pub fn base_celestia_height(self, base_celestia_height: u32) -> (out: CommitmentStateBuilder<
        TFirm,
        TSoft,
        TNextSequencerHeight,
        WithBaseCelestiaHeight,
    >)
        ensures
            out.firm_part() == self.firm_part(),
            out.soft_part() == self.soft_part(),
            out.next_sequencer_height_part() == self.next_sequencer_height_part(),
            out.base_celestia_height_part()@ == base_celestia_height,
    {
        let Self { firm, soft, next_sequencer_height, .. } = self;
        CommitmentStateBuilder {
            firm,
            soft,
            next_sequencer_height,
            base_celestia_height: WithBaseCelestiaHeight(base_celestia_height),
        }
    }
}

/// What a [`CommitmentState`] holds.
pub struct CommitmentStateView {
    pub soft: BlockView,
    pub firm: BlockView,
    pub next_sequencer_height: u32,
    pub base_celestia_height: u32,
}

impl CommitmentStateView {
    /// The firm block is numbered no higher than the soft block.
    pub open spec fn firm_within_soft(self) -> bool {
        self.firm.number <= self.soft.number
    }
}

/// The outcome of combining four parts into a commitment state: the state
/// made of exactly these parts if the firm block is numbered no higher
/// than the soft one, and otherwise the error that carries both numbers.
pub open spec fn commitment_state_from_parts(
    firm: BlockView,
    soft: BlockView,
    next_sequencer_height: u32,
    base_celestia_height: u32,
) -> Result<CommitmentStateView, FirmExceedsSoft> {
    if firm.number > soft.number {
        Err(FirmExceedsSoft { firm: firm.number, soft: soft.number })
    } else {
        Ok(CommitmentStateView { soft, firm, next_sequencer_height, base_celestia_height })
    }
}

impl CommitmentStateBuilder<WithFirm, WithSoft, WithNextSequencerHeight, WithBaseCelestiaHeight> {
    /// Finishes the commitment state, or reports that the firm block
    /// exceeds the soft one.
    pub fn build(self) -> (res: Result<CommitmentState, FirmExceedsSoft>)
        ensures
            viewed(res) == commitment_state_from_parts(
                self.firm_part()@,
                self.soft_part()@,
                self.next_sequencer_height_part()@,
                self.base_celestia_height_part()@,
            ),
    {
        let Self {
            firm: WithFirm(firm),
            soft: WithSoft(soft),
            next_sequencer_height: WithNextSequencerHeight(next_sequencer_height),
            base_celestia_height: WithBaseCelestiaHeight(base_celestia_height),
        } = self;
        if firm.number() > soft.number() {
            return Err(FirmExceedsSoft { firm: firm.number(), soft: soft.number() });
        }
        Ok(CommitmentState { soft, firm, next_sequencer_height, base_celestia_height })
    }
}

/// The blocks at each commitment level, with the next sequencer height
/// expected and the base data-availability height.
///
/// No value of this type has a firm block numbered above its soft block.
#[derive(Debug, PartialEq)]
pub struct CommitmentState {
    soft: Block,
    firm: Block,
    next_sequencer_height: u32,
    base_celestia_height: u32,
}

impl View for CommitmentState {
    type V = CommitmentStateView;

    closed spec fn view(&self) -> CommitmentStateView {
        CommitmentStateView {
            soft: self.soft@,
            firm: self.firm@,
            next_sequencer_height: self.next_sequencer_height,
            base_celestia_height: self.base_celestia_height,
        }
    }
}

impl Clone for CommitmentState {
    fn clone(&self) -> (out: Self)
        ensures
            out@ == self@,
    {
        proof {
            use_type_invariant(self);
        }
        Self {
            soft: self.soft.clone(),
            firm: self.firm.clone(),
            next_sequencer_height: self.next_sequencer_height,
            base_celestia_height: self.base_celestia_height,
        }
    }
}

impl CommitmentState {
    #[verifier::type_invariant]
    spec fn firm_is_within_soft(self) -> bool {
        self.firm.number <= self.soft.number
    }

    /// Starts an empty builder.
    #[must_use]
    pub fn builder() -> (builder: CommitmentStateBuilder) {
        CommitmentStateBuilder::new()
    }

    /// The firm block, which is numbered no higher than the soft block.
    #[must_use]
    pub fn firm(&self) -> (firm: &Block)
        ensures
            firm@ == self@.firm,
            self@.firm_within_soft(),
    {
        proof {
            use_type_invariant(self);
        }
        &self.firm
    }

    /// The soft block, which is numbered no lower than the firm block.
    #[must_use]
    pub fn soft(&self) -> (soft: &Block)
        ensures
            soft@ == self@.soft,
            self@.firm_within_soft(),
    {
        proof {
            use_type_invariant(self);
        }
        &self.soft
    }

    #[must_use]
    pub fn next_sequencer_height(&self) -> (height: u32)
        ensures
            height == self@.next_sequencer_height,
    {
        self.next_sequencer_height
    }

    #[must_use]
    pub fn base_celestia_height(&self) -> (height: u32)
        ensures
            height == self@.base_celestia_height,
    {
        self.base_celestia_height
    }

    /// Validates a received commitment state: first the soft block, then
    /// the firm block, then their order.
    pub fn try_from_raw_ref(raw: &raw::execution::CommitmentState) -> (res: Result<
        Self,
        CommitmentStateError,
    >)
        ensures
            viewed(res) == commitment_state_from_raw(raw@),
    {
        let soft = match &raw.soft {
            None => {
                return Err(CommitmentStateError::field_not_set(".soft"));
            },
            Some(soft) => match Block::try_from_raw_ref(soft) {
                Ok(soft) => soft,
                Err(e) => {
                    return Err(CommitmentStateError::soft(e));
                },
            },
        };
        let firm = match &raw.firm {
            None => {
                return Err(CommitmentStateError::field_not_set(".firm"));
            },
            Some(firm) => match Block::try_from_raw_ref(firm) {
                Ok(firm) => firm,
                Err(e) => {
                    return Err(CommitmentStateError::firm(e));
                },
            },
        };
        let built = Self::builder().firm(firm).soft(soft).next_sequencer_height(
            raw.next_sequencer_height,
        ).base_celestia_height(raw.base_celestia_height).build();
        match built {
            Ok(state) => Ok(state),
            Err(e) => Err(CommitmentStateError::firm_exceeds_soft(e)),
        }
    }

    /// The wire form of this commitment state.
    pub fn to_raw(&self) -> (raw: raw::execution::CommitmentState)
        ensures
            raw@ == commitment_state_to_raw(self@),
    {
        let soft = self.soft.to_raw();
        let firm = self.firm.to_raw();
        raw::execution::CommitmentState {
            soft: Some(soft),
            firm: Some(firm),
            next_sequencer_height: self.next_sequencer_height,
            base_celestia_height: self.base_celestia_height,
        }
    }
}

/// The wire form of a commitment state, as a conversion.
///
/// Two buffers that hold the same bytes need not be the same value, so
/// the conversion is described by what its result holds and not by a
/// result at the level of specifications.
impl From<CommitmentState> for raw::execution::CommitmentState {
    fn from(value: CommitmentState) -> (raw: Self)
        ensures
            raw@ == commitment_state_to_raw(value@),
    {
        value.to_raw()
    }
}

impl vstd::std_specs::convert::FromSpecImpl<CommitmentState> for raw::execution::CommitmentState {
    open spec fn obeys_from_spec() -> bool {
        false
    }

    open spec fn from_spec(value: CommitmentState) -> Self {
        arbitrary()
    }
}

/// The outcome of validating a received commitment state. The soft block
/// is looked at first, then the firm block, then their order; the first
/// fault found is the one reported.
pub open spec fn commitment_state_from_raw(raw: raw::execution::CommitmentStateView) -> Result<
    CommitmentStateView,
    CommitmentStateError,
> {
    match raw.soft {
        None => Err(CommitmentStateError(CommitmentStateErrorKind::FieldNotSet(".soft"))),
        Some(raw_soft) => match block_from_raw(raw_soft) {
            Err(e) => Err(CommitmentStateError(CommitmentStateErrorKind::Soft(e))),
            Ok(soft) => match raw.firm {
                None => Err(CommitmentStateError(CommitmentStateErrorKind::FieldNotSet(".firm"))),
                Some(raw_firm) => match block_from_raw(raw_firm) {
                    Err(e) => Err(CommitmentStateError(CommitmentStateErrorKind::Firm(e))),
                    Ok(firm) => match commitment_state_from_parts(
                        firm,
                        soft,
                        raw.next_sequencer_height,
                        raw.base_celestia_height,
                    ) {
                        Ok(state) => Ok(state),
                        Err(e) => Err(
                            CommitmentStateError(CommitmentStateErrorKind::FirmExceedsSoft(e)),
                        ),
                    },
                },
            },
        },
    }
}

/// The wire form of a commitment state.
pub open spec fn commitment_state_to_raw(
    state: CommitmentStateView,
) -> raw::execution::CommitmentStateView {
    raw::execution::CommitmentStateView {
        soft: Some(block_to_raw(state.soft)),
        firm: Some(block_to_raw(state.firm)),
        next_sequencer_height: state.next_sequencer_height,
        base_celestia_height: state.base_celestia_height,
    }
}

/// Parts combine into a commitment state exactly when the firm block is
/// numbered no higher than the soft block. The state then consists of these
/// parts; otherwise the error carries the two block numbers.
pub proof fn lemma_build_keeps_firm_within_soft(
    firm: BlockView,
    soft: BlockView,
    next_sequencer_height: u32,
    base_celestia_height: u32,
)
    ensures
        match commitment_state_from_parts(firm, soft, next_sequencer_height, base_celestia_height) {
            Ok(state) => firm.number <= soft.number && state.firm_within_soft(),
            Err(e) => firm.number > soft.number && e == (FirmExceedsSoft {
                firm: firm.number,
                soft: soft.number,
            }),
        },
{
}

/// A received commitment state that passes validation has its firm block
/// numbered no higher than its soft block.
pub proof fn lemma_validated_state_keeps_firm_within_soft(raw: raw::execution::CommitmentStateView)
    ensures
        commitment_state_from_raw(raw) matches Ok(state) ==> state.firm_within_soft(),
{
}

/// Sending a commitment state and validating what arrives gives back the
/// state sent.
pub proof fn lemma_commitment_state_round_trip(state: CommitmentStateView)
    requires
        state.firm_within_soft(),
    ensures
        commitment_state_from_raw(commitment_state_to_raw(state)) matches Ok(received)
            && received == state,
{
}

} // verus!

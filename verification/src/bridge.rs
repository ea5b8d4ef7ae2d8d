//! Responses to bridge-account queries.
//!
//! Each response exists in two forms: the validated one defined here, and
//! the wire form in [`crate::raw::bridge`]. Validation of a wire form
//! reports the first fault it finds; the order of the checks is part of
//! each function's contract.

use vstd::prelude::*;
use vstd::string::StringExecFns;

use crate::primitive::asset;
use crate::primitive::{
    array_from_slice, array_to_vec, Address, AddressError, AddressErrorKind,
    IncorrectRollupIdLength, RollupId, ADDRESS_LEN, ROLLUP_ID_LEN,
};
use crate::outcome::viewed;
use crate::raw;
use crate::text::{decimal, decimal_text};

verus! {

/// Number of bytes in a transaction hash.
pub const TX_HASH_LEN: usize = 32;

/// Why a received last-transaction-hash response was refused.
#[derive(Clone, Copy, Debug, PartialEq, Eq)]
pub enum BridgeAccountLastTxHashResponseErrorKind {
    /// The hash did not have 32 bytes; carries the length found.
    InvalidTxHash(usize),
}

/// The error of validating a received
/// [`raw::bridge::BridgeAccountLastTxHashResponse`].
#[derive(Clone, Copy, Debug, PartialEq, Eq)]
pub struct BridgeAccountLastTxHashResponseError(pub BridgeAccountLastTxHashResponseErrorKind);

impl BridgeAccountLastTxHashResponseError {
    #[must_use]
    pub fn invalid_tx_hash(bytes: usize) -> (e: Self)
        ensures
            e == BridgeAccountLastTxHashResponseError(
                BridgeAccountLastTxHashResponseErrorKind::InvalidTxHash(bytes),
            ),
    {
        Self(BridgeAccountLastTxHashResponseErrorKind::InvalidTxHash(bytes))
    }

    /// The sentence that reports this error.
    pub open spec fn message_text(self) -> Seq<char> {
        match self.0 {
            BridgeAccountLastTxHashResponseErrorKind::InvalidTxHash(bytes) => {
                "invalid tx hash; must be 32 bytes, got "@ + decimal_text(bytes as nat)
                    + " bytes"@
            },
        }
    }

    pub fn message(&self) -> (text: String)
        ensures
            text@ == self.message_text(),
    {
        match self.0 {
            BridgeAccountLastTxHashResponseErrorKind::InvalidTxHash(bytes) => {
                let mut text = String::from_str("invalid tx hash; must be 32 bytes, got ");
                text.append(decimal(bytes as u64).as_str());
                text.append(" bytes");
                text
            },
        }
    }
}

/// The hash of the last transaction a bridge account submitted, if it
/// ever submitted one, and the height this was read at.
#[derive(Clone, Copy, Debug, PartialEq, Eq)]
pub struct BridgeAccountLastTxHashResponse {
    pub height: u64,
    pub tx_hash: Option<[u8; 32]>,
}

/// What a [`BridgeAccountLastTxHashResponse`] holds.
pub struct BridgeAccountLastTxHashResponseView {
    pub height: u64,
    pub tx_hash: Option<Seq<u8>>,
}

impl View for BridgeAccountLastTxHashResponse {
    type V = BridgeAccountLastTxHashResponseView;

    open spec fn view(&self) -> BridgeAccountLastTxHashResponseView {
        BridgeAccountLastTxHashResponseView {
            height: self.height,
            tx_hash: match self.tx_hash {
                Some(hash) => Some(hash@),
                None => None,
            },
        }
    }
}

/// The outcome of validating a received last-transaction-hash response:
/// a missing hash and a hash of 32 bytes are taken over, a hash of any other
/// length is refused with that length.
pub open spec fn last_tx_hash_response_from_raw(
    raw: raw::bridge::BridgeAccountLastTxHashResponseView,
) -> Result<BridgeAccountLastTxHashResponseView, BridgeAccountLastTxHashResponseError> {
    match raw.tx_hash {
        None => Ok(BridgeAccountLastTxHashResponseView { height: raw.height, tx_hash: None }),
        Some(hash) => if hash.len() == TX_HASH_LEN {
            Ok(BridgeAccountLastTxHashResponseView { height: raw.height, tx_hash: Some(hash) })
        } else {
            Err(
                BridgeAccountLastTxHashResponseError(
                    BridgeAccountLastTxHashResponseErrorKind::InvalidTxHash(hash.len() as usize),
                ),
            )
        },
    }
}

/// The wire form of a last-transaction-hash response.
pub open spec fn last_tx_hash_response_to_raw(
    response: BridgeAccountLastTxHashResponseView,
) -> raw::bridge::BridgeAccountLastTxHashResponseView {
    raw::bridge::BridgeAccountLastTxHashResponseView {
        height: response.height,
        tx_hash: response.tx_hash,
    }
}

impl BridgeAccountLastTxHashResponse {
    /// Validates a received response; fails if a hash is present and is
    /// not 32 bytes long.
    pub fn try_from_raw(raw: raw::bridge::BridgeAccountLastTxHashResponse) -> (res: Result<
        Self,
        BridgeAccountLastTxHashResponseError,
    >)
        ensures
            viewed(res) == last_tx_hash_response_from_raw(raw@),
    {
        let tx_hash = match raw.tx_hash {
            None => None,
            Some(bytes) => {
                if bytes.len() != TX_HASH_LEN {
                    return Err(BridgeAccountLastTxHashResponseError::invalid_tx_hash(bytes.len()));
                }
                Some(array_from_slice::<32>(bytes.as_slice()))
            },
        };
        Ok(Self { height: raw.height, tx_hash })
    }

    /// The wire form of this response.
    #[must_use]
    pub fn into_raw(self) -> (raw: raw::bridge::BridgeAccountLastTxHashResponse)
        ensures
            raw@ == last_tx_hash_response_to_raw(self@),
    {
        raw::bridge::BridgeAccountLastTxHashResponse {
            height: self.height,
            tx_hash: match self.tx_hash {
                Some(hash) => Some(array_to_vec::<32>(&hash)),
                None => None,
            },
        }
    }
}

impl raw::bridge::BridgeAccountLastTxHashResponse {
    /// Validates this received response; see
    /// [`BridgeAccountLastTxHashResponse::try_from_raw`].
    pub fn try_into_native(self) -> (res: Result<
        BridgeAccountLastTxHashResponse,
        BridgeAccountLastTxHashResponseError,
    >)
        ensures
            viewed(res) == last_tx_hash_response_from_raw(self@),
    {
        BridgeAccountLastTxHashResponse::try_from_raw(self)
    }

    /// The wire form of a validated response.
    #[must_use]
    pub fn from_native(native: BridgeAccountLastTxHashResponse) -> (raw: Self)
        ensures
            raw@ == last_tx_hash_response_to_raw(native@),
    {
        native.into_raw()
    }
}

/// Sending a last-transaction-hash response and validating what arrives
/// gives back the response sent.
pub proof fn lemma_last_tx_hash_response_round_trip(response: BridgeAccountLastTxHashResponse)
    ensures
        last_tx_hash_response_from_raw(last_tx_hash_response_to_raw(response@)) matches Ok(received) && received
            == response@,
{
}

/// Why a received account-info response was refused.
#[derive(Clone, Copy, Debug, PartialEq, Eq)]
pub enum BridgeAccountInfoResponseErrorKind {
    FieldNotSet(&'static str),
    AssetId(asset::IncorrectAssetIdLength),
    InvalidRollupId(IncorrectRollupIdLength),
    InvalidSudoAddress(AddressError),
    InvalidWithdrawerAddress(AddressError),
}

/// The error of validating a received
/// [`raw::bridge::BridgeAccountInfoResponse`].
#[derive(Clone, Copy, Debug, PartialEq, Eq)]
pub struct BridgeAccountInfoResponseError(pub BridgeAccountInfoResponseErrorKind);

impl BridgeAccountInfoResponseError {
    pub fn field_not_set(field: &'static str) -> (e: Self)
        ensures
            e == BridgeAccountInfoResponseError(
                BridgeAccountInfoResponseErrorKind::FieldNotSet(field),
            ),
    {
        Self(BridgeAccountInfoResponseErrorKind::FieldNotSet(field))
    }

    pub fn asset_id(err: asset::IncorrectAssetIdLength) -> (e: Self)
        ensures
            e == BridgeAccountInfoResponseError(BridgeAccountInfoResponseErrorKind::AssetId(err)),
    {
        Self(BridgeAccountInfoResponseErrorKind::AssetId(err))
    }

    pub fn invalid_rollup_id(err: IncorrectRollupIdLength) -> (e: Self)
        ensures
            e == BridgeAccountInfoResponseError(
                BridgeAccountInfoResponseErrorKind::InvalidRollupId(err),
            ),
    {
        Self(BridgeAccountInfoResponseErrorKind::InvalidRollupId(err))
    }

    pub fn invalid_sudo_address(err: AddressError) -> (e: Self)
        ensures
            e == BridgeAccountInfoResponseError(
                BridgeAccountInfoResponseErrorKind::InvalidSudoAddress(err),
            ),
    {
        Self(BridgeAccountInfoResponseErrorKind::InvalidSudoAddress(err))
    }

    pub fn invalid_withdrawer_address(err: AddressError) -> (e: Self)
        ensures
            e == BridgeAccountInfoResponseError(
                BridgeAccountInfoResponseErrorKind::InvalidWithdrawerAddress(err),
            ),
    {
        Self(BridgeAccountInfoResponseErrorKind::InvalidWithdrawerAddress(err))
    }

    /// The sentence that reports this error.
    pub open spec fn message_text(self) -> Seq<char> {
        match self.0 {
            BridgeAccountInfoResponseErrorKind::FieldNotSet(field) => {
                "the expected field in the raw source type was not set: `"@ + field@ + "`"@
            },
            BridgeAccountInfoResponseErrorKind::AssetId(_) => {
                "`asset_id` field did not contain a valid asset ID"@
            },
            BridgeAccountInfoResponseErrorKind::InvalidRollupId(_) => {
                "the `rollup_id` field was invalid"@
            },
            BridgeAccountInfoResponseErrorKind::InvalidSudoAddress(_) => {
                "the `sudo_address` field was invalid"@
            },
            BridgeAccountInfoResponseErrorKind::InvalidWithdrawerAddress(_) => {
                "the `withdrawer_address` field was invalid"@
            },
        }
    }

    pub fn message(&self) -> (text: String)
        ensures
            text@ == self.message_text(),
    {
        match self.0 {
            BridgeAccountInfoResponseErrorKind::FieldNotSet(field) => {
                let mut text = String::from_str(
                    "the expected field in the raw source type was not set: `",
                );
                text.append(field);
                text.append("`");
                text
            },
            BridgeAccountInfoResponseErrorKind::AssetId(_) => String::from_str(
                "`asset_id` field did not contain a valid asset ID",
            ),
            BridgeAccountInfoResponseErrorKind::InvalidRollupId(_) => String::from_str(
                "the `rollup_id` field was invalid",
            ),
            BridgeAccountInfoResponseErrorKind::InvalidSudoAddress(_) => String::from_str(
                "the `sudo_address` field was invalid",
            ),
            BridgeAccountInfoResponseErrorKind::InvalidWithdrawerAddress(_) => String::from_str(
                "the `withdrawer_address` field was invalid",
            ),
        }
    }
}

/// The registration of a bridge account: the rollup it bridges to, the
/// asset it accepts, and the accounts allowed to administer it and to
/// withdraw from it.
#[derive(Clone, Copy, Debug, PartialEq, Eq)]
pub struct BridgeAccountInfo {
    pub rollup_id: RollupId,
    pub asset_id: asset::Id,
    pub sudo_address: Address,
    pub withdrawer_address: Address,
}

/// What a [`BridgeAccountInfo`] holds.
pub struct BridgeAccountInfoView {
    pub rollup_id: Seq<u8>,
    pub asset_id: Seq<u8>,
    pub sudo_address: Seq<u8>,
    pub withdrawer_address: Seq<u8>,
}

impl View for BridgeAccountInfo {
    type V = BridgeAccountInfoView;

    open spec fn view(&self) -> BridgeAccountInfoView {
        BridgeAccountInfoView {
            rollup_id: self.rollup_id@,
            asset_id: self.asset_id@,
            sudo_address: self.sudo_address@,
            withdrawer_address: self.withdrawer_address@,
        }
    }
}

/// The registration of a bridge account, if it has one, and the height
/// this was read at.
#[derive(Clone, Copy, Debug, PartialEq, Eq)]
pub struct BridgeAccountInfoResponse {
    pub height: u64,
    pub info: Option<BridgeAccountInfo>,
}

/// What a [`BridgeAccountInfoResponse`] holds.
pub struct BridgeAccountInfoResponseView {
    pub height: u64,
    pub info: Option<BridgeAccountInfoView>,
}

impl View for BridgeAccountInfoResponse {
    type V = BridgeAccountInfoResponseView;

    open spec fn view(&self) -> BridgeAccountInfoResponseView {
        BridgeAccountInfoResponseView {
            height: self.height,
            info: match self.info {
                Some(info) => Some(info@),
                None => None,
            },
        }
    }
}

/// The error for a field that a registered account must have and the
/// response lacks.
pub open spec fn info_field_not_set(field: &'static str) -> BridgeAccountInfoResponseError {
    BridgeAccountInfoResponseError(BridgeAccountInfoResponseErrorKind::FieldNotSet(field))
}

/// The error for an address of the wrong length.
pub open spec fn incorrect_address_length(received: nat) -> AddressError {
    AddressError(AddressErrorKind::IncorrectAddressLength { received: received as usize })
}

/// The outcome of validating a received account-info response.
///
/// Without a rollup id the account counts as unregistered and the other
/// fields are not looked at. With one, the sudo address, the withdrawer
/// address and the asset id must be present, in that order of reporting;
/// then the asset id, the rollup id, the sudo address and the withdrawer
/// address must have their proper lengths, again in that order.
pub open spec fn info_response_from_raw(raw: raw::bridge::BridgeAccountInfoResponseView) -> Result<
    BridgeAccountInfoResponseView,
    BridgeAccountInfoResponseError,
> {
    if raw.rollup_id is None {
        Ok(BridgeAccountInfoResponseView { height: raw.height, info: None })
    } else if raw.sudo_address is None {
        Err(info_field_not_set("sudo_address"))
    } else if raw.withdrawer_address is None {
        Err(info_field_not_set("withdrawer_address"))
    } else if raw.asset_id is None {
        Err(info_field_not_set("asset_id"))
    } else {
        let rollup_id = raw.rollup_id->0;
        let asset_id = raw.asset_id->0;
        let sudo_address = raw.sudo_address->0;
        let withdrawer_address = raw.withdrawer_address->0;
        if asset_id.len() != asset::ASSET_ID_LEN {
            Err(
                BridgeAccountInfoResponseError(
                    BridgeAccountInfoResponseErrorKind::AssetId(
                        asset::IncorrectAssetIdLength { received: asset_id.len() as usize },
                    ),
                ),
            )
        } else if rollup_id.len() != ROLLUP_ID_LEN {
            Err(
                BridgeAccountInfoResponseError(
                    BridgeAccountInfoResponseErrorKind::InvalidRollupId(
                        IncorrectRollupIdLength { received: rollup_id.len() as usize },
                    ),
                ),
            )
        } else if sudo_address.len() != ADDRESS_LEN {
            Err(
                BridgeAccountInfoResponseError(
                    BridgeAccountInfoResponseErrorKind::InvalidSudoAddress(
                        incorrect_address_length(sudo_address.len()),
                    ),
                ),
            )
        } else if withdrawer_address.len() != ADDRESS_LEN {
            Err(
                BridgeAccountInfoResponseError(
                    BridgeAccountInfoResponseErrorKind::InvalidWithdrawerAddress(
                        incorrect_address_length(withdrawer_address.len()),
                    ),
                ),
            )
        } else {
            Ok(
                BridgeAccountInfoResponseView {
                    height: raw.height,
                    info: Some(
                        BridgeAccountInfoView {
                            rollup_id,
                            asset_id,
                            sudo_address,
                            withdrawer_address,
                        },
                    ),
                },
            )
        }
    }
}

/// The wire form of an account-info response.
pub open spec fn info_response_to_raw(
    response: BridgeAccountInfoResponseView,
) -> raw::bridge::BridgeAccountInfoResponseView {
    match response.info {
        None => raw::bridge::BridgeAccountInfoResponseView {
            height: response.height,
            rollup_id: None,
            asset_id: None,
            sudo_address: None,
            withdrawer_address: None,
        },
        Some(info) => raw::bridge::BridgeAccountInfoResponseView {
            height: response.height,
            rollup_id: Some(info.rollup_id),
            asset_id: Some(info.asset_id),
            sudo_address: Some(info.sudo_address),
            withdrawer_address: Some(info.withdrawer_address),
        },
    }
}

impl BridgeAccountInfoResponse {
    /// Validates a received response.
    pub fn try_from_raw(raw: raw::bridge::BridgeAccountInfoResponse) -> (res: Result<
        Self,
        BridgeAccountInfoResponseError,
    >)
        ensures
            viewed(res) == info_response_from_raw(raw@),
    {
        let raw::bridge::BridgeAccountInfoResponse {
            height,
            rollup_id,
            asset_id,
            sudo_address,
            withdrawer_address,
        } = raw;

        let rollup_id = match rollup_id {
            Some(rollup_id) => rollup_id,
            None => {
                return Ok(Self { height, info: None });
            },
        };

        let sudo_address = match sudo_address {
            Some(sudo_address) => sudo_address,
            None => {
                return Err(BridgeAccountInfoResponseError::field_not_set("sudo_address"));
            },
        };

        let withdrawer_address = match withdrawer_address {
            Some(withdrawer_address) => withdrawer_address,
            None => {
                return Err(BridgeAccountInfoResponseError::field_not_set("withdrawer_address"));
            },
        };

        let asset_id = match asset_id {
            Some(asset_id) => asset_id,
            None => {
                return Err(BridgeAccountInfoResponseError::field_not_set("asset_id"));
            },
        };

        let asset_id = match asset::Id::try_from_slice(asset_id.as_slice()) {
            Ok(asset_id) => asset_id,
            Err(e) => {
                return Err(BridgeAccountInfoResponseError::asset_id(e));
            },
        };

        let rollup_id = match RollupId::try_from_raw(&rollup_id) {
            Ok(rollup_id) => rollup_id,
            Err(e) => {
                return Err(BridgeAccountInfoResponseError::invalid_rollup_id(e));
            },
        };

        let sudo_address = match Address::try_from_raw(&sudo_address) {
            Ok(sudo_address) => sudo_address,
            Err(e) => {
                return Err(BridgeAccountInfoResponseError::invalid_sudo_address(e));
            },
        };

        let withdrawer_address = match Address::try_from_raw(&withdrawer_address) {
            Ok(withdrawer_address) => withdrawer_address,
            Err(e) => {
                return Err(BridgeAccountInfoResponseError::invalid_withdrawer_address(e));
            },
        };

        Ok(
            Self {
                height,
                info: Some(
                    BridgeAccountInfo { rollup_id, asset_id, sudo_address, withdrawer_address },
                ),
            },
        )
    }

    /// The wire form of this response.
    #[must_use]
    pub fn into_raw(self) -> (raw: raw::bridge::BridgeAccountInfoResponse)
        ensures
            raw@ == info_response_to_raw(self@),
    {
        let info = match self.info {
            Some(info) => info,
            None => {
                return raw::bridge::BridgeAccountInfoResponse {
                    height: self.height,
                    rollup_id: None,
                    asset_id: None,
                    sudo_address: None,
                    withdrawer_address: None,
                };
            },
        };

        raw::bridge::BridgeAccountInfoResponse {
            height: self.height,
            rollup_id: Some(info.rollup_id.into_raw()),
            asset_id: Some(info.asset_id.to_vec()),
            sudo_address: Some(info.sudo_address.into_raw()),
            withdrawer_address: Some(info.withdrawer_address.into_raw()),
        }
    }
}

impl raw::bridge::BridgeAccountInfoResponse {
    /// Validates this received response; see
    /// [`BridgeAccountInfoResponse::try_from_raw`].
    pub fn try_into_native(self) -> (res: Result<
        BridgeAccountInfoResponse,
        BridgeAccountInfoResponseError,
    >)
        ensures
            viewed(res) == info_response_from_raw(self@),
    {
        BridgeAccountInfoResponse::try_from_raw(self)
    }

    /// The wire form of a validated response.
    #[must_use]
    pub fn from_native(native: BridgeAccountInfoResponse) -> (raw: Self)
        ensures
            raw@ == info_response_to_raw(native@),
    {
        native.into_raw()
    }
}

/// Sending an account-info response and validating what arrives gives
/// back the response sent.
pub proof fn lemma_info_response_round_trip(response: BridgeAccountInfoResponse)
    ensures
        info_response_from_raw(info_response_to_raw(response@)) matches Ok(received) && received
            == response@,
{
    if let Some(info) = response.info {
        info.rollup_id.lemma_len();
        info.asset_id.lemma_len();
        info.sudo_address.lemma_len();
        info.withdrawer_address.lemma_len();
    }
}

} // verus!

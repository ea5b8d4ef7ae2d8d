//! Read-only queries about bridge accounts.
//!
//! A query is answered from a snapshot of the node's state. Reading the
//! snapshot is the caller's work; deciding what to read next and what to
//! answer is done here. Each request value says, by its type, which read it
//! is waiting for, and offers one method that takes the outcome of that read
//! and yields either the next request value or the finished answer.
//!
//! Every answer that reports a failure carries a non-zero code; every
//! answer that reports success carries code zero, the path asked for, the
//! encoded response and the height of the snapshot.

use vstd::prelude::*;
use vstd::string::{StrSliceExecFns, StringExecFns, StringSliceAdditionalSpecFns};
use vstd::utf8::encode_utf8;

use crate::abci::{AbciErrorCode, QueryResponse, QueryResponseView, CODE_OK};
use crate::bridge::{
    info_response_to_raw, last_tx_hash_response_to_raw, BridgeAccountInfo,
    BridgeAccountInfoResponse, BridgeAccountInfoResponseView, BridgeAccountInfoView,
    BridgeAccountLastTxHashResponse, BridgeAccountLastTxHashResponseView,
};
use crate::hexadecimal::{decode_hex, hex_decode_error_text, hex_decoded, is_hex};
use crate::outcome::viewed_both;
use crate::primitive::asset;
use crate::primitive::{Address, AddressError, AddressErrorKind, RollupId, ADDRESS_LEN};
use crate::raw;

verus! {

/// The text of an error that may be absent.
pub open spec fn optional_text(text: Option<String>) -> Option<Seq<char>> {
    match text {
        Some(t) => Some(t@),
        None => None,
    }
}

/// The log line of a failure: what was being done and, where an error
/// was at hand, a colon and the error behind it.
pub open spec fn failure_log(err: Option<Seq<char>>, info: Seq<char>) -> Seq<char> {
    match err {
        None => info,
        Some(err) => info + ": "@ + err,
    }
}

/// The answer that reports a failure: the code's number and sentence,
/// the given log line, and nothing else.
pub open spec fn failure_response(code: AbciErrorCode, log: Seq<char>) -> QueryResponseView {
    QueryResponseView {
        code: code.value_spec(),
        log,
        info: code.info_text(),
        key: Seq::empty(),
        value: Seq::empty(),
        height: 0,
    }
}

/// The answer that reports success.
pub open spec fn success_response(key: Seq<u8>, value: Seq<u8>, height: u64) -> QueryResponseView {
    QueryResponseView {
        code: CODE_OK,
        log: Seq::empty(),
        info: Seq::empty(),
        key,
        value,
        height,
    }
}

/// Builds the answer that reports a failure.
pub fn error_query_response(err: Option<String>, code: AbciErrorCode, info: &str) -> (response:
    QueryResponse)
    ensures
        response@ == failure_response(code, failure_log(optional_text(err), info@)),
{
    let mut log = String::from_str(info);
    match err {
        None => {},
        Some(err) => {
            log.append(": ");
            log.append(err.as_str());
        },
    }
    QueryResponse {
        code: code.value(),
        log,
        info: code.info(),
        key: Vec::new(),
        value: Vec::new(),
        height: 0,
    }
}

/// The name of the parameter that carries the account address.
pub open spec fn address_parameter() -> Seq<char> {
    "address"@
}

/// Request parameters as pairs of texts.
pub open spec fn parameters_view(params: Seq<(String, String)>) -> Seq<(Seq<char>, Seq<char>)> {
    params.map_values(|p: (String, String)| (p.0@, p.1@))
}

/// The value of the first parameter with the given name, if there is
/// one.
pub open spec fn first_value(params: Seq<(Seq<char>, Seq<char>)>, name: Seq<char>) -> Option<
    Seq<char>,
>
    decreases params.len(),
{
    if params.len() == 0 {
        None
    } else if params[0].0 == name {
        Some(params[0].1)
    } else {
        first_value(params.drop_first(), name)
    }
}

/// The log line for an address parameter that is not hexadecimal.
pub open spec fn undecodable_address_log(detail: Seq<char>) -> Seq<char> {
    "address could not be constructed from provided parameter: "@
        + "failed decoding hex encoded bytes: "@ + detail
}

/// The log line for an address parameter of the wrong length.
pub open spec fn misshapen_address_log(received: nat) -> Seq<char> {
    "address could not be constructed from provided parameter: "@
        + "failed constructing address from bytes: "@ + AddressError(
        AddressErrorKind::IncorrectAddressLength { received: received as usize },
    ).message_text()
}

/// The address that decoded parameter bytes stand for, or the answer
/// that refuses them: decoding must have succeeded and must have given
/// exactly 20 bytes.
pub open spec fn address_of_decoded(decoded: Result<Seq<u8>, Seq<char>>) -> Result<
    Seq<u8>,
    QueryResponseView,
> {
    match decoded {
        Err(detail) => Err(
            failure_response(AbciErrorCode::InvalidParameter, undecodable_address_log(detail)),
        ),
        Ok(bytes) => if bytes.len() == ADDRESS_LEN {
            Ok(bytes)
        } else {
            Err(
                failure_response(
                    AbciErrorCode::InvalidParameter,
                    misshapen_address_log(bytes.len()),
                ),
            )
        },
    }
}

/// What decoding a text as hexadecimal gives.
pub open spec fn decoded_hex(data: Seq<u8>) -> Result<Seq<u8>, Seq<char>> {
    if is_hex(data) {
        Ok(hex_decoded(data))
    } else {
        Err(hex_decode_error_text(data))
    }
}

/// The address that request parameters name, or the answer that refuses
/// them. The first parameter called `address` counts; it must be the
/// hexadecimal form of 20 bytes.
pub open spec fn requested_address(params: Seq<(Seq<char>, Seq<char>)>) -> Result<
    Seq<u8>,
    QueryResponseView,
> {
    match first_value(params, address_parameter()) {
        None => Err(
            failure_response(
                AbciErrorCode::InvalidParameter,
                "path did not contain address parameter"@,
            ),
        ),
        Some(text) => address_of_decoded(decoded_hex(encode_utf8(text))),
    }
}

/// The view of a decoding outcome.
pub open spec fn decoding_view(decoded: Result<Vec<u8>, String>) -> Result<Seq<u8>, Seq<char>> {
    match decoded {
        Ok(bytes) => Ok(bytes@),
        Err(detail) => Err(detail@),
    }
}

/// Turns decoded parameter bytes into an address, or into the answer
/// that refuses the request.
pub fn address_from_decoded(decoded: Result<Vec<u8>, String>) -> (res: Result<
    Address,
    QueryResponse,
>)
    ensures
        viewed_both(res) == address_of_decoded(decoding_view(decoded)),
{
    let bytes = match decoded {
        Ok(bytes) => bytes,
        Err(detail) => {
            let mut log = String::from_str(
                "address could not be constructed from provided parameter: ",
            );
            log.append("failed decoding hex encoded bytes: ");
            log.append(detail.as_str());
            return Err(invalid_parameter(log));
        },
    };
    match Address::try_from_slice(bytes.as_slice()) {
        Ok(address) => Ok(address),
        Err(e) => {
            let mut log = String::from_str(
                "address could not be constructed from provided parameter: ",
            );
            log.append("failed constructing address from bytes: ");
            log.append(e.message().as_str());
            Err(invalid_parameter(log))
        },
    }
}

/// The answer that refuses a request for a fault in its parameters.
fn invalid_parameter(log: String) -> (response: QueryResponse)
    ensures
        response@ == failure_response(AbciErrorCode::InvalidParameter, log@),
{
    QueryResponse {
        code: AbciErrorCode::InvalidParameter.value(),
        log,
        info: AbciErrorCode::InvalidParameter.info(),
        key: Vec::new(),
        value: Vec::new(),
        height: 0,
    }
}

/// Looks up the first parameter with the given name.
fn find_parameter<'a>(params: &'a [(String, String)], name: &str) -> (found: Option<&'a String>)
    ensures
        match found {
            Some(value) => first_value(parameters_view(params@), name@) == Some(value@),
            None => first_value(parameters_view(params@), name@) is None,
        },
{
    let wanted = String::from_str(name);
    let ghost all = parameters_view(params@);
    let mut i: usize = 0;
    assert(all.skip(0) =~= all);
    while i < params.len()
        invariant
            i <= params.len(),
            all == parameters_view(params@),
            wanted@ == name@,
            first_value(all, name@) == first_value(all.skip(i as int), name@),
        decreases params.len() - i,
    {
        proof {
            let rest = all.skip(i as int);
            assert(rest[0] == all[i as int]);
            assert(rest.drop_first() =~= all.skip(i as int + 1));
        }
        if params[i].0 == wanted {
            return Some(&params[i].1);
        }
        i += 1;
    }
    assert(all.skip(i as int).len() == 0);
    None
}

/// Finds the account address among the request parameters and decodes
/// it, or answers why it could not.
pub fn preprocess_request(params: &[(String, String)]) -> (res: Result<Address, QueryResponse>)
    ensures
        viewed_both(res) == requested_address(parameters_view(params@)),
{
    let address = match find_parameter(params, "address") {
        Some(address) => address,
        None => {
            return Err(invalid_parameter(String::from_str("path did not contain address parameter")));
        },
    };
    let decoded = decode_hex(address.as_str().as_bytes());
    address_from_decoded(decoded)
}

/// The greatest height that a response can carry.
pub const MAX_RESPONSE_HEIGHT: u64 = 0x7fff_ffff_ffff_ffff;

/// No answer that reports a failure carries the code of success.
pub proof fn lemma_failure_is_not_success(code: AbciErrorCode, log: Seq<char>)
    ensures
        failure_response(code, log).code != CODE_OK,
        success_response(Seq::empty(), Seq::empty(), 0).code == CODE_OK,
{
}

/// The answer to an internal failure: what was being done and, where a
/// read failed, the read error behind it.
pub open spec fn internal_failure(err: Option<Seq<char>>, info: Seq<char>) -> QueryResponseView {
    failure_response(AbciErrorCode::InternalError, failure_log(err, info))
}

/// A response that is decided and waits to be encoded.
///
/// It holds the message to encode. Once the caller has the encoding,
/// [`PendingResponse::respond`] wraps it into the answer.
pub struct PendingResponse<Message> {
    key: Vec<u8>,
    height: u64,
    message: Message,
}

impl<Message> PendingResponse<Message> {
    /// The path that was queried, as bytes.
    pub closed spec fn key(self) -> Seq<u8> {
        self.key@
    }

    /// The height of the snapshot that was read.
    pub closed spec fn snapshot_height(self) -> u64 {
        self.height
    }

    /// The message that waits to be encoded.
    pub closed spec fn pending_message(self) -> Message {
        self.message
    }

    pub fn height(&self) -> (height: u64)
        ensures
            height == self.snapshot_height(),
    {
        self.height
    }

    pub fn message(&self) -> (message: &Message)
        ensures
            *message == self.pending_message(),
    {
        &self.message
    }

    /// Wraps the encoded message into the answer that reports success.
    ///
    /// A response cannot carry a height above [`MAX_RESPONSE_HEIGHT`].
    pub fn respond(self, payload: Vec<u8>) -> (response: QueryResponse)
        requires
            self.snapshot_height() <= MAX_RESPONSE_HEIGHT,
        ensures
            response@ == success_response(self.key(), payload@, self.snapshot_height()),
    {
        QueryResponse {
            code: CODE_OK,
            log: String::new(),
            info: String::new(),
            key: self.key,
            value: payload,
            height: self.height,
        }
    }
}

/// The request waits for the height of the snapshot.
pub struct AwaitingBlockHeight;

/// The request waits for the rollup id registered for the account.
pub struct AwaitingRollupId {
    pub height: u64,
}

/// The request waits for the asset id registered for the account.
pub struct AwaitingAssetId {
    pub height: u64,
    pub rollup_id: RollupId,
}

/// The request waits for the account's sudo address.
pub struct AwaitingSudoAddress {
    pub height: u64,
    pub rollup_id: RollupId,
    pub asset_id: asset::Id,
}

/// The request waits for the account's withdrawer address.
pub struct AwaitingWithdrawerAddress {
    pub height: u64,
    pub rollup_id: RollupId,
    pub asset_id: asset::Id,
    pub sudo_address: Address,
}

/// The request waits for the hash of the account's last transaction.
pub struct AwaitingLastTxHash {
    pub height: u64,
}

/// A query for the registration of a bridge account, part of the way
/// to its answer. `Stage` says what has been read and what is read next.
pub struct BridgeAccountInfoRequest<Stage> {
    key: Vec<u8>,
    address: Address,
    stage: Stage,
}

/// What became of an account-info request once the rollup id was read.
pub enum RollupIdStep {
    /// The account is registered; its asset id is read next.
    Registered(BridgeAccountInfoRequest<AwaitingAssetId>),
    /// The account is not registered; the response says so.
    Unregistered(PendingResponse<raw::bridge::BridgeAccountInfoResponse>),
    /// The read failed.
    Failed(QueryResponse),
}

impl<Stage> BridgeAccountInfoRequest<Stage> {
    /// The path that was queried, as bytes.
    pub closed spec fn key(self) -> Seq<u8> {
        self.key@
    }

    /// The account asked about.
    pub closed spec fn account(self) -> Seq<u8> {
        self.address@
    }

    /// What has been read so far.
    pub closed spec fn stage(self) -> Stage {
        self.stage
    }

    /// This request is the given one, one read further: it asks about
    /// the same account under the same path.
    pub open spec fn continues<Earlier>(self, earlier: BridgeAccountInfoRequest<Earlier>) -> bool {
        &&& self.key() == earlier.key()
        &&& self.account() == earlier.account()
    }

    /// The account whose state the caller is to read.
    pub fn address(&self) -> (address: Address)
        ensures
            address@ == self.account(),
    {
        self.address
    }
}

/// Opens a query for the registration of a bridge account.
///
/// Refuses the request if its parameters do not name an account; see
/// [`requested_address`]. Otherwise the height of the snapshot is to be read
/// next.
pub fn bridge_account_info_request(path: &str, params: &[(String, String)]) -> (res: Result<
    BridgeAccountInfoRequest<AwaitingBlockHeight>,
    QueryResponse,
>)
    ensures
        match res {
            Ok(request) => {
                &&& requested_address(parameters_view(params@)) matches Ok(address)
                &&& request.account() == address
                &&& request.key() == path.spec_bytes()
            },
            Err(response) => {
                &&& requested_address(parameters_view(params@)) matches Err(refusal)
                &&& response@ == refusal
            },
        },
{
    match preprocess_request(params) {
        Ok(address) => Ok(
            BridgeAccountInfoRequest {
                key: path.as_bytes_vec(),
                address,
                stage: AwaitingBlockHeight,
            },
        ),
        Err(response) => Err(response),
    }
}

impl BridgeAccountInfoRequest<AwaitingBlockHeight> {
    /// Takes the outcome of reading the snapshot's height: the height, or
    /// the read error as text.
    pub fn on_block_height(self, read: Result<u64, String>) -> (next: Result<
        BridgeAccountInfoRequest<AwaitingRollupId>,
        QueryResponse,
    >)
        ensures
            match read {
                Ok(height) => {
                    &&& next matches Ok(request)
                    &&& request.continues(self)
                    &&& request.stage() == (AwaitingRollupId { height })
                },
                Err(err) => {
                    &&& next matches Err(response)
                    &&& response@ == internal_failure(Some(err@), "failed to get block height"@)
                },
            },
    {
        match read {
            Ok(height) => Ok(
                BridgeAccountInfoRequest {
                    key: self.key,
                    address: self.address,
                    stage: AwaitingRollupId { height },
                },
            ),
            Err(err) => Err(
                error_query_response(
                    Some(err),
                    AbciErrorCode::InternalError,
                    "failed to get block height",
                ),
            ),
        }
    }
}

impl BridgeAccountInfoRequest<AwaitingRollupId> {
    /// Takes the outcome of reading the account's rollup id: the id,
    /// nothing if the account is not registered, or the read error as text.
    pub fn on_rollup_id(self, read: Result<Option<RollupId>, String>) -> (next: RollupIdStep)
        ensures
            match read {
                Ok(Some(rollup_id)) => {
                    &&& next matches RollupIdStep::Registered(request)
                    &&& request.continues(self)
                    &&& request.stage() == (AwaitingAssetId {
                        height: self.stage().height,
                        rollup_id,
                    })
                },
                Ok(None) => {
                    &&& next matches RollupIdStep::Unregistered(pending)
                    &&& pending.key() == self.key()
                    &&& pending.snapshot_height() == self.stage().height
                    &&& pending.pending_message()@ == info_response_to_raw(
                        BridgeAccountInfoResponseView { height: self.stage().height, info: None },
                    )
                },
                Err(err) => {
                    &&& next matches RollupIdStep::Failed(response)
                    &&& response@ == internal_failure(Some(err@), "failed to get rollup id"@)
                },
            },
    {
        let height = self.stage.height;
        match read {
            Ok(Some(rollup_id)) => RollupIdStep::Registered(
                BridgeAccountInfoRequest {
                    key: self.key,
                    address: self.address,
                    stage: AwaitingAssetId { height, rollup_id },
                },
            ),
            Ok(None) => {
                let response = BridgeAccountInfoResponse { height, info: None };
                RollupIdStep::Unregistered(
                    PendingResponse { key: self.key, height, message: response.into_raw() },
                )
            },
            Err(err) => RollupIdStep::Failed(
                error_query_response(
                    Some(err),
                    AbciErrorCode::InternalError,
                    "failed to get rollup id",
                ),
            ),
        }
    }
}

impl BridgeAccountInfoRequest<AwaitingAssetId> {
    /// Takes the outcome of reading the account's asset id: the id, or
    /// the read error as text.
    pub fn on_asset_id(self, read: Result<asset::Id, String>) -> (next: Result<
        BridgeAccountInfoRequest<AwaitingSudoAddress>,
        QueryResponse,
    >)
        ensures
            match read {
                Ok(asset_id) => {
                    &&& next matches Ok(request)
                    &&& request.continues(self)
                    &&& request.stage() == (AwaitingSudoAddress {
                        height: self.stage().height,
                        rollup_id: self.stage().rollup_id,
                        asset_id,
                    })
                },
                Err(err) => {
                    &&& next matches Err(response)
                    &&& response@ == internal_failure(Some(err@), "failed to get asset id"@)
                },
            },
    {
        let AwaitingAssetId { height, rollup_id } = self.stage;
        match read {
            Ok(asset_id) => Ok(
                BridgeAccountInfoRequest {
                    key: self.key,
                    address: self.address,
                    stage: AwaitingSudoAddress { height, rollup_id, asset_id },
                },
            ),
            Err(err) => Err(
                error_query_response(
                    Some(err),
                    AbciErrorCode::InternalError,
                    "failed to get asset id",
                ),
            ),
        }
    }
}

impl BridgeAccountInfoRequest<AwaitingSudoAddress> {
    /// Takes the outcome of reading the account's sudo address: the
    /// address, nothing if none is stored, or the read error as text. A
    /// registered account without a sudo address is an inconsistency of the
    /// node's state and is answered as an internal error.
    pub fn on_sudo_address(self, read: Result<Option<Address>, String>) -> (next: Result<
        BridgeAccountInfoRequest<AwaitingWithdrawerAddress>,
        QueryResponse,
    >)
        ensures
            match read {
                Ok(Some(sudo_address)) => {
                    &&& next matches Ok(request)
                    &&& request.continues(self)
                    &&& request.stage() == (AwaitingWithdrawerAddress {
                        height: self.stage().height,
                        rollup_id: self.stage().rollup_id,
                        asset_id: self.stage().asset_id,
                        sudo_address,
                    })
                },
                Ok(None) => {
                    &&& next matches Err(response)
                    &&& response@ == internal_failure(None, "sudo address not set"@)
                },
                Err(err) => {
                    &&& next matches Err(response)
                    &&& response@ == internal_failure(Some(err@), "failed to get sudo address"@)
                },
            },
    {
        let AwaitingSudoAddress { height, rollup_id, asset_id } = self.stage;
        match read {
            Ok(Some(sudo_address)) => Ok(
                BridgeAccountInfoRequest {
                    key: self.key,
                    address: self.address,
                    stage: AwaitingWithdrawerAddress { height, rollup_id, asset_id, sudo_address },
                },
            ),
            Ok(None) => Err(
                error_query_response(None, AbciErrorCode::InternalError, "sudo address not set"),
            ),
            Err(err) => Err(
                error_query_response(
                    Some(err),
                    AbciErrorCode::InternalError,
                    "failed to get sudo address",
                ),
            ),
        }
    }
}

impl BridgeAccountInfoRequest<AwaitingWithdrawerAddress> {
    /// The registration that this request reports once the withdrawer
    /// address is known.
    pub open spec fn registration(self, withdrawer_address: Address) -> BridgeAccountInfoView {
        BridgeAccountInfoView {
            rollup_id: self.stage().rollup_id@,
            asset_id: self.stage().asset_id@,
            sudo_address: self.stage().sudo_address@,
            withdrawer_address: withdrawer_address@,
        }
    }

    /// Takes the outcome of reading the account's withdrawer address:
    /// the address, nothing if none is stored, or the read error as text. A
    /// registered account without a withdrawer address is an inconsistency of
    /// the node's state and is answered as an internal error.
    pub fn on_withdrawer_address(self, read: Result<Option<Address>, String>) -> (next: Result<
        PendingResponse<raw::bridge::BridgeAccountInfoResponse>,
        QueryResponse,
    >)
        ensures
            match read {
                Ok(Some(withdrawer_address)) => {
                    &&& next matches Ok(pending)
                    &&& pending.key() == self.key()
                    &&& pending.snapshot_height() == self.stage().height
                    &&& pending.pending_message()@ == info_response_to_raw(
                        BridgeAccountInfoResponseView {
                            height: self.stage().height,
                            info: Some(self.registration(withdrawer_address)),
                        },
                    )
                },
                Ok(None) => {
                    &&& next matches Err(response)
                    &&& response@ == internal_failure(None, "withdrawer address not set"@)
                },
                Err(err) => {
                    &&& next matches Err(response)
                    &&& response@ == internal_failure(
                        Some(err@),
                        "failed to get withdrawer address"@,
                    )
                },
            },
    {
        let AwaitingWithdrawerAddress { height, rollup_id, asset_id, sudo_address } = self.stage;
        match read {
            Ok(Some(withdrawer_address)) => {
                let response = BridgeAccountInfoResponse {
                    height,
                    info: Some(
                        BridgeAccountInfo { rollup_id, asset_id, sudo_address, withdrawer_address },
                    ),
                };
                Ok(PendingResponse { key: self.key, height, message: response.into_raw() })
            },
            Ok(None) => Err(
                error_query_response(
                    None,
                    AbciErrorCode::InternalError,
                    "withdrawer address not set",
                ),
            ),
            Err(err) => Err(
                error_query_response(
                    Some(err),
                    AbciErrorCode::InternalError,
                    "failed to get withdrawer address",
                ),
            ),
        }
    }
}

/// A query for the hash of the last transaction of a bridge account,
/// part of the way to its answer. `Stage` says what has been read and what
/// is read next.
pub struct BridgeAccountLastTxHashRequest<Stage> {
    key: Vec<u8>,
    address: Address,
    stage: Stage,
}

impl<Stage> BridgeAccountLastTxHashRequest<Stage> {
    /// The path that was queried, as bytes.
    pub closed spec fn key(self) -> Seq<u8> {
        self.key@
    }

    /// The account asked about.
    pub closed spec fn account(self) -> Seq<u8> {
        self.address@
    }

    /// What has been read so far.
    pub closed spec fn stage(self) -> Stage {
        self.stage
    }

    /// This request is the given one, one read further: it asks about
    /// the same account under the same path.
    pub open spec fn continues<Earlier>(
        self,
        earlier: BridgeAccountLastTxHashRequest<Earlier>,
    ) -> bool {
        &&& self.key() == earlier.key()
        &&& self.account() == earlier.account()
    }

    /// The account whose state the caller is to read.
    pub fn address(&self) -> (address: Address)
        ensures
            address@ == self.account(),
    {
        self.address
    }
}

/// Opens a query for the hash of the last transaction of a bridge
/// account.
///
/// Refuses the request if its parameters do not name an account; see
/// [`requested_address`]. Otherwise the height of the snapshot is to be read
/// next.
pub fn bridge_account_last_tx_hash_request(path: &str, params: &[(String, String)]) -> (res: Result<
    BridgeAccountLastTxHashRequest<AwaitingBlockHeight>,
    QueryResponse,
>)
    ensures
        match res {
            Ok(request) => {
                &&& requested_address(parameters_view(params@)) matches Ok(address)
                &&& request.account() == address
                &&& request.key() == path.spec_bytes()
            },
            Err(response) => {
                &&& requested_address(parameters_view(params@)) matches Err(refusal)
                &&& response@ == refusal
            },
        },
{
    match preprocess_request(params) {
        Ok(address) => Ok(
            BridgeAccountLastTxHashRequest {
                key: path.as_bytes_vec(),
                address,
                stage: AwaitingBlockHeight,
            },
        ),
        Err(response) => Err(response),
    }
}

/// The view of a transaction hash that may be absent.
pub open spec fn optional_hash_view(hash: Option<[u8; 32]>) -> Option<Seq<u8>> {
    match hash {
        Some(h) => Some(h@),
        None => None,
    }
}

impl BridgeAccountLastTxHashRequest<AwaitingBlockHeight> {
    /// Takes the outcome of reading the snapshot's height: the height, or
    /// the read error as text.
    pub fn on_block_height(self, read: Result<u64, String>) -> (next: Result<
        BridgeAccountLastTxHashRequest<AwaitingLastTxHash>,
        QueryResponse,
    >)
        ensures
            match read {
                Ok(height) => {
                    &&& next matches Ok(request)
                    &&& request.continues(self)
                    &&& request.stage() == (AwaitingLastTxHash { height })
                },
                Err(err) => {
                    &&& next matches Err(response)
                    &&& response@ == internal_failure(Some(err@), "failed getting block height"@)
                },
            },
    {
        match read {
            Ok(height) => Ok(
                BridgeAccountLastTxHashRequest {
                    key: self.key,
                    address: self.address,
                    stage: AwaitingLastTxHash { height },
                },
            ),
            Err(err) => Err(
                error_query_response(
                    Some(err),
                    AbciErrorCode::InternalError,
                    "failed getting block height",
                ),
            ),
        }
    }
}

impl BridgeAccountLastTxHashRequest<AwaitingLastTxHash> {
    /// Takes the outcome of reading the account's last transaction
    /// hash: the hash, nothing if the account never submitted a transaction,
    /// or the read error as text.
    pub fn on_last_tx_hash(self, read: Result<Option<[u8; 32]>, String>) -> (next: Result<
        PendingResponse<raw::bridge::BridgeAccountLastTxHashResponse>,
        QueryResponse,
    >)
        ensures
            match read {
                Ok(tx_hash) => {
                    &&& next matches Ok(pending)
                    &&& pending.key() == self.key()
                    &&& pending.snapshot_height() == self.stage().height
                    &&& pending.pending_message()@ == last_tx_hash_response_to_raw(
                        BridgeAccountLastTxHashResponseView {
                            height: self.stage().height,
                            tx_hash: optional_hash_view(tx_hash),
                        },
                    )
                },
                Err(err) => {
                    &&& next matches Err(response)
                    &&& response@ == internal_failure(
                        Some(err@),
                        "failed getting balance for provided address"@,
                    )
                },
            },
    {
        let height = self.stage.height;
        match read {
            Ok(tx_hash) => {
                let response = BridgeAccountLastTxHashResponse { height, tx_hash };
                Ok(PendingResponse { key: self.key, height, message: response.into_raw() })
            },
            Err(err) => Err(
                error_query_response(
                    Some(err),
                    AbciErrorCode::InternalError,
                    "failed getting balance for provided address",
                ),
            ),
        }
    }
}

} // verus!

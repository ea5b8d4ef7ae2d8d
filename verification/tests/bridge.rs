use astria_bridge::bridge::{
    BridgeAccountInfo, BridgeAccountInfoResponse, BridgeAccountInfoResponseError,
    BridgeAccountInfoResponseErrorKind, BridgeAccountLastTxHashResponse,
    BridgeAccountLastTxHashResponseError, BridgeAccountLastTxHashResponseErrorKind,
};
use astria_bridge::primitive::asset;
use astria_bridge::primitive::{
    Address, AddressError, AddressErrorKind, IncorrectRollupIdLength, RollupId,
};
use astria_bridge::raw;

#[test]
fn last_tx_hash_of_32_bytes_is_accepted() {
    let raw = raw::bridge::BridgeAccountLastTxHashResponse {
        height: 10,
        tx_hash: Some(vec![5u8; 32]),
    };
    let native = BridgeAccountLastTxHashResponse::try_from_raw(raw.clone()).unwrap();
    assert_eq!(native, BridgeAccountLastTxHashResponse { height: 10, tx_hash: Some([5u8; 32]) });
    assert_eq!(raw.try_into_native().unwrap(), native);
}

#[test]
fn last_tx_hash_may_be_absent() {
    let raw = raw::bridge::BridgeAccountLastTxHashResponse { height: 10, tx_hash: None };
    let native = BridgeAccountLastTxHashResponse::try_from_raw(raw).unwrap();
    assert_eq!(native, BridgeAccountLastTxHashResponse { height: 10, tx_hash: None });
}

#[test]
fn last_tx_hash_of_another_length_is_refused_with_that_length() {
    for len in [0usize, 31, 33] {
        let raw = raw::bridge::BridgeAccountLastTxHashResponse {
            height: 10,
            tx_hash: Some(vec![5u8; len]),
        };
        let err = BridgeAccountLastTxHashResponse::try_from_raw(raw).unwrap_err();
        assert_eq!(
            err,
            BridgeAccountLastTxHashResponseError(
                BridgeAccountLastTxHashResponseErrorKind::InvalidTxHash(len)
            )
        );
        assert_eq!(err, BridgeAccountLastTxHashResponseError::invalid_tx_hash(len));
    }
    assert_eq!(
        BridgeAccountLastTxHashResponseError::invalid_tx_hash(31).message(),
        "invalid tx hash; must be 32 bytes, got 31 bytes"
    );
}

#[test]
fn last_tx_hash_round_trip() {
    let mut hash = [0u8; 32];
    for (i, b) in hash.iter_mut().enumerate() {
        *b = 200 - i as u8;
    }
    for tx_hash in [None, Some(hash)] {
        let native = BridgeAccountLastTxHashResponse { height: u64::MAX, tx_hash };
        let raw = native.into_raw();
        assert_eq!(raw.height, u64::MAX);
        assert_eq!(raw.tx_hash, tx_hash.map(|h| h.to_vec()));
        assert_eq!(raw::bridge::BridgeAccountLastTxHashResponse::from_native(native), raw);
        assert_eq!(BridgeAccountLastTxHashResponse::try_from_raw(raw).unwrap(), native);
    }
}

fn info() -> BridgeAccountInfo {
    BridgeAccountInfo {
        rollup_id: RollupId::new([1u8; 32]),
        asset_id: asset::Id::new([2u8; 32]),
        sudo_address: Address::new([3u8; 20]),
        withdrawer_address: Address::new([4u8; 20]),
    }
}

fn raw_info() -> raw::bridge::BridgeAccountInfoResponse {
    raw::bridge::BridgeAccountInfoResponse {
        height: 7,
        rollup_id: Some(raw::primitive::RollupId { inner: vec![1u8; 32] }),
        asset_id: Some(vec![2u8; 32]),
        sudo_address: Some(raw::primitive::Address { inner: vec![3u8; 20] }),
        withdrawer_address: Some(raw::primitive::Address { inner: vec![4u8; 20] }),
    }
}

#[test]
fn info_response_of_a_registered_account() {
    let native = BridgeAccountInfoResponse::try_from_raw(raw_info()).unwrap();
    assert_eq!(native, BridgeAccountInfoResponse { height: 7, info: Some(info()) });
    assert_eq!(raw_info().try_into_native().unwrap(), native);
}

#[test]
fn info_response_without_rollup_id_is_an_unregistered_account() {
    let mut raw = raw_info();
    raw.rollup_id = None;
    let native = BridgeAccountInfoResponse::try_from_raw(raw).unwrap();
    assert_eq!(native, BridgeAccountInfoResponse { height: 7, info: None });

    let bare = raw::bridge::BridgeAccountInfoResponse {
        height: 8,
        rollup_id: None,
        asset_id: None,
        sudo_address: None,
        withdrawer_address: None,
    };
    let native = BridgeAccountInfoResponse::try_from_raw(bare).unwrap();
    assert_eq!(native, BridgeAccountInfoResponse { height: 8, info: None });
}

#[test]
fn info_response_reports_missing_fields_in_order() {
    let mut raw = raw_info();
    raw.sudo_address = None;
    raw.withdrawer_address = None;
    raw.asset_id = None;
    let err = BridgeAccountInfoResponse::try_from_raw(raw.clone()).unwrap_err();
    assert_eq!(err, BridgeAccountInfoResponseError::field_not_set("sudo_address"));
    assert_eq!(
        err.message(),
        "the expected field in the raw source type was not set: `sudo_address`"
    );

    raw.sudo_address = Some(raw::primitive::Address { inner: vec![3u8; 20] });
    let err = BridgeAccountInfoResponse::try_from_raw(raw.clone()).unwrap_err();
    assert_eq!(
        err,
        BridgeAccountInfoResponseError(BridgeAccountInfoResponseErrorKind::FieldNotSet(
            "withdrawer_address"
        ))
    );

    raw.withdrawer_address = Some(raw::primitive::Address { inner: vec![4u8; 20] });
    let err = BridgeAccountInfoResponse::try_from_raw(raw).unwrap_err();
    assert_eq!(err, BridgeAccountInfoResponseError::field_not_set("asset_id"));
}

#[test]
fn info_response_reports_invalid_fields_in_order() {
    let mut raw = raw_info();
    raw.asset_id = Some(vec![2u8; 5]);
    raw.rollup_id = Some(raw::primitive::RollupId { inner: vec![1u8; 6] });
    raw.sudo_address = Some(raw::primitive::Address { inner: vec![3u8; 7] });
    raw.withdrawer_address = Some(raw::primitive::Address { inner: vec![4u8; 8] });

    let err = BridgeAccountInfoResponse::try_from_raw(raw.clone()).unwrap_err();
    assert_eq!(
        err,
        BridgeAccountInfoResponseError::asset_id(asset::IncorrectAssetIdLength { received: 5 })
    );
    assert_eq!(err.message(), "`asset_id` field did not contain a valid asset ID");

    raw.asset_id = Some(vec![2u8; 32]);
    let err = BridgeAccountInfoResponse::try_from_raw(raw.clone()).unwrap_err();
    assert_eq!(
        err,
        BridgeAccountInfoResponseError::invalid_rollup_id(IncorrectRollupIdLength { received: 6 })
    );
    assert_eq!(err.message(), "the `rollup_id` field was invalid");

    raw.rollup_id = Some(raw::primitive::RollupId { inner: vec![1u8; 32] });
    let err = BridgeAccountInfoResponse::try_from_raw(raw.clone()).unwrap_err();
    assert_eq!(
        err,
        BridgeAccountInfoResponseError::invalid_sudo_address(AddressError(
            AddressErrorKind::IncorrectAddressLength { received: 7 }
        ))
    );
    assert_eq!(err.message(), "the `sudo_address` field was invalid");

    raw.sudo_address = Some(raw::primitive::Address { inner: vec![3u8; 20] });
    let err = BridgeAccountInfoResponse::try_from_raw(raw).unwrap_err();
    assert_eq!(
        err,
        BridgeAccountInfoResponseError::invalid_withdrawer_address(AddressError(
            AddressErrorKind::IncorrectAddressLength { received: 8 }
        ))
    );
    assert_eq!(err.message(), "the `withdrawer_address` field was invalid");
}

#[test]
fn info_response_round_trip() {
    for info in [None, Some(info())] {
        let native = BridgeAccountInfoResponse { height: 1234, info };
        let raw = native.into_raw();
        assert_eq!(raw::bridge::BridgeAccountInfoResponse::from_native(native), raw);
        assert_eq!(BridgeAccountInfoResponse::try_from_raw(raw).unwrap(), native);
    }
    assert_eq!(BridgeAccountInfoResponse { height: 7, info: Some(info()) }.into_raw(), raw_info());
}

#[test]
fn identifiers_accept_only_their_own_length() {
    assert_eq!(RollupId::try_from_slice(&[9u8; 32]).unwrap().get(), [9u8; 32]);
    assert_eq!(
        RollupId::try_from_slice(&[9u8; 20]).unwrap_err(),
        IncorrectRollupIdLength { received: 20 }
    );
    assert_eq!(
        RollupId::try_from_slice(&[9u8; 20]).unwrap_err().message(),
        "expected 32 bytes, got 20"
    );
    assert_eq!(asset::Id::try_from_slice(&[9u8; 32]).unwrap().get(), [9u8; 32]);
    assert_eq!(
        asset::Id::try_from_slice(&[]).unwrap_err(),
        asset::IncorrectAssetIdLength { received: 0 }
    );
    assert_eq!(asset::Id::try_from_slice(&[]).unwrap_err().message(), "expected 32 bytes, got 0");
    assert_eq!(Address::try_from_slice(&[9u8; 20]).unwrap().get(), [9u8; 20]);
    let err = Address::try_from_slice(&[9u8; 32]).unwrap_err();
    assert_eq!(err, AddressError(AddressErrorKind::IncorrectAddressLength { received: 32 }));
    assert_eq!(err.message(), "expected an address of 20 bytes, got `32`");
}

#[test]
fn identifiers_round_trip_through_their_raw_form() {
    let mut bytes = [0u8; 32];
    for (i, b) in bytes.iter_mut().enumerate() {
        *b = 3 * i as u8 + 1;
    }
    let id = RollupId::new(bytes);
    assert_eq!(id.to_vec(), bytes.to_vec());
    assert_eq!(id.into_raw().inner, bytes.to_vec());
    assert_eq!(RollupId::try_from_raw(&id.into_raw()).unwrap(), id);

    let asset_id = asset::Id::new(bytes);
    assert_eq!(asset_id.to_vec(), bytes.to_vec());

    let mut short = [0u8; 20];
    short.copy_from_slice(&bytes[..20]);
    let address = Address::new(short);
    assert_eq!(address.into_raw().inner, short.to_vec());
    assert_eq!(Address::try_from_raw(&address.into_raw()).unwrap(), address);
}

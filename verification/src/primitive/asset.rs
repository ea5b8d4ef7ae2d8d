//! Asset identifiers.

use vstd::prelude::*;
use vstd::string::StringExecFns;

use crate::primitive::{array_from_slice, array_to_vec};
use crate::text::{decimal, decimal_text};

verus! {

/// Number of bytes in an asset id.
pub const ASSET_ID_LEN: usize = 32;

/// The length a slice had when 32 bytes were expected for an asset id.
#[derive(Clone, Copy, Debug, PartialEq, Eq)]
pub struct IncorrectAssetIdLength {
    pub received: usize,
}

impl IncorrectAssetIdLength {
    /// The sentence that reports this error.
    pub open spec fn message_text(self) -> Seq<char> {
        "expected 32 bytes, got "@ + decimal_text(self.received as nat)
    }

    pub fn message(&self) -> (text: String)
        ensures
            text@ == self.message_text(),
    {
        let mut text = String::from_str("expected 32 bytes, got ");
        text.append(decimal(self.received as u64).as_str());
        text
    }
}

/// Identifies an asset by the 32-byte digest of its denomination.
#[derive(Clone, Copy, Debug, PartialEq, Eq)]
pub struct Id {
    inner: [u8; 32],
}

impl View for Id {
    type V = Seq<u8>;

    closed spec fn view(&self) -> Seq<u8> {
        self.inner@
    }
}

impl Id {
    /// Every asset id is exactly 32 bytes long.
    pub proof fn lemma_len(self)
        ensures
            self@.len() == ASSET_ID_LEN,
    {
    }

    pub fn new(inner: [u8; 32]) -> (id: Self)
        ensures
            id@ == inner@,
    {
        Self { inner }
    }

    pub fn get(self) -> (inner: [u8; 32])
        ensures
            inner@ == self@,
    {
        self.inner
    }

    /// Accepts exactly the slices of 32 bytes; any other length is
    /// reported back in the error.
    pub fn try_from_slice(bytes: &[u8]) -> (res: Result<Self, IncorrectAssetIdLength>)
        ensures
            match res {
                Ok(id) => bytes@.len() == ASSET_ID_LEN && id@ == bytes@,
                Err(e) => bytes@.len() != ASSET_ID_LEN && e.received == bytes@.len(),
            },
    {
        if bytes.len() != ASSET_ID_LEN {
            return Err(IncorrectAssetIdLength { received: bytes.len() });
        }
        Ok(Self { inner: array_from_slice::<32>(bytes) })
    }

    pub fn to_vec(&self) -> (out: Vec<u8>)
        ensures
            out@ == self@,
    {
        array_to_vec::<32>(&self.inner)
    }
}

} // verus!

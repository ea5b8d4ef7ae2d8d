//! Fixed-width identifiers shared by the execution and bridge modules.

use vstd::prelude::*;
use vstd::string::StringExecFns;

use crate::raw;
use crate::text::{decimal, decimal_text};

pub mod asset;

verus! {

/// Number of bytes in a rollup id.
pub const ROLLUP_ID_LEN: usize = 32;

/// Number of bytes in an account address.
pub const ADDRESS_LEN: usize = 20;

/// Copies a slice of exactly `N` bytes into an array.
pub(crate) fn array_from_slice<const N: usize>(bytes: &[u8]) -> (out: [u8; N])
    requires
        bytes@.len() == N,
    ensures
        out@ == bytes@,
{
    let mut out = [0u8; N];
    let mut i: usize = 0;
    while i < N
        invariant
            i <= N,
            bytes@.len() == N,
            forall|j: int| 0 <= j < i ==> out@[j] == bytes@[j],
        decreases N - i,
    {
        out[i] = bytes[i];
        i += 1;
    }
    assert(out@ =~= bytes@);
    out
}

/// Copies an array into a freshly allocated vector.
pub(crate) fn array_to_vec<const N: usize>(bytes: &[u8; N]) -> (out: Vec<u8>)
    ensures
        out@ == bytes@,
{
    let mut out: Vec<u8> = Vec::with_capacity(N);
    let mut i: usize = 0;
    while i < N
        invariant
            i <= N,
            out@.len() == i,
            forall|j: int| 0 <= j < i ==> out@[j] == bytes@[j],
        decreases N - i,
    {
        out.push(bytes[i]);
        i += 1;
    }
    assert(out@ =~= bytes@);
    out
}

/// A point in time as whole seconds since the Unix epoch plus a nanosecond
/// part, the way block headers carry it.
#[derive(Clone, Copy, Debug, PartialEq, Eq)]
pub struct Timestamp {
    pub seconds: i64,
    pub nanos: i32,
}

/// The length a slice had when 32 bytes were expected for a rollup id.
#[derive(Clone, Copy, Debug, PartialEq, Eq)]
pub struct IncorrectRollupIdLength {
    pub received: usize,
}

impl IncorrectRollupIdLength {
    /// The sentence that reports this error.
    pub open spec fn message_text(self) -> Seq<char> {
        "expected 32 bytes, got "@ + decimal_text(self.received as nat)
    }

    pub fn message(&self) -> (text: String)
        ensures
            text@ == self.message_text(),
    {
        let mut text = String::from_str("expected 32 bytes, got ");
        text.append(decimal(self.received as u64).as_str());
        text
    }
}

/// Identifies one rollup's transactions on the shared sequencer chain.
#[derive(Clone, Copy, Debug, PartialEq, Eq)]
pub struct RollupId {
    inner: [u8; 32],
}

impl View for RollupId {
    type V = Seq<u8>;

    closed spec fn view(&self) -> Seq<u8> {
        self.inner@
    }
}

impl RollupId {
    /// Every rollup id is exactly 32 bytes long.
    pub proof fn lemma_len(self)
        ensures
            self@.len() == ROLLUP_ID_LEN,
    {
    }

    pub fn new(inner: [u8; 32]) -> (id: Self)
        ensures
            id@ == inner@,
    {
        Self { inner }
    }

    pub fn get(self) -> (inner: [u8; 32])
        ensures
            inner@ == self@,
    {
        self.inner
    }

    /// Accepts exactly the slices of 32 bytes; any other length is
    /// reported back in the error.
    pub fn try_from_slice(bytes: &[u8]) -> (res: Result<Self, IncorrectRollupIdLength>)
        ensures
            match res {
                Ok(id) => bytes@.len() == ROLLUP_ID_LEN && id@ == bytes@,
                Err(e) => bytes@.len() != ROLLUP_ID_LEN && e.received == bytes@.len(),
            },
    {
        if bytes.len() != ROLLUP_ID_LEN {
            return Err(IncorrectRollupIdLength { received: bytes.len() });
        }
        Ok(Self { inner: array_from_slice::<32>(bytes) })
    }

    pub fn to_vec(&self) -> (out: Vec<u8>)
        ensures
            out@ == self@,
    {
        array_to_vec::<32>(&self.inner)
    }

    /// Validates a received rollup id; see [`RollupId::try_from_slice`].
    pub fn try_from_raw(raw: &raw::primitive::RollupId) -> (res: Result<
        Self,
        IncorrectRollupIdLength,
    >)
        ensures
            match res {
                Ok(id) => raw@.len() == ROLLUP_ID_LEN && id@ == raw@,
                Err(e) => raw@.len() != ROLLUP_ID_LEN && e.received == raw@.len(),
            },
    {
        Self::try_from_slice(raw.inner.as_slice())
    }

    pub fn into_raw(self) -> (raw: raw::primitive::RollupId)
        ensures
            raw@ == self@,
    {
        raw::primitive::RollupId { inner: self.to_vec() }
    }
}

/// Why bytes were not accepted as an account address.
#[derive(Clone, Copy, Debug, PartialEq, Eq)]
pub enum AddressErrorKind {
    IncorrectAddressLength { received: usize },
}

/// The error of building an [`Address`].
#[derive(Clone, Copy, Debug, PartialEq, Eq)]
pub struct AddressError(pub AddressErrorKind);

impl AddressError {
    /// The sentence that reports this error.
    pub open spec fn message_text(self) -> Seq<char> {
        match self.0 {
            AddressErrorKind::IncorrectAddressLength { received } => {
                "expected an address of 20 bytes, got `"@ + decimal_text(received as nat) + "`"@
            },
        }
    }

    pub fn message(&self) -> (text: String)
        ensures
            text@ == self.message_text(),
    {
        match self.0 {
            AddressErrorKind::IncorrectAddressLength { received } => {
                let mut text = String::from_str("expected an address of 20 bytes, got `");
                text.append(decimal(received as u64).as_str());
                text.append("`");
                text
            },
        }
    }
}

/// An account on the sequencer chain.
#[derive(Clone, Copy, Debug, PartialEq, Eq)]
pub struct Address {
    bytes: [u8; 20],
}

impl View for Address {
    type V = Seq<u8>;

    closed spec fn view(&self) -> Seq<u8> {
        self.bytes@
    }
}

impl Address {
    /// Every address is exactly 20 bytes long.
    pub proof fn lemma_len(self)
        ensures
            self@.len() == ADDRESS_LEN,
    {
    }

    pub fn new(bytes: [u8; 20]) -> (address: Self)
        ensures
            address@ == bytes@,
    {
        Self { bytes }
    }

    pub fn get(self) -> (bytes: [u8; 20])
        ensures
            bytes@ == self@,
    {
        self.bytes
    }

    /// Accepts exactly the slices of 20 bytes; any other length is
    /// reported back in the error.
    pub fn try_from_slice(bytes: &[u8]) -> (res: Result<Self, AddressError>)
        ensures
            match res {
                Ok(address) => bytes@.len() == ADDRESS_LEN && address@ == bytes@,
                Err(e) => bytes@.len() != ADDRESS_LEN && e.0 == (AddressErrorKind::IncorrectAddressLength {
                    received: bytes@.len() as usize,
                }),
            },
    {
        if bytes.len() != ADDRESS_LEN {
            return Err(
                AddressError(AddressErrorKind::IncorrectAddressLength { received: bytes.len() }),
            );
        }
        Ok(Self { bytes: array_from_slice::<20>(bytes) })
    }

    pub fn to_vec(&self) -> (out: Vec<u8>)
        ensures
            out@ == self@,
    {
        array_to_vec::<20>(&self.bytes)
    }

    /// Validates a received address; see [`Address::try_from_slice`].
    pub fn try_from_raw(raw: &raw::primitive::Address) -> (res: Result<Self, AddressError>)
        ensures
            match res {
                Ok(address) => raw@.len() == ADDRESS_LEN && address@ == raw@,
                Err(e) => raw@.len() != ADDRESS_LEN && e.0 == (AddressErrorKind::IncorrectAddressLength {
                    received: raw@.len() as usize,
                }),
            },
    {
        Self::try_from_slice(raw.inner.as_slice())
    }

    pub fn into_raw(self) -> (raw: raw::primitive::Address)
        ensures
            raw@ == self@,
    {
        raw::primitive::Address { inner: self.to_vec() }
    }
}

} // verus!

//! Unvalidated identifiers.

use vstd::prelude::*;

verus! {

/// A rollup id as received: any number of bytes.
#[derive(Clone, Debug, PartialEq, Eq)]
pub struct RollupId {
    pub inner: Vec<u8>,
}

impl View for RollupId {
    type V = Seq<u8>;

    open spec fn view(&self) -> Seq<u8> {
        self.inner@
    }
}

/// An account address as received: any number of bytes.
#[derive(Clone, Debug, PartialEq, Eq)]
pub struct Address {
    pub inner: Vec<u8>,
}

impl View for Address {
    type V = Seq<u8>;

    open spec fn view(&self) -> Seq<u8> {
        self.inner@
    }
}

} // verus!

//! Response codes and the response record of the query protocol.

use vstd::prelude::*;
use vstd::string::StringExecFns;

verus! {

/// Why a query was not answered.
#[derive(Clone, Copy, Debug, PartialEq, Eq)]
pub enum AbciErrorCode {
    /// A parameter of the request was missing or malformed.
    InvalidParameter,
    /// The node could not read its own state, or found it inconsistent.
    InternalError,
}

impl AbciErrorCode {
    /// The number that stands for this code in a response. It is never
    /// zero, which is reserved for success.
    pub open spec fn value_spec(self) -> u32 {
        match self {
            AbciErrorCode::InvalidParameter => 2,
            AbciErrorCode::InternalError => 3,
        }
    }

    /// The sentence that describes this code in a response.
    pub open spec fn info_text(self) -> Seq<char> {
        match self {
            AbciErrorCode::InvalidParameter => "one or more path parameters were invalid"@,
            AbciErrorCode::InternalError => "an internal server error occurred"@,
        }
    }

    #[verifier::when_used_as_spec(value_spec)]
    pub fn value(self) -> (value: u32)
        ensures
            value == self.value_spec(),
            value != 0,
    {
        match self {
            AbciErrorCode::InvalidParameter => 2,
            AbciErrorCode::InternalError => 3,
        }
    }

    pub fn info(self) -> (text: String)
        ensures
            text@ == self.info_text(),
    {
        match self {
            AbciErrorCode::InvalidParameter => String::from_str(
                "one or more path parameters were invalid",
            ),
            AbciErrorCode::InternalError => String::from_str("an internal server error occurred"),
        }
    }
}

/// The code of a successful response.
pub const CODE_OK: u32 = 0;

/// The answer to a query: a code, zero for success; two texts for
/// people to read; and, on success, the key asked for, the encoded value
/// and the height of the state that was read.
#[derive(Clone, Debug, PartialEq, Eq)]
pub struct QueryResponse {
    pub code: u32,
    pub log: String,
    pub info: String,
    pub key: Vec<u8>,
    pub value: Vec<u8>,
    pub height: u64,
}

/// What a [`QueryResponse`] holds.
pub struct QueryResponseView {
    pub code: u32,
    pub log: Seq<char>,
    pub info: Seq<char>,
    pub key: Seq<u8>,
    pub value: Seq<u8>,
    pub height: u64,
}

impl View for QueryResponse {
    type V = QueryResponseView;

    open spec fn view(&self) -> QueryResponseView {
        QueryResponseView {
            code: self.code,
            log: self.log@,
            info: self.info@,
            key: self.key@,
            value: self.value@,
            height: self.height,
        }
    }
}

} // verus!

//! Hexadecimal text, decoded by the `hex` crate.

use vstd::prelude::*;

verus! {

/// The value of a hexadecimal digit given as an ASCII byte, in either
/// case; `None` for every other byte.
pub open spec fn hex_digit_value(byte: u8) -> Option<u8> {
    if 0x30 <= byte <= 0x39 {
        Some((byte - 0x30) as u8)
    } else if 0x41 <= byte <= 0x46 {
        Some((byte - 0x41 + 10) as u8)
    } else if 0x61 <= byte <= 0x66 {
        Some((byte - 0x61 + 10) as u8)
    } else {
        None
    }
}

/// Hexadecimal text is an even number of hexadecimal digits.
pub open spec fn is_hex(data: Seq<u8>) -> bool {
    &&& data.len() % 2 == 0
    &&& forall|i: int| 0 <= i < data.len() ==> (#[trigger] hex_digit_value(data[i])) is Some
}

/// The bytes that hexadecimal text stands for: each pair of digits gives
/// one byte, the first digit being the higher half.
pub open spec fn hex_decoded(data: Seq<u8>) -> Seq<u8> {
    Seq::new(
        data.len() / 2,
        |i: int|
            (hex_digit_value(data[2 * i])->0 * 16 + hex_digit_value(data[2 * i + 1])->0) as u8,
    )
}

/// The message with which the `hex` crate refuses text that is not
/// hexadecimal.
pub uninterp spec fn hex_decode_error_text(data: Seq<u8>) -> Seq<char>;

/// `hex::decode`, with a refusal turned into its message.
///
/// Believed of the `hex` crate: it accepts exactly the texts of even
/// length that consist of the digits `0-9`, `a-f` and `A-F`, and returns for
/// them one byte per pair of digits, higher half first. For any other text
/// it returns an error, whose message is a function of the text.
#[verifier::external_body]
pub(crate) fn decode_hex(data: &[u8]) -> (res: Result<Vec<u8>, String>)
    ensures
        match res {
            Ok(bytes) => is_hex(data@) && bytes@ == hex_decoded(data@),
            Err(message) => !is_hex(data@) && message@ == hex_decode_error_text(data@),
        },
{
    match hex::decode(data) {
        Ok(bytes) => Ok(bytes),
        Err(e) => Err(e.to_string()),
    }
}

} // verus!

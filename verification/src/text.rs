//! Text stored as bytes: UTF-8 decoding and zero-terminated strings.
use vstd::prelude::*;

verus! {

/// Text of UTF-8 encoded bytes; `None` when they are not valid UTF-8.
pub open spec fn utf8_text(bytes: Seq<u8>) -> Option<Seq<char>> {
    if vstd::utf8::valid_utf8(bytes) {
        Some(vstd::utf8::decode_utf8(bytes))
    } else {
        None
    }
}

/// Calls `std::str::from_utf8` and copies the text: it succeeds exactly on
/// valid UTF-8 and then yields the characters the bytes encode.
#[verifier::external_body]
pub(crate) fn decode_utf8(bytes: &[u8]) -> (text: Option<String>)
    ensures
        text is Some <==> vstd::utf8::valid_utf8(bytes@),
        text matches Some(t) ==> t@ == vstd::utf8::decode_utf8(bytes@),
{
    std::str::from_utf8(bytes).ok().map(|s| s.to_owned())
}

/// Finds the first zero byte.
pub fn find_nul(bytes: &[u8]) -> (index: Option<usize>)
    ensures
        match index {
            Some(i) => i < bytes@.len() && bytes@[i as int] == 0 && forall|j: int| 0 <= j < i ==> bytes@[j] != 0,
            None => forall|j: int| 0 <= j < bytes@.len() ==> bytes@[j] != 0,
        },
{
    let len = bytes.len();
    let mut i: usize = 0;
    while i < len
        invariant
            len == bytes@.len(),
            i <= len,
            forall|j: int| 0 <= j < i ==> bytes@[j] != 0,
        decreases len - i,
    {
        if bytes[i] == 0 {
            return Some(i);
        }
        i = i + 1;
    }
    None
}

/// Why bytes do not hold a zero-terminated UTF-8 string.
#[derive(Debug, Clone, Copy, PartialEq, Eq, Structural)]
pub enum CStringError {
    /// No zero byte ends the string.
    MissingNul,
    /// The bytes before the first zero byte are not UTF-8.
    InvalidUtf8,
}

/// Whether `i` is the index of the first zero byte.
pub open spec fn spec_is_first_nul(bytes: Seq<u8>, i: int) -> bool {
    0 <= i < bytes.len() && bytes[i] == 0 && forall|j: int| 0 <= j < i ==> bytes[j] != 0
}

/// The text of a zero-terminated UTF-8 string: the bytes before the first
/// zero byte, decoded.
pub fn c_string(bytes: &[u8]) -> (text: Result<String, CStringError>)
    ensures
        (forall|j: int| 0 <= j < bytes@.len() ==> bytes@[j] != 0) <==> text == Err::<String, CStringError>(
            CStringError::MissingNul,
        ),
        forall|i: int| #[trigger] spec_is_first_nul(bytes@, i) ==> {
            match utf8_text(bytes@.subrange(0, i)) {
                Some(t) => text matches Ok(s) && s@ == t,
                None => text == Err::<String, CStringError>(CStringError::InvalidUtf8),
            }
        },
{
    match find_nul(bytes) {
        None => Err(CStringError::MissingNul),
        Some(end) => {
            let part = vstd::slice::slice_subrange(bytes, 0, end);
            proof {
                assert forall|i: int| #[trigger] spec_is_first_nul(bytes@, i) implies i == end by {
                    if i < end {
                        assert(bytes@[i] != 0);
                    } else if i > end {
                        assert(bytes@[end as int] != 0);
                    }
                }
            }
            match decode_utf8(part) {
                Some(s) => Ok(s),
                None => Err(CStringError::InvalidUtf8),
            }
        },
    }
}

} // verus!

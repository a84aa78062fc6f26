//! Conversions shared by the modules that hand names to libpd.
//!
//! libpd takes its names as NUL terminated C strings, so a name that holds a NUL byte of its
//! own can never reach it: the conversion fails with the position of that byte.

use crate::error::StringConversionError;
use vstd::prelude::*;
use vstd::utf8::encode_utf8;

verus! {

/// The bytes of a string of characters, as UTF-8.
pub open spec fn utf8_bytes(s: Seq<char>) -> Seq<u8> {
    encode_utf8(s)
}

/// A string can be handed to C when no byte of its UTF-8 encoding is NUL.
pub open spec fn is_c_compatible(s: Seq<char>) -> bool {
    !utf8_bytes(s).contains(0u8)
}

/// `pos` is the position of the first NUL byte in `bytes`.
pub open spec fn is_first_nul(bytes: Seq<u8>, pos: int) -> bool {
    &&& 0 <= pos < bytes.len()
    &&& bytes[pos] == 0
    &&& forall|i: int| 0 <= i < pos ==> bytes[i] != 0
}

/// What converting the string `s` to a C string gives: nothing when it can be converted, and
/// otherwise the error that names its first NUL byte and carries all of its bytes.
pub open spec fn c_string_error_of(s: Seq<char>, err: StringConversionError) -> bool {
    match err {
        StringConversionError::NullTerminatedString(pos, bytes) => {
            &&& bytes@ == utf8_bytes(s)
            &&& is_first_nul(bytes@, pos as int)
        },
    }
}

/// Checks that `s` can be handed to libpd as a C string.
///
/// Fails, like `CString::new`, when `s` holds a NUL byte: the error gives the position of the
/// first one and the bytes of `s`.
pub fn check_c_string(s: &str) -> (r: Result<(), StringConversionError>)
    ensures
        r is Ok <==> is_c_compatible(s@),
        r matches Err(e) ==> c_string_error_of(s@, e),
{
    let bytes = s.as_bytes();
    let len = bytes.len();
    let mut i: usize = 0;
    while i < len
        invariant
            len == bytes@.len(),
            bytes@ == utf8_bytes(s@),
            i <= len,
            forall|j: int| 0 <= j < i ==> bytes@[j] != 0,
        decreases len - i,
    {
        if bytes[i] == 0 {
            let copy = vstd::slice::slice_to_vec(bytes);
            return Err(StringConversionError::NullTerminatedString(i, copy));
        }
        i = i + 1;
    }
    assert(!bytes@.contains(0u8)) by {
        if bytes@.contains(0u8) {
            let k = choose|k: int| 0 <= k < bytes@.len() && bytes@[k] == 0u8;
            assert(bytes@[k] != 0);
        }
    }
    Ok(())
}

} // verus!

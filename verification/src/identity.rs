//! Shapes of the bounded portable identities and digests every envelope carries.

use vstd::prelude::*;
use crate::error::ManagementError;

verus! {

/// Longest accepted identifier, in characters (every accepted character is one byte).
pub const MAX_IDENTIFIER_BYTES: usize = 128;

/// A character a portable identifier may hold.
pub open spec fn is_portable_char(c: char) -> bool {
    ('a' <= c && c <= 'z') || ('A' <= c && c <= 'Z') || ('0' <= c && c <= '9') || c == '.' || c
        == '_' || c == ':' || c == '-'
}

/// A lowercase hexadecimal digit.
pub open spec fn is_lower_hex_char(c: char) -> bool {
    ('0' <= c && c <= '9') || ('a' <= c && c <= 'f')
}

/// Every character of `s` is portable.
pub open spec fn all_portable(s: Seq<char>) -> bool {
    forall|i: int| 0 <= i < s.len() ==> is_portable_char(#[trigger] s[i])
}

/// A bounded portable identifier.
pub open spec fn is_identifier(s: Seq<char>) -> bool {
    0 < s.len() <= MAX_IDENTIFIER_BYTES && all_portable(s)
}

/// A lowercase SHA-256 digest: exactly 64 lowercase hexadecimal characters.
pub open spec fn is_lower_hex_digest(s: Seq<char>) -> bool {
    s.len() == 64 && forall|i: int| 0 <= i < s.len() ==> is_lower_hex_char(#[trigger] s[i])
}

/// Whether one character is portable.
pub fn portable_char(c: char) -> (r: bool)
    ensures
        r == is_portable_char(c),
{
    ('a' <= c && c <= 'z') || ('A' <= c && c <= 'Z') || ('0' <= c && c <= '9') || c == '.' || c
        == '_' || c == ':' || c == '-'
}

/// Whether every character of `s` is portable.
pub fn all_portable_chars(s: &str) -> (r: bool)
    ensures
        r == all_portable(s@),
{
    let n = s.unicode_len();
    let mut i: usize = 0;
    while i < n
        invariant
            n == s@.len(),
            i <= n,
            forall|j: int| 0 <= j < i ==> is_portable_char(#[trigger] s@[j]),
        decreases n - i,
    {
        if !portable_char(s.get_char(i)) {
            return false;
        }
        i = i + 1;
    }
    true
}

/// Whether `s` is a lowercase SHA-256 digest.
pub fn is_digest(s: &str) -> (r: bool)
    ensures
        r == is_lower_hex_digest(s@),
{
    let n = s.unicode_len();
    if n != 64 {
        return false;
    }
    let mut i: usize = 0;
    while i < n
        invariant
            n == s@.len(),
            n == 64,
            i <= n,
            forall|j: int| 0 <= j < i ==> is_lower_hex_char(#[trigger] s@[j]),
        decreases n - i,
    {
        let c = s.get_char(i);
        if !(('0' <= c && c <= '9') || ('a' <= c && c <= 'f')) {
            return false;
        }
        i = i + 1;
    }
    true
}

/// Whether `s` is a bounded portable identifier.
pub fn is_identifier_text(s: &str) -> (r: bool)
    ensures
        r == is_identifier(s@),
{
    let n = s.unicode_len();
    n > 0 && n <= MAX_IDENTIFIER_BYTES && all_portable_chars(s)
}

/// Refuses a value that is not a bounded portable identifier.
pub fn validate_identifier(field: &str, value: &str) -> (r: Result<(), ManagementError>)
    ensures
        r is Ok <==> is_identifier(value@),
        r matches Err(e) ==> e.class == crate::error::ErrorClass::InvalidInput && e.code@
            == "invalid_identifier"@,
{
    if is_identifier_text(value) {
        Ok(())
    } else {
        Err(ManagementError::invalid("invalid_identifier", field))
    }
}

/// Refuses a value that is not a lowercase SHA-256 digest.
pub fn validate_digest(field: &str, value: &str) -> (r: Result<(), ManagementError>)
    ensures
        r is Ok <==> is_lower_hex_digest(value@),
        r matches Err(e) ==> e.class == crate::error::ErrorClass::InvalidInput && e.code@
            == "invalid_digest"@,
{
    if is_digest(value) {
        Ok(())
    } else {
        Err(ManagementError::invalid("invalid_digest", field))
    }
}

} // verus!

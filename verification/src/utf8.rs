//! UTF-8 well-formedness of byte strings.
//!
//! String-valued feed fields must hold well-formed UTF-8; a payload whose
//! string field does not is malformed. The fields are still carried as
//! bytes: validation, not transcoding.

use vstd::prelude::*;

verus! {

/// A continuation byte of a multi-byte scalar encoding.
pub open spec fn is_cont(b: u8) -> bool {
    0x80 <= b <= 0xBF
}

/// Well-formed UTF-8 from position `i` to the end: the shortest-form
/// encodings of the scalar values up to 0x10FFFF, surrogates excluded.
pub open spec fn utf8_from(s: Seq<u8>, i: int) -> bool
    decreases s.len() - i,
{
    if i < 0 || i > s.len() {
        false
    } else if i == s.len() {
        true
    } else {
        let b0 = s[i];
        if b0 < 0x80 {
            utf8_from(s, i + 1)
        } else if 0xC2 <= b0 <= 0xDF {
            i + 2 <= s.len() && is_cont(s[i + 1]) && utf8_from(s, i + 2)
        } else if b0 == 0xE0 {
            i + 3 <= s.len() && 0xA0 <= s[i + 1] <= 0xBF && is_cont(s[i + 2]) && utf8_from(
                s,
                i + 3,
            )
        } else if 0xE1 <= b0 <= 0xEC || 0xEE <= b0 <= 0xEF {
            i + 3 <= s.len() && is_cont(s[i + 1]) && is_cont(s[i + 2]) && utf8_from(s, i + 3)
        } else if b0 == 0xED {
            i + 3 <= s.len() && 0x80 <= s[i + 1] <= 0x9F && is_cont(s[i + 2]) && utf8_from(
                s,
                i + 3,
            )
        } else if b0 == 0xF0 {
            i + 4 <= s.len() && 0x90 <= s[i + 1] <= 0xBF && is_cont(s[i + 2]) && is_cont(s[i + 3])
                && utf8_from(s, i + 4)
        } else if 0xF1 <= b0 <= 0xF3 {
            i + 4 <= s.len() && is_cont(s[i + 1]) && is_cont(s[i + 2]) && is_cont(s[i + 3])
                && utf8_from(s, i + 4)
        } else if b0 == 0xF4 {
            i + 4 <= s.len() && 0x80 <= s[i + 1] <= 0x8F && is_cont(s[i + 2]) && is_cont(s[i + 3])
                && utf8_from(s, i + 4)
        } else {
            false
        }
    }
}

/// Well-formed UTF-8, whole string.
pub open spec fn utf8_ok(s: Seq<u8>) -> bool {
    utf8_from(s, 0)
}

/// Whether `b` is a continuation byte.
fn cont(b: u8) -> (r: bool)
    ensures
        r == is_cont(b),
{
    0x80 <= b && b <= 0xBF
}

/// Validate a byte string; equal to `utf8_ok`.
pub fn validate_utf8(s: &Vec<u8>) -> (r: bool)
    ensures
        r == utf8_ok(s@),
{
    let n = s.len();
    let mut i: usize = 0;
    while i < n
        invariant
            i <= n == s@.len(),
            utf8_ok(s@) == utf8_from(s@, i as int),
        decreases n - i,
    {
        let b0 = s[i];
        if b0 < 0x80 {
            i = i + 1;
        } else if 0xC2 <= b0 && b0 <= 0xDF {
            if n - i >= 2 && cont(s[i + 1]) {
                i = i + 2;
            } else {
                return false;
            }
        } else if b0 == 0xE0 {
            if n - i >= 3 && 0xA0 <= s[i + 1] && s[i + 1] <= 0xBF && cont(s[i + 2]) {
                i = i + 3;
            } else {
                return false;
            }
        } else if (0xE1 <= b0 && b0 <= 0xEC) || (0xEE <= b0 && b0 <= 0xEF) {
            if n - i >= 3 && cont(s[i + 1]) && cont(s[i + 2]) {
                i = i + 3;
            } else {
                return false;
            }
        } else if b0 == 0xED {
            if n - i >= 3 && 0x80 <= s[i + 1] && s[i + 1] <= 0x9F && cont(s[i + 2]) {
                i = i + 3;
            } else {
                return false;
            }
        } else if b0 == 0xF0 {
            if n - i >= 4 && 0x90 <= s[i + 1] && s[i + 1] <= 0xBF && cont(s[i + 2]) && cont(
                s[i + 3],
            ) {
                i = i + 4;
            } else {
                return false;
            }
        } else if 0xF1 <= b0 && b0 <= 0xF3 {
            if n - i >= 4 && cont(s[i + 1]) && cont(s[i + 2]) && cont(s[i + 3]) {
                i = i + 4;
            } else {
                return false;
            }
        } else if b0 == 0xF4 {
            if n - i >= 4 && 0x80 <= s[i + 1] && s[i + 1] <= 0x8F && cont(s[i + 2]) && cont(
                s[i + 3],
            ) {
                i = i + 4;
            } else {
                return false;
            }
        } else {
            return false;
        }
    }
    true
}

} // verus!

//! Session tokens: random UUIDs in their usual spelling.

use crate::text::to_chars;
use vstd::prelude::*;

verus! {

/// A digit or one of the letters `a` to `f`.
pub open spec fn is_lower_hex(c: char) -> bool {
    ('0' <= c && c <= '9') || ('a' <= c && c <= 'f')
}

/// The spelling of a random (version 4) UUID: 36 characters, lower-case
/// hexadecimal digits in groups of 8, 4, 4, 4 and 12 with `-` between them,
/// the third group starting with `4` and the fourth with `8`, `9`, `a` or
/// `b`.
pub open spec fn is_token_text(text: Seq<char>) -> bool {
    &&& text.len() == 36
    &&& forall|i: int|
        0 <= i < 36 ==> if i == 8 || i == 13 || i == 18 || i == 23 {
            text[i] == '-'
        } else {
            is_lower_hex(#[trigger] text[i])
        }
    &&& text[14] == '4'
    &&& (text[19] == '8' || text[19] == '9' || text[19] == 'a' || text[19] == 'b')
}

/// A new token: `uuid::Uuid::new_v4`, written out by its `Display`.
///
/// Trusted: that the text has the spelling of a version 4 UUID. Nothing is
/// claimed of which one it is; two calls give different tokens. The call
/// panics where the operating system hands out no random bytes.
#[verifier::external_body]
pub(crate) fn fresh_token() -> (token: String)
    ensures
        is_token_text(token@),
{
    uuid::Uuid::new_v4().to_string()
}

/// Whether `text` is spelled like a token.
pub fn is_token(text: &str) -> (valid: bool)
    ensures
        valid == is_token_text(text@),
{
    let chars = to_chars(text);
    if chars.len() != 36 {
        return false;
    }
    let mut i: usize = 0;
    while i < 36
        invariant
            i <= 36,
            chars.len() == 36,
            chars@ == text@,
            forall|k: int|
                0 <= k < i ==> if k == 8 || k == 13 || k == 18 || k == 23 {
                    chars[k] == '-'
                } else {
                    is_lower_hex(#[trigger] chars[k])
                },
        decreases 36 - i,
    {
        let c = chars[i];
        if i == 8 || i == 13 || i == 18 || i == 23 {
            if c != '-' {
                return false;
            }
        } else if !(('0' <= c && c <= '9') || ('a' <= c && c <= 'f')) {
            return false;
        }
        i = i + 1;
    }
    chars[14] == '4' && (chars[19] == '8' || chars[19] == '9' || chars[19] == 'a' || chars[19]
        == 'b')
}

} // verus!

//! The role name inside the ARN of an assumed role.

use crate::error::{IdentityFault, TokenError};
use crate::pattern::{find_match, regex_find};
use crate::text::{find_char, first_index, lemma_first_index, slice_chars, to_chars};
use vstd::prelude::*;

verus! {

/// The regular expression that finds the role segment of an ARN: the text
/// `assumed-role/`, then as much as can be had up to a last `/`.
pub const ROLE_PATTERN: &'static str = "assumed-role/(.*)/";

/// The piece of `matched` between its first `/` and the next one, or the
/// end of the text where no second `/` follows. `None` where `matched`
/// holds no `/`.
pub open spec fn role_in(matched: Seq<char>) -> Option<Seq<char>> {
    let open = first_index(matched, '/', 0);
    if open >= matched.len() {
        None
    } else {
        Some(matched.subrange(open + 1, first_index(matched, '/', open + 1)))
    }
}

/// The role name for the outcome of the search for [`ROLE_PATTERN`].
pub open spec fn role_of_match(found: Option<Seq<char>>) -> Result<Seq<char>, TokenError> {
    match found {
        Some(matched) => match role_in(matched) {
            Some(role) => Ok(role),
            None => Err(TokenError::MalformedIdentity(IdentityFault::NoRoleSegment)),
        },
        None => Err(TokenError::MalformedIdentity(IdentityFault::NoRoleSegment)),
    }
}

/// The role name of an ARN: [`role_of_match`] of what [`ROLE_PATTERN`]
/// matches in it.
pub open spec fn role_name_of(user_arn: Seq<char>) -> Result<Seq<char>, TokenError> {
    role_of_match(regex_find(ROLE_PATTERN@, user_arn))
}

/// The view of a result that holds a text.
pub open spec fn text_result(result: Result<String, TokenError>) -> Result<Seq<char>, TokenError> {
    match result {
        Ok(text) => Ok(text@),
        Err(error) => Err(error),
    }
}

/// The role name in the matched segment of an ARN, `found`.
///
/// With `found` of the form `assumed-role/<role>/...` this is `<role>`.
/// Without a match, or with one that holds no `/`, the ARN is malformed.
pub fn role_name_from_match(found: Option<&str>) -> (role: Result<String, TokenError>)
    ensures
        text_result(role) == role_of_match(found.deep_view()),
{
    match found {
        None => Err(TokenError::MalformedIdentity(IdentityFault::NoRoleSegment)),
        Some(matched) => {
            let chars = to_chars(matched);
            let open = find_char(&chars, '/', 0);
            if open >= chars.len() {
                Err(TokenError::MalformedIdentity(IdentityFault::NoRoleSegment))
            } else {
                let close = find_char(&chars, '/', open + 1);
                proof {
                    lemma_first_index(matched@, '/', open + 1);
                }
                Ok(slice_chars(matched, open + 1, close))
            }
        },
    }
}

/// The role name of the ARN of an assumed role: for
/// `...assumed-role/<role>/<session>` it is `<role>`. An ARN without such a
/// segment is malformed.
pub fn extract_role_name(user_arn: &str) -> (role: Result<String, TokenError>)
    ensures
        text_result(role) == role_name_of(user_arn@),
{
    let found = find_match(ROLE_PATTERN, user_arn);
    match &found {
        Some(matched) => role_name_from_match(Some(matched.as_str())),
        None => role_name_from_match(None),
    }
}

/// A matched segment of the form `assumed-role/<role>/<rest>` gives
/// `<role>`, whatever follows the second `/`. A role name holds no `/`.
pub proof fn lemma_role_of_segment(role: Seq<char>, rest: Seq<char>)
    requires
        !role.contains('/'),
    ensures
        role_of_match(Some("assumed-role/"@ + role + seq!['/'] + rest)) == Ok::<
            Seq<char>,
            TokenError,
        >(role),
{
    reveal_strlit("assumed-role/");
    let lead = "assumed-role/"@;
    let matched = lead + role + seq!['/'] + rest;
    let close: int = 13 + role.len() as int;
    assert(matched[12] == '/');
    assert(matched[close] == '/');
    assert forall|k: int| 0 <= k < 12 implies matched[k] != '/' by {
        assert(matched[k] == lead[k]);
    }
    assert forall|k: int| 13 <= k < close implies matched[k] != '/' by {
        assert(matched[k] == role[k - 13]);
        assert(role.contains(role[k - 13]));
    }
    lemma_first_index(matched, '/', 0);
    lemma_first_index(matched, '/', 13);
    assert(matched.subrange(13, close) =~= role);
}

/// Where the search finds nothing, and where what it finds holds no `/`,
/// the ARN is rejected as malformed.
pub proof fn lemma_no_role(found: Option<Seq<char>>)
    requires
        found matches Some(matched) ==> !matched.contains('/'),
    ensures
        role_of_match(found) == Err::<Seq<char>, TokenError>(
            TokenError::MalformedIdentity(IdentityFault::NoRoleSegment),
        ),
{
    if let Some(matched) = found {
        lemma_first_index(matched, '/', 0);
        let open = first_index(matched, '/', 0);
        if open < matched.len() {
            assert(matched.contains(matched[open]));
        }
    }
}

} // verus!

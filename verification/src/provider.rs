//! The user pool and the subject inside a provider descriptor.

use crate::error::{IdentityFault, TokenError};
use crate::pattern::{find_match, regex_find};
use crate::text::slice_chars;
use vstd::prelude::*;

verus! {

/// The regular expression that finds the user pool in a provider
/// descriptor: two characters, `-`, four characters, `-`, one character,
/// `_`, then as much as can be had up to a last `,`.
pub const POOL_PATTERN: &'static str = ".{2}-.{4}-.{1}_.*,";

/// The regular expression that finds the subject in a provider descriptor:
/// a `:` followed by at least four `-`.
pub const SUBJECT_PATTERN: &'static str = ":.*-.*-.*-.*-.*";

/// How many characters of the subject match precede the subject itself.
pub const SUBJECT_MARKER: usize = 15;

/// Where a user lives: the directory (user pool) and the subject in it.
#[derive(Clone, Debug, PartialEq, Eq)]
pub struct DirectoryDescriptor {
    pub directory_id: String,
    pub subject_id: String,
}

/// What a [`DirectoryDescriptor`] holds.
pub struct DirectoryDescriptorView {
    pub directory_id: Seq<char>,
    pub subject_id: Seq<char>,
}

impl View for DirectoryDescriptor {
    type V = DirectoryDescriptorView;

    open spec fn view(&self) -> DirectoryDescriptorView {
        DirectoryDescriptorView { directory_id: self.directory_id@, subject_id: self.subject_id@ }
    }
}

impl DeepView for DirectoryDescriptor {
    type V = DirectoryDescriptorView;

    open spec fn deep_view(&self) -> DirectoryDescriptorView {
        self@
    }
}

impl DirectoryDescriptor {
    /// A copy of the descriptor.
    pub fn duplicate(&self) -> (copy: DirectoryDescriptor)
        ensures
            copy@ == self@,
    {
        DirectoryDescriptor {
            directory_id: self.directory_id.clone(),
            subject_id: self.subject_id.clone(),
        }
    }
}

/// The descriptor for the outcomes of the two searches: the pool match
/// without its last character, the comma, and the subject match without
/// its first [`SUBJECT_MARKER`] characters. A search that found nothing, an
/// empty pool match and a subject match shorter than the marker are
/// rejected.
pub open spec fn descriptor_of_matches(
    pool: Option<Seq<char>>,
    subject: Option<Seq<char>>,
) -> Result<DirectoryDescriptorView, TokenError> {
    if pool is None || pool->0.len() == 0 {
        Err(TokenError::MalformedIdentity(IdentityFault::NoDirectoryId))
    } else if subject is None || subject->0.len() < SUBJECT_MARKER {
        Err(TokenError::MalformedIdentity(IdentityFault::NoSubjectId))
    } else {
        Ok(
            DirectoryDescriptorView {
                directory_id: pool->0.drop_last(),
                subject_id: subject->0.skip(SUBJECT_MARKER as int),
            },
        )
    }
}

/// The descriptor of a provider text: [`descriptor_of_matches`] of what
/// [`POOL_PATTERN`] and [`SUBJECT_PATTERN`] match in it.
pub open spec fn descriptor_of(auth_provider: Seq<char>) -> Result<
    DirectoryDescriptorView,
    TokenError,
> {
    descriptor_of_matches(
        regex_find(POOL_PATTERN@, auth_provider),
        regex_find(SUBJECT_PATTERN@, auth_provider),
    )
}

/// The view of a result that holds a descriptor.
pub open spec fn descriptor_result(result: Result<DirectoryDescriptor, TokenError>) -> Result<
    DirectoryDescriptorView,
    TokenError,
> {
    match result {
        Ok(descriptor) => Ok(descriptor@),
        Err(error) => Err(error),
    }
}

/// The descriptor for what the two searches found in a provider text.
pub fn user_pool_info_from_matches(pool: Option<&str>, subject: Option<&str>) -> (descriptor:
    Result<DirectoryDescriptor, TokenError>)
    ensures
        descriptor_result(descriptor) == descriptor_of_matches(
            pool.deep_view(),
            subject.deep_view(),
        ),
{
    let pool_text = match pool {
        Some(text) => text,
        None => { return Err(TokenError::MalformedIdentity(IdentityFault::NoDirectoryId)); },
    };
    let pool_len = pool_text.unicode_len();
    if pool_len == 0 {
        return Err(TokenError::MalformedIdentity(IdentityFault::NoDirectoryId));
    }
    let subject_text = match subject {
        Some(text) => text,
        None => { return Err(TokenError::MalformedIdentity(IdentityFault::NoSubjectId)); },
    };
    let subject_len = subject_text.unicode_len();
    if subject_len < SUBJECT_MARKER {
        return Err(TokenError::MalformedIdentity(IdentityFault::NoSubjectId));
    }
    let directory_id = slice_chars(pool_text, 0, pool_len - 1);
    let subject_id = slice_chars(subject_text, SUBJECT_MARKER, subject_len);
    Ok(DirectoryDescriptor { directory_id, subject_id })
}

/// The user pool and the subject that a provider descriptor names, such as
/// `cognito-idp.<region>.amazonaws.com/<pool>,...:CognitoSignIn:<subject>`.
/// A descriptor in which either search finds nothing is malformed.
pub fn extract_user_pool_info(auth_provider: &str) -> (descriptor: Result<
    DirectoryDescriptor,
    TokenError,
>)
    ensures
        descriptor_result(descriptor) == descriptor_of(auth_provider@),
{
    let pool = find_match(POOL_PATTERN, auth_provider);
    let subject = find_match(SUBJECT_PATTERN, auth_provider);
    let pool_text: Option<&str> = match &pool {
        Some(text) => Some(text.as_str()),
        None => None,
    };
    let subject_text: Option<&str> = match &subject {
        Some(text) => Some(text.as_str()),
        None => None,
    };
    user_pool_info_from_matches(pool_text, subject_text)
}

/// A pool match `<pool>,` and a subject match of a marker of
/// [`SUBJECT_MARKER`] characters before `<subject>` give the pair
/// `<pool>`, `<subject>`.
pub proof fn lemma_descriptor_of_parts(pool: Seq<char>, marker: Seq<char>, subject: Seq<char>)
    requires
        marker.len() == SUBJECT_MARKER,
    ensures
        descriptor_of_matches(Some(pool + seq![',']), Some(marker + subject)) == Ok::<
            DirectoryDescriptorView,
            TokenError,
        >(DirectoryDescriptorView { directory_id: pool, subject_id: subject }),
{
    assert((pool + seq![',']).drop_last() =~= pool);
    assert((marker + subject).skip(SUBJECT_MARKER as int) =~= subject);
}

/// Parsing depends on the provider text alone: the same text gives the same
/// descriptor, or the same error, every time.
pub proof fn lemma_parsing_repeats(first: Seq<char>, second: Seq<char>)
    requires
        first == second,
    ensures
        descriptor_of(first) == descriptor_of(second),
{
}

/// A descriptor is rejected exactly where a search finds nothing or finds
/// too little: no pool match or an empty one, no subject match or one
/// shorter than the marker.
pub proof fn lemma_rejected(pool: Option<Seq<char>>, subject: Option<Seq<char>>)
    ensures
        descriptor_of_matches(pool, subject) is Err <==> (pool is None || pool->0.len() == 0
            || subject is None || subject->0.len() < SUBJECT_MARKER),
{
}

} // verus!

//! The errors a request can end in.

use vstd::prelude::*;

verus! {

/// Why an identity assertion was rejected.
#[derive(Clone, Copy, Debug, PartialEq, Eq, Structural)]
pub enum IdentityFault {
    /// The assertion carries no caller ARN.
    MissingArn,
    /// The ARN holds no `assumed-role/<role>/` segment.
    NoRoleSegment,
    /// The assertion carries no provider descriptor.
    MissingProvider,
    /// The provider descriptor holds no directory identifier.
    NoDirectoryId,
    /// The provider descriptor holds no subject identifier.
    NoSubjectId,
    /// The assertion carries no authentication mode.
    MissingMode,
}

/// The ways in which a request fails.
#[derive(Clone, Copy, Debug, PartialEq, Eq, Structural)]
pub enum TokenError {
    /// The identity assertion does not have the expected shape.
    MalformedIdentity(IdentityFault),
    /// The directory holds no user for the subject.
    UserNotFound,
    /// The directory service failed.
    DirectoryLookup,
    /// The session store rejected the write.
    Persistence,
    /// A downstream invocation could not be dispatched. Reported, never
    /// returned to the caller.
    Notification,
}

impl TokenError {
    /// Whether the error ends the request. Only a failed notification does not.
    pub open spec fn is_fatal(self) -> bool {
        self != TokenError::Notification
    }

    /// Whether the error ends the request.
    pub fn fatal(&self) -> (fatal: bool)
        ensures
            fatal == self.is_fatal(),
    {
        match self {
            TokenError::Notification => false,
            _ => true,
        }
    }

    /// One line for a log or an error response.
    pub fn message(&self) -> (line: &'static str)
        ensures
            line@ == self.spec_message(),
    {
        match self {
            TokenError::MalformedIdentity(IdentityFault::MissingArn) => "identity carries no caller ARN",
            TokenError::MalformedIdentity(IdentityFault::NoRoleSegment) => "caller ARN holds no assumed-role segment",
            TokenError::MalformedIdentity(IdentityFault::MissingProvider) => "identity carries no authentication provider",
            TokenError::MalformedIdentity(IdentityFault::NoDirectoryId) => "authentication provider holds no user pool id",
            TokenError::MalformedIdentity(IdentityFault::NoSubjectId) => "authentication provider holds no subject id",
            TokenError::MalformedIdentity(IdentityFault::MissingMode) => "identity carries no authentication type",
            TokenError::UserNotFound => "no user found in the directory",
            TokenError::DirectoryLookup => "directory lookup failed",
            TokenError::Persistence => "session store write failed",
            TokenError::Notification => "downstream invocation failed",
        }
    }

    /// The text of [`TokenError::message`].
    pub open spec fn spec_message(self) -> Seq<char> {
        match self {
            TokenError::MalformedIdentity(IdentityFault::MissingArn) => "identity carries no caller ARN"@,
            TokenError::MalformedIdentity(IdentityFault::NoRoleSegment) => "caller ARN holds no assumed-role segment"@,
            TokenError::MalformedIdentity(IdentityFault::MissingProvider) => "identity carries no authentication provider"@,
            TokenError::MalformedIdentity(IdentityFault::NoDirectoryId) => "authentication provider holds no user pool id"@,
            TokenError::MalformedIdentity(IdentityFault::NoSubjectId) => "authentication provider holds no subject id"@,
            TokenError::MalformedIdentity(IdentityFault::MissingMode) => "identity carries no authentication type"@,
            TokenError::UserNotFound => "no user found in the directory"@,
            TokenError::DirectoryLookup => "directory lookup failed"@,
            TokenError::Persistence => "session store write failed"@,
            TokenError::Notification => "downstream invocation failed"@,
        }
    }
}

} // verus!

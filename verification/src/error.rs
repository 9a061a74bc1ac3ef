//! Why a request was turned down, and how that is told to a client.

use vstd::prelude::*;
use vstd::string::*;

verus! {

/// The families of failure.
#[derive(Debug, Clone, Copy, PartialEq, Eq, Structural)]
pub enum ErrorKind {
    /// The request itself is malformed.
    Validation,
    /// The request is well formed but the state of the registry forbids it.
    Conflict,
    /// What was asked for is not there.
    NotFound,
    /// The caller did not prove who it is.
    Unauthenticated,
    /// The store failed, or holds a record that cannot be used.
    Storage,
}

/// Why a publish, a yank or an unyank was turned down.
#[derive(Debug, Clone, Copy, PartialEq, Eq, Structural)]
pub enum LifecycleError {
    /// The name belongs to a crate mirrored from upstream.
    NameShadowConflict,
    /// The version is no semantic version.
    InvalidVersion,
    /// The crate already has this version.
    AlreadyExists,
    /// The index has no crate of this name.
    CrateNotFound,
    /// The crate has no such version.
    VersionNotFound,
    /// The version is yanked already.
    AlreadyYanked,
    /// The version is not yanked.
    NotYanked,
    /// The stored history of a local crate is not an ascending run of
    /// semantic versions.
    CorruptEntry,
    /// Other writers kept changing the record until the attempts ran out.
    Contention,
    /// The store reported a fault.
    Storage,
}

impl LifecycleError {
    /// The family of this failure.
    pub open spec fn spec_kind(self) -> ErrorKind {
        match self {
            LifecycleError::InvalidVersion => ErrorKind::Validation,
            LifecycleError::NameShadowConflict
            | LifecycleError::AlreadyExists
            | LifecycleError::AlreadyYanked
            | LifecycleError::NotYanked
            | LifecycleError::Contention => ErrorKind::Conflict,
            LifecycleError::CrateNotFound | LifecycleError::VersionNotFound => ErrorKind::NotFound,
            LifecycleError::CorruptEntry | LifecycleError::Storage => ErrorKind::Storage,
        }
    }

    /// The HTTP status that answers this failure: the store's own faults are
    /// the server's, all others the client's.
    pub open spec fn spec_status(self) -> u16 {
        if self.spec_kind() == ErrorKind::Storage {
            500
        } else {
            400
        }
    }

    /// The detail that the answer carries.
    pub open spec fn spec_message(self) -> Seq<char> {
        match self {
            LifecycleError::NameShadowConflict =>
                "attempted to upload crate with the same name as a cached upstream crate"@,
            LifecycleError::InvalidVersion => "invalid crate version supplied"@,
            LifecycleError::AlreadyExists => "attempted to upload existing version"@,
            LifecycleError::CrateNotFound => "crate does not exist in index"@,
            LifecycleError::VersionNotFound =>
                "crate does not have the specified version published"@,
            LifecycleError::AlreadyYanked => "version has already been yanked"@,
            LifecycleError::NotYanked => "version has not been yanked"@,
            LifecycleError::CorruptEntry => "something went wrong"@,
            LifecycleError::Contention => "crate was changed concurrently, try again"@,
            LifecycleError::Storage => "something went wrong"@,
        }
    }

    #[verifier::when_used_as_spec(spec_kind)]
    pub fn kind(self) -> (kind: ErrorKind)
        ensures
            kind == self.spec_kind(),
    {
        match self {
            LifecycleError::InvalidVersion => ErrorKind::Validation,
            LifecycleError::NameShadowConflict => ErrorKind::Conflict,
            LifecycleError::AlreadyExists => ErrorKind::Conflict,
            LifecycleError::AlreadyYanked => ErrorKind::Conflict,
            LifecycleError::NotYanked => ErrorKind::Conflict,
            LifecycleError::Contention => ErrorKind::Conflict,
            LifecycleError::CrateNotFound => ErrorKind::NotFound,
            LifecycleError::VersionNotFound => ErrorKind::NotFound,
            LifecycleError::CorruptEntry => ErrorKind::Storage,
            LifecycleError::Storage => ErrorKind::Storage,
        }
    }

    #[verifier::when_used_as_spec(spec_status)]
    pub fn status(self) -> (status: u16)
        ensures
            status == self.spec_status(),
    {
        match self.kind() {
            ErrorKind::Storage => 500,
            _ => 400,
        }
    }

    /// The detail, as a string to send.
    pub fn message(self) -> (message: String)
        ensures
            message@ == self.spec_message(),
    {
        let text = match self {
            LifecycleError::NameShadowConflict =>
                "attempted to upload crate with the same name as a cached upstream crate",
            LifecycleError::InvalidVersion => "invalid crate version supplied",
            LifecycleError::AlreadyExists => "attempted to upload existing version",
            LifecycleError::CrateNotFound => "crate does not exist in index",
            LifecycleError::VersionNotFound =>
                "crate does not have the specified version published",
            LifecycleError::AlreadyYanked => "version has already been yanked",
            LifecycleError::NotYanked => "version has not been yanked",
            LifecycleError::CorruptEntry => "something went wrong",
            LifecycleError::Contention => "crate was changed concurrently, try again",
            LifecycleError::Storage => "something went wrong",
        };
        String::from_str(text)
    }
}

} // verus!

//! The failures that the library reports.

use vstd::prelude::*;

verus! {

/// Every way in which an operation of the library can fail.
#[derive(Clone, Copy, Debug, PartialEq, Eq, Structural)]
pub enum KitError {
    /// The target of a new repository exists and is not a directory.
    PathNotDirectory,
    /// The target of a new repository is a directory with entries in it.
    PathNotEmpty,
    /// No repository encloses the starting directory.
    NotAKitRepository,
    /// The repository has no configuration that can be read.
    ConfigMissing,
    /// The configuration names a format version other than `0`.
    ConfigVersionUnsupported,
    /// An envelope names a kind that is none of the four.
    UnknownObjectKind,
    /// An envelope is not framed as kind, length, separator and payload.
    MalformedObjectEnvelope,
    /// A stored object does not decompress.
    CorruptCompressedData,
    /// Nothing is stored under the identity asked for.
    ObjectNotFound,
    /// An object was to be stored and no repository was at hand.
    RepositoryRequiredForWrite,
    /// A path under the metadata root is needed as a directory and is not one.
    NotADirectory,
    /// The compressor reported a failure of its own.
    Io,
}

impl KitError {
    /// A sentence for the person at the terminal.
    pub fn message(&self) -> (text: &'static str)
        ensures
            text@ == self.spec_message(),
    {
        match self {
            KitError::PathNotDirectory => "target path is not a directory",
            KitError::PathNotEmpty => "target directory is not empty",
            KitError::NotAKitRepository => "not a kit repository",
            KitError::ConfigMissing => "repository configuration is missing",
            KitError::ConfigVersionUnsupported => "unsupported repositoryformatversion",
            KitError::UnknownObjectKind => "unknown object kind",
            KitError::MalformedObjectEnvelope => "malformed object: bad envelope",
            KitError::CorruptCompressedData => "stored object does not decompress",
            KitError::ObjectNotFound => "no such object",
            KitError::RepositoryRequiredForWrite => "must be in a valid kit repository to write hashed objects",
            KitError::NotADirectory => "not a directory",
            KitError::Io => "compression failed",
        }
    }

    /// The text of [`KitError::message`].
    pub open spec fn spec_message(&self) -> Seq<char> {
        match self {
            KitError::PathNotDirectory => "target path is not a directory"@,
            KitError::PathNotEmpty => "target directory is not empty"@,
            KitError::NotAKitRepository => "not a kit repository"@,
            KitError::ConfigMissing => "repository configuration is missing"@,
            KitError::ConfigVersionUnsupported => "unsupported repositoryformatversion"@,
            KitError::UnknownObjectKind => "unknown object kind"@,
            KitError::MalformedObjectEnvelope => "malformed object: bad envelope"@,
            KitError::CorruptCompressedData => "stored object does not decompress"@,
            KitError::ObjectNotFound => "no such object"@,
            KitError::RepositoryRequiredForWrite => "must be in a valid kit repository to write hashed objects"@,
            KitError::NotADirectory => "not a directory"@,
            KitError::Io => "compression failed"@,
        }
    }
}

} // verus!

//! The errors that the operations of this crate report, and their numeric codes.

use vstd::prelude::*;

verus! {

/// The code from which the client layer counts its own errors downwards.
pub const CLIENT_ERROR_START_RANGE: i32 = -1;

/// The code from which this layer counts its errors downwards. The client layer keeps the
/// codes above it.
pub const NFS_ERROR_START_RANGE: i32 = CLIENT_ERROR_START_RANGE - 500;

/// What an operation on directories and files can fail with.
#[derive(Clone, Copy, Debug, PartialEq, Eq, Structural)]
pub enum NfsError {
    /// The network client failed; the value is the client layer's own code for the failure.
    NetworkError(i32),
    /// The parent already holds a directory of that name.
    DirectoryAlreadyExistsWithSameName,
    /// A copy was asked for whose destination is its source.
    DestinationAndSourceAreSame,
    /// No directory of that name.
    DirectoryNotFound,
    /// A directory could not be put in place of its earlier state.
    FailedToUpdateDirectory,
    /// A file could not be put in place of its earlier state.
    FailedToUpdateFile,
    /// The directory already holds a file of that name.
    FileAlreadyExistsWithSameName,
    /// The file handed in is not the one that its directory holds.
    FileDoesNotMatch,
    /// No file of that name.
    FileNotFound,
    /// The byte range reaches beyond the end of the content.
    InvalidRangeSpecified,
    /// Directory metadata is missing or cannot be read.
    MetaDataMissingOrCorrupted,
    /// A name is empty, or user metadata was supplied and is empty.
    ParameterInvalid,
    /// The version asked for is not among the versions of the directory.
    VersionNotFound,
    /// No random bytes could be had for a fresh identifier.
    RandomnessUnavailable,
    /// Bytes that should hold a directory, or a data map, do not.
    SerialisationFailed,
    /// The reply handed in does not answer the request that was pending.
    UnexpectedReply,
}

impl NfsError {
    /// True of the errors that arise in this layer, false of those passed on from the client.
    pub open spec fn is_local(self) -> bool {
        !(self is NetworkError)
    }

    /// How far below [`NFS_ERROR_START_RANGE`] the code of a local error lies.
    pub open spec fn spec_offset(self) -> int {
        match self {
            NfsError::NetworkError(_) => 0,
            NfsError::DirectoryAlreadyExistsWithSameName => 1,
            NfsError::DestinationAndSourceAreSame => 2,
            NfsError::DirectoryNotFound => 3,
            NfsError::FailedToUpdateDirectory => 4,
            NfsError::FailedToUpdateFile => 5,
            NfsError::FileAlreadyExistsWithSameName => 6,
            NfsError::FileDoesNotMatch => 7,
            NfsError::FileNotFound => 8,
            NfsError::InvalidRangeSpecified => 9,
            NfsError::MetaDataMissingOrCorrupted => 10,
            NfsError::ParameterInvalid => 11,
            NfsError::VersionNotFound => 12,
            NfsError::RandomnessUnavailable => 13,
            NfsError::SerialisationFailed => 14,
            NfsError::UnexpectedReply => 15,
        }
    }

    /// The numeric code of an error: the client's own code for a client error, and for a
    /// local error the start of this layer's range less the error's offset.
    pub open spec fn spec_code(self) -> int {
        match self {
            NfsError::NetworkError(code) => code as int,
            _ => NFS_ERROR_START_RANGE as int - self.spec_offset(),
        }
    }

    /// The numeric code that stands for the error where only a number can be passed on.
    pub fn code(&self) -> (code: i32)
        ensures
            code as int == self.spec_code(),
    {
        match self {
            NfsError::NetworkError(code) => *code,
            NfsError::DirectoryAlreadyExistsWithSameName => NFS_ERROR_START_RANGE - 1,
            NfsError::DestinationAndSourceAreSame => NFS_ERROR_START_RANGE - 2,
            NfsError::DirectoryNotFound => NFS_ERROR_START_RANGE - 3,
            NfsError::FailedToUpdateDirectory => NFS_ERROR_START_RANGE - 4,
            NfsError::FailedToUpdateFile => NFS_ERROR_START_RANGE - 5,
            NfsError::FileAlreadyExistsWithSameName => NFS_ERROR_START_RANGE - 6,
            NfsError::FileDoesNotMatch => NFS_ERROR_START_RANGE - 7,
            NfsError::FileNotFound => NFS_ERROR_START_RANGE - 8,
            NfsError::InvalidRangeSpecified => NFS_ERROR_START_RANGE - 9,
            NfsError::MetaDataMissingOrCorrupted => NFS_ERROR_START_RANGE - 10,
            NfsError::ParameterInvalid => NFS_ERROR_START_RANGE - 11,
            NfsError::VersionNotFound => NFS_ERROR_START_RANGE - 12,
            NfsError::RandomnessUnavailable => NFS_ERROR_START_RANGE - 13,
            NfsError::SerialisationFailed => NFS_ERROR_START_RANGE - 14,
            NfsError::UnexpectedReply => NFS_ERROR_START_RANGE - 15,
        }
    }

    /// The name of the error in words.
    pub open spec fn spec_describe(self) -> Seq<char> {
        match self {
            NfsError::NetworkError(_) => "NfsError::NetworkError"@,
            NfsError::DirectoryAlreadyExistsWithSameName => "NfsError::DirectoryAlreadyExistsWithSameName"@,
            NfsError::DestinationAndSourceAreSame => "NfsError::DestinationAndSourceAreSame"@,
            NfsError::DirectoryNotFound => "NfsError::DirectoryNotFound"@,
            NfsError::FailedToUpdateDirectory => "NfsError::FailedToUpdateDirectory"@,
            NfsError::FailedToUpdateFile => "NfsError::FailedToUpdateFile"@,
            NfsError::FileAlreadyExistsWithSameName => "NfsError::FileAlreadyExistsWithSameName"@,
            NfsError::FileDoesNotMatch => "NfsError::FileDoesNotMatch"@,
            NfsError::FileNotFound => "NfsError::FileNotFound"@,
            NfsError::InvalidRangeSpecified => "NfsError::InvalidRangeSpecified"@,
            NfsError::MetaDataMissingOrCorrupted => "NfsError::MetaDataMissingOrCorrupted"@,
            NfsError::ParameterInvalid => "NfsError::ParameterInvalid"@,
            NfsError::VersionNotFound => "NfsError::VersionNotFound"@,
            NfsError::RandomnessUnavailable => "NfsError::RandomnessUnavailable"@,
            NfsError::SerialisationFailed => "NfsError::SerialisationFailed"@,
            NfsError::UnexpectedReply => "NfsError::UnexpectedReply"@,
        }
    }

    /// The name of the error in words, for a reader. The code of a client error is had
    /// from [`NfsError::code`].
    pub fn describe(&self) -> (text: String)
        ensures
            text@ == self.spec_describe(),
    {
        match self {
            NfsError::NetworkError(_) => "NfsError::NetworkError".to_owned(),
            NfsError::DirectoryAlreadyExistsWithSameName => "NfsError::DirectoryAlreadyExistsWithSameName".to_owned(),
            NfsError::DestinationAndSourceAreSame => "NfsError::DestinationAndSourceAreSame".to_owned(),
            NfsError::DirectoryNotFound => "NfsError::DirectoryNotFound".to_owned(),
            NfsError::FailedToUpdateDirectory => "NfsError::FailedToUpdateDirectory".to_owned(),
            NfsError::FailedToUpdateFile => "NfsError::FailedToUpdateFile".to_owned(),
            NfsError::FileAlreadyExistsWithSameName => "NfsError::FileAlreadyExistsWithSameName".to_owned(),
            NfsError::FileDoesNotMatch => "NfsError::FileDoesNotMatch".to_owned(),
            NfsError::FileNotFound => "NfsError::FileNotFound".to_owned(),
            NfsError::InvalidRangeSpecified => "NfsError::InvalidRangeSpecified".to_owned(),
            NfsError::MetaDataMissingOrCorrupted => "NfsError::MetaDataMissingOrCorrupted".to_owned(),
            NfsError::ParameterInvalid => "NfsError::ParameterInvalid".to_owned(),
            NfsError::VersionNotFound => "NfsError::VersionNotFound".to_owned(),
            NfsError::RandomnessUnavailable => "NfsError::RandomnessUnavailable".to_owned(),
            NfsError::SerialisationFailed => "NfsError::SerialisationFailed".to_owned(),
            NfsError::UnexpectedReply => "NfsError::UnexpectedReply".to_owned(),
        }
    }

    /// Wraps the code of a client-layer failure.
    pub fn from_client(code: i32) -> (error: NfsError)
        ensures
            error == NfsError::NetworkError(code),
    {
        NfsError::NetworkError(code)
    }
}

/// Local errors have codes of their own: two local errors with one code are one error, and
/// every such code lies below the start of this layer's range.
pub proof fn lemma_local_codes_are_distinct(a: NfsError, b: NfsError)
    requires
        a.is_local(),
        b.is_local(),
    ensures
        a.spec_code() < NFS_ERROR_START_RANGE,
        a.spec_code() == b.spec_code() ==> a == b,
{
}

/// A client error whose code lies in the client's range, above the start of this layer's
/// range, shares its code with no local error.
pub proof fn lemma_layers_are_disjoint(client_code: i32, local: NfsError)
    requires
        NFS_ERROR_START_RANGE < client_code,
        local.is_local(),
    ensures
        NfsError::NetworkError(client_code).spec_code() != local.spec_code(),
{
}

} // verus!

//! Why a command was refused or failed.

use vstd::prelude::*;

verus! {

/// The four classes into which every failure falls.
#[derive(Clone, Copy, Debug, PartialEq, Eq, Structural)]
pub enum ErrorKind {
    NotFound,
    AlreadyExists,
    PermissionOrIo,
    InvalidPath,
}

/// A failure of one command, with what is known of its cause.
#[derive(Debug)]
pub enum CommandError {
    /// The path to list does not exist; carries that path.
    PathNotFound(String),
    /// The children of a directory could not be enumerated; carries the cause.
    DirectoryRead(String),
    /// The metadata of one child could not be read; carries the cause.
    EntryMetadata(String),
    /// The path to rename has no parent directory.
    InvalidPath,
    /// A node already occupies the path that a rename would take.
    DestinationExists,
    /// A node already occupies the path of the folder to create.
    AlreadyExists,
    /// The item could not be moved to the trash; carries the cause.
    Delete(String),
    /// The operating system refused a rename or a creation; carries the cause.
    Io(String),
}

/// The mathematical content of a `CommandError`.
pub enum ErrorModel {
    PathNotFound(Seq<char>),
    DirectoryRead(Seq<char>),
    EntryMetadata(Seq<char>),
    InvalidPath,
    DestinationExists,
    AlreadyExists,
    Delete(Seq<char>),
    Io(Seq<char>),
}

impl ErrorModel {
    /// The class of the failure.
    pub open spec fn kind(self) -> ErrorKind {
        match self {
            ErrorModel::PathNotFound(_) => ErrorKind::NotFound,
            ErrorModel::DirectoryRead(_) => ErrorKind::PermissionOrIo,
            ErrorModel::EntryMetadata(_) => ErrorKind::PermissionOrIo,
            ErrorModel::InvalidPath => ErrorKind::InvalidPath,
            ErrorModel::DestinationExists => ErrorKind::AlreadyExists,
            ErrorModel::AlreadyExists => ErrorKind::AlreadyExists,
            ErrorModel::Delete(_) => ErrorKind::PermissionOrIo,
            ErrorModel::Io(_) => ErrorKind::PermissionOrIo,
        }
    }

    /// The sentence shown to the user.
    pub open spec fn message(self) -> Seq<char> {
        match self {
            ErrorModel::PathNotFound(path) => "Path does not exist: "@ + path,
            ErrorModel::DirectoryRead(cause) => cause,
            ErrorModel::EntryMetadata(cause) => cause,
            ErrorModel::InvalidPath => "Invalid path"@,
            ErrorModel::DestinationExists => "Destination already exists"@,
            ErrorModel::AlreadyExists => "Folder already exists"@,
            ErrorModel::Delete(cause) => cause,
            ErrorModel::Io(cause) => cause,
        }
    }
}

impl View for CommandError {
    type V = ErrorModel;

    open spec fn view(&self) -> ErrorModel {
        match self {
            CommandError::PathNotFound(path) => ErrorModel::PathNotFound(path@),
            CommandError::DirectoryRead(cause) => ErrorModel::DirectoryRead(cause@),
            CommandError::EntryMetadata(cause) => ErrorModel::EntryMetadata(cause@),
            CommandError::InvalidPath => ErrorModel::InvalidPath,
            CommandError::DestinationExists => ErrorModel::DestinationExists,
            CommandError::AlreadyExists => ErrorModel::AlreadyExists,
            CommandError::Delete(cause) => ErrorModel::Delete(cause@),
            CommandError::Io(cause) => ErrorModel::Io(cause@),
        }
    }
}

impl CommandError {
    /// The class of the failure.
    pub fn kind(&self) -> (kind: ErrorKind)
        ensures
            kind == self@.kind(),
    {
        match self {
            CommandError::PathNotFound(_) => ErrorKind::NotFound,
            CommandError::DirectoryRead(_) => ErrorKind::PermissionOrIo,
            CommandError::EntryMetadata(_) => ErrorKind::PermissionOrIo,
            CommandError::InvalidPath => ErrorKind::InvalidPath,
            CommandError::DestinationExists => ErrorKind::AlreadyExists,
            CommandError::AlreadyExists => ErrorKind::AlreadyExists,
            CommandError::Delete(_) => ErrorKind::PermissionOrIo,
            CommandError::Io(_) => ErrorKind::PermissionOrIo,
        }
    }

    /// The sentence shown to the user.
    pub fn message(&self) -> (text: String)
        ensures
            text@ == self@.message(),
    {
        match self {
            CommandError::PathNotFound(path) => {
                String::from_str("Path does not exist: ").concat(path.as_str())
            },
            CommandError::DirectoryRead(cause) => cause.clone(),
            CommandError::EntryMetadata(cause) => cause.clone(),
            CommandError::InvalidPath => String::from_str("Invalid path"),
            CommandError::DestinationExists => String::from_str("Destination already exists"),
            CommandError::AlreadyExists => String::from_str("Folder already exists"),
            CommandError::Delete(cause) => cause.clone(),
            CommandError::Io(cause) => cause.clone(),
        }
    }
}

} // verus!

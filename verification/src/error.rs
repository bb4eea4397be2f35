use vstd::prelude::*;

verus! {

/// Failure of an external step: a filesystem operation, an environment
/// lookup, or one of the version-control subprocesses. Every variant
/// carries the diagnostic text of the underlying failure, so that the
/// caller can log it.
#[derive(Debug)]
pub enum ExecutionError {
    /// The storage folder path could not be resolved.
    GetStorageFolderPath(String),
    /// A path could not be canonicalized.
    CanonicalizePath(String),
    /// The current working directory could not be determined.
    GetCurrentDir(String),
    /// A git subprocess could not be launched; `command` names the
    /// operation and `err` holds the launch failure text.
    GitCommand { command: String, err: String },
    /// A file copy failed.
    CopyFile(String),
    /// A file could not be created.
    CreateFile(String),
    /// A write to a file failed.
    WriteToFile(String),
    /// A file could not be opened.
    OpenFile(String),
    /// A read from a file failed.
    ReadFile(String),
    /// A file could not be removed.
    RemoveFile(String),
    /// An environment variable was missing or unreadable.
    GetEnvVar { name: String, err: String },
    /// A directory entry could not be read while listing.
    GetDirEntry(String),
    /// The storage folder could not be removed.
    RemoveStorageFolder(String),
    /// The storage folder could not be created.
    CreateStorageFolder(String),
    /// Non-text content was found where text was expected.
    InvalidUTF8(String),
    /// The remote-link pattern could not be built.
    Regex(String),
    /// A git subprocess ran but exited with a failure status; the field
    /// names the operation that was rejected.
    NoSuccess(String),
    /// The remote repository does not exist.
    RepositoryNotFound,
    /// Any other failure, with what was being attempted.
    Unknown { err: String, trying_to: String },
}

/// The outcome classification every command reports: either a usage
/// error, whose message is shown to the user verbatim, or an execution
/// error, which is reported generically and logged in detail.
#[derive(Debug)]
pub enum CommandError {
    Usage(String),
    Execution(ExecutionError),
}

impl From<ExecutionError> for CommandError {
    fn from(err: ExecutionError) -> Self {
        CommandError::Execution(err)
    }
}

impl vstd::std_specs::convert::FromSpecImpl<ExecutionError> for CommandError {
    open spec fn obeys_from_spec() -> bool {
        true
    }

    open spec fn from_spec(err: ExecutionError) -> CommandError {
        CommandError::Execution(err)
    }
}

} // verus!

use vstd::prelude::*;

use crate::error::CommandError;
use crate::error::ExecutionError;
use crate::store;
use crate::store::Folder;
use crate::store::Storage;

verus! {

/// Usage error of Clone.
#[derive(Debug)]
pub enum Error {
    /// The file is not tracked.
    FileDoesNotExists,
}

impl Error {
    /// The message shown to the user.
    pub open spec fn spec_message(self) -> Seq<char> {
        match self {
            Error::FileDoesNotExists => "File does not exist in the repository"@,
        }
    }

    pub fn message(&self) -> (r: String)
        ensures
            r@ == self.spec_message(),
    {
        match self {
            Error::FileDoesNotExists => "File does not exist in the repository".to_owned(),
        }
    }

    /// This usage error as a command verdict.
    pub fn to_command_error(&self) -> (r: CommandError)
        ensures
            r matches CommandError::Usage(m) && m@ == self.spec_message(),
    {
        CommandError::Usage(self.message())
    }
}

/// Copies a tracked file from the mirror back into the working directory.
#[derive(Debug)]
pub struct Clone {
    /// File name
    pub name: String,
}

impl Clone {
    /// Runs Clone against the given state: checks that the file is
    /// tracked, copies it into the working directory, and returns the
    /// success message. No git plan is involved: the mirror itself is not
    /// changed.
    pub fn execute(self, storage: &Storage, current_dir: &mut Folder) -> (r: Result<
        String,
        CommandError,
    >)
        requires
            storage.wf(),
            old(current_dir).wf(),
        ensures
            final(current_dir).wf(),
            r is Ok <==> storage.dotfiles@.has_file(self.name@) && !old(
                current_dir,
            )@.dirs.contains(self.name@),
            r matches Ok(message) ==> {
                &&& final(current_dir)@ == old(current_dir)@.put(
                    self.name@,
                    storage.dotfiles@.data_of(self.name@),
                )
                &&& message@ == "Successfully cloned the file to your current directory"@
            },
            r matches Err(e) ==> {
                &&& *final(current_dir) == *old(current_dir)
                &&& if !storage.dotfiles@.entry_exists(self.name@) {
                    e matches CommandError::Usage(m) && m@
                        == Error::FileDoesNotExists.spec_message()
                } else {
                    e matches CommandError::Execution(ExecutionError::CopyFile(_))
                }
            },
    {
        if !store::check_if_file_exists(&storage.dotfiles, &self.name) {
            return Err(Error::FileDoesNotExists.to_command_error());
        }
        match store::copy(&storage.dotfiles, current_dir, &self.name) {
            Ok(()) => Ok("Successfully cloned the file to your current directory".to_owned()),
            Err(e) => Err(CommandError::from(e)),
        }
    }
}

} // verus!

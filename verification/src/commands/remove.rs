use vstd::prelude::*;
use vstd::string::StringExecFns;

use crate::error::CommandError;
use crate::error::ExecutionError;
use crate::git::GitCommandExecuter;
use crate::git::GitCommandExecuterBuilder;
use crate::store;
use crate::store::Storage;
use crate::utils;

verus! {

/// Usage errors of Remove.
#[derive(Debug)]
pub enum Error {
    /// The file is not tracked.
    FileDoesNotExists,
    /// No remote is configured yet.
    SetRemoteRepository,
    /// The machine is offline.
    NoInternetConnection,
}

impl Error {
    /// The message shown to the user.
    pub open spec fn spec_message(self) -> Seq<char> {
        match self {
            Error::FileDoesNotExists => "File does not exist in the repository"@,
            Error::SetRemoteRepository => "You need to set a remote repository before use DFM"@,
            Error::NoInternetConnection => "No internet connection"@,
        }
    }

    pub fn message(&self) -> (r: String)
        ensures
            r@ == self.spec_message(),
    {
        match self {
            Error::FileDoesNotExists => "File does not exist in the repository".to_owned(),
            Error::SetRemoteRepository => "You need to set a remote repository before use DFM".to_owned(),
            Error::NoInternetConnection => "No internet connection".to_owned(),
        }
    }

    /// This usage error as a command verdict.
    pub fn to_command_error(&self) -> (r: CommandError)
        ensures
            r matches CommandError::Usage(m) && m@ == self.spec_message(),
    {
        CommandError::Usage(self.message())
    }
}

/// Whether Remove goes through: the machine is online, a remote is
/// configured, and a plain file of that name is tracked.
pub open spec fn remove_accepted(storage: Storage, name: Seq<char>, online: bool) -> bool {
    &&& online
    &&& storage.remote is Some
    &&& storage.dotfiles@.has_file(name)
}

/// Removes a tracked file from the mirror.
#[derive(Debug)]
pub struct Remove {
    /// File name
    pub name: String,
}

impl Remove {
    /// Runs Remove against the given state: checks the preconditions in
    /// order, deletes the file from the mirror, and returns the commit
    /// plan together with the success message the caller prints once the
    /// plan has run successfully.
    pub fn execute(self, storage: &mut Storage, online: bool) -> (r: Result<
        (GitCommandExecuter, String),
        CommandError,
    >)
        requires
            old(storage).wf(),
        ensures
            final(storage).wf(),
            r is Ok <==> remove_accepted(*old(storage), self.name@, online),
            r matches Ok((plan, message)) ==> {
                &&& final(storage).folder_path == old(storage).folder_path
                &&& final(storage).remote == old(storage).remote
                &&& final(storage).dotfiles@ == old(storage).dotfiles@.remove(self.name@)
                &&& !final(storage).dotfiles@.has_file(self.name@)
                &&& plan.git_storage_folder_path@ == old(storage).folder_path@ + "/dotfiles"@
                &&& plan.run_commit
                &&& !plan.run_init
                &&& !plan.run_pull
                &&& !plan.run_remote_add
                &&& !plan.run_remote_remove
                &&& plan.commit_message@ == "Remove "@ + self.name@
                &&& message@
                    == "Successfully removed the file and synchronized the local repository with the remote repository"@
            },
            r matches Err(e) ==> {
                &&& *final(storage) == *old(storage)
                &&& if !online {
                    e matches CommandError::Usage(m) && m@
                        == Error::NoInternetConnection.spec_message()
                } else if old(storage).remote is None {
                    e matches CommandError::Usage(m) && m@
                        == Error::SetRemoteRepository.spec_message()
                } else if !old(storage).dotfiles@.entry_exists(self.name@) {
                    e matches CommandError::Usage(m) && m@
                        == Error::FileDoesNotExists.spec_message()
                } else {
                    e matches CommandError::Execution(ExecutionError::RemoveFile(_))
                }
            },
    {
        if !online {
            return Err(Error::NoInternetConnection.to_command_error());
        }
        let git_storage_folder_path = utils::get_git_storage_folder_path(&storage.folder_path);
        if !store::has_remote(storage) {
            return Err(Error::SetRemoteRepository.to_command_error());
        }
        if !store::check_if_file_exists(&storage.dotfiles, &self.name) {
            return Err(Error::FileDoesNotExists.to_command_error());
        }
        match store::remove_file(&mut storage.dotfiles, &self.name) {
            Ok(()) => {},
            Err(e) => {
                return Err(CommandError::from(e));
            },
        }
        let mut commit_message = "Remove ".to_owned();
        commit_message.append(self.name.as_str());
        let plan = GitCommandExecuterBuilder::new(git_storage_folder_path).run_commit(
            commit_message,
        ).build();
        Ok(
            (
                plan,
                "Successfully removed the file and synchronized the local repository with the remote repository".to_owned(),
            ),
        )
    }
}

} // verus!

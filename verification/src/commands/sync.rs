use vstd::prelude::*;

use crate::error::CommandError;
use crate::git::GitCommandExecuter;
use crate::git::GitCommandExecuterBuilder;
use crate::store;
use crate::store::Storage;
use crate::utils;

verus! {

/// Usage errors of Sync.
#[derive(Debug)]
pub enum Error {
    /// No remote is configured yet.
    SetRemoteRepository,
    /// The machine is offline.
    NoInternetConnection,
}

impl Error {
    /// The message shown to the user.
    pub open spec fn spec_message(self) -> Seq<char> {
        match self {
            Error::SetRemoteRepository => "You need to set a remote repository before use DFM"@,
            Error::NoInternetConnection => "No internet connection"@,
        }
    }

    pub fn message(&self) -> (r: String)
        ensures
            r@ == self.spec_message(),
    {
        match self {
            Error::SetRemoteRepository => "You need to set a remote repository before use DFM".to_owned(),
            Error::NoInternetConnection => "No internet connection".to_owned(),
        }
    }

    /// This usage error as a command verdict.
    pub fn to_command_error(&self) -> (r: CommandError)
        ensures
            r matches CommandError::Usage(m) && m@ == self.spec_message(),
    {
        CommandError::Usage(self.message())
    }
}

/// Pulls the latest remote state into the mirror.
#[derive(Debug)]
pub struct Sync;

impl Sync {
    /// Runs Sync against the given state: checks connectivity and the
    /// configured remote, and returns the pull plan together with the
    /// success message the caller prints once the plan has run
    /// successfully. The mirror snapshot itself is not touched here; the
    /// pull rewrites it on disk.
    pub fn execute(self, storage: &Storage, online: bool) -> (r: Result<
        (GitCommandExecuter, String),
        CommandError,
    >)
        ensures
            r is Ok <==> online && storage.remote is Some,
            r matches Ok((plan, message)) ==> {
                &&& plan.run_pull
                &&& !plan.run_init
                &&& !plan.run_commit
                &&& !plan.run_remote_add
                &&& !plan.run_remote_remove
                &&& plan.git_storage_folder_path@ == storage.folder_path@ + "/dotfiles"@
                &&& message@ == "Finished the synchronization with the remote repository"@
            },
            r matches Err(e) ==> {
                &&& if !online {
                    e matches CommandError::Usage(m) && m@
                        == Error::NoInternetConnection.spec_message()
                } else {
                    e matches CommandError::Usage(m) && m@
                        == Error::SetRemoteRepository.spec_message()
                }
            },
    {
        if !online {
            return Err(Error::NoInternetConnection.to_command_error());
        }
        let git_storage_folder_path = utils::get_git_storage_folder_path(&storage.folder_path);
        if !store::has_remote(storage) {
            return Err(Error::SetRemoteRepository.to_command_error());
        }
        let plan = GitCommandExecuterBuilder::new(git_storage_folder_path).run_pull().build();
        Ok((plan, "Finished the synchronization with the remote repository".to_owned()))
    }
}

} // verus!

use vstd::prelude::*;

use crate::error::CommandError;
use crate::git::GitCommandExecuter;
use crate::git::GitOperation;
use crate::setup;
use crate::store::Folder;
use crate::store::Storage;
use crate::store;
use crate::utils;

verus! {

/// Usage error of Reset.
#[derive(Debug)]
pub enum Error {
    /// There is nothing to reset: no remote was ever configured.
    SetRemoteRepository,
}

impl Error {
    /// The message shown to the user.
    pub open spec fn spec_message(self) -> Seq<char> {
        match self {
            Error::SetRemoteRepository => "This action is unnecessary because you already are in the initial state"@,
        }
    }

    pub fn message(&self) -> (r: String)
        ensures
            r@ == self.spec_message(),
    {
        match self {
            Error::SetRemoteRepository => "This action is unnecessary because you already are in the initial state".to_owned(),
        }
    }

    /// This usage error as a command verdict.
    pub fn to_command_error(&self) -> (r: CommandError)
        ensures
            r matches CommandError::Usage(m) && m@ == self.spec_message(),
    {
        CommandError::Usage(self.message())
    }
}

/// Returns the tool to its initial state: empty mirror, no remote.
#[derive(Debug)]
pub struct Reset;

impl Reset {
    /// Runs Reset against the given state: rejects when no remote is
    /// configured (the tool is already in its initial state), otherwise
    /// empties the mirror, deletes the marker, and returns the
    /// initialization plan together with the success message the caller
    /// prints once the plan has run successfully.
    pub fn execute(self, storage: &mut Storage) -> (r: Result<
        (GitCommandExecuter, String),
        CommandError,
    >)
        requires
            old(storage).wf(),
        ensures
            final(storage).wf(),
            r is Ok <==> old(storage).remote is Some,
            r matches Ok((plan, message)) ==> {
                &&& final(storage).folder_path == old(storage).folder_path
                &&& final(storage).remote is None
                &&& final(storage).dotfiles@.files == Map::<Seq<char>, Seq<u8>>::empty()
                &&& final(storage).dotfiles@.dirs == Set::<Seq<char>>::empty()
                &&& final(storage).dotfiles.files@.len() == 0
                &&& final(storage).dotfiles.subdirs@.len() == 0
                &&& plan.plan() == seq![GitOperation::Init]
                &&& plan.git_storage_folder_path@ == old(storage).folder_path@ + "/dotfiles"@
                &&& message@ == "Successfully reseted the dfmn to the initial state"@
            },
            r matches Err(e) ==> {
                &&& *final(storage) == *old(storage)
                &&& e matches CommandError::Usage(m) && m@
                    == Error::SetRemoteRepository.spec_message()
            },
    {
        let git_storage_folder_path = utils::get_git_storage_folder_path(&storage.folder_path);
        if !store::has_remote(storage) {
            return Err(Error::SetRemoteRepository.to_command_error());
        }
        storage.dotfiles = Folder::new_empty();
        storage.remote = None;
        let plan = setup::execute_git_commands(git_storage_folder_path);
        Ok((plan, "Successfully reseted the dfmn to the initial state".to_owned()))
    }
}

} // verus!

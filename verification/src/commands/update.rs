use vstd::prelude::*;
use vstd::string::StringExecFns;

use crate::error::CommandError;
use crate::error::ExecutionError;
use crate::git::GitCommandExecuter;
use crate::git::GitCommandExecuterBuilder;
use crate::store;
use crate::store::Folder;
use crate::store::Storage;
use crate::utils;

verus! {

/// Usage errors of Update.
#[derive(Debug)]
pub enum Error {
    /// Nothing of that name is in the working directory.
    FileDoesNotExists,
    /// The file is not tracked.
    FileNotAdded,
    /// The working copy and the mirror copy are already identical.
    NothingToUpdate,
    /// No remote is configured yet.
    SetRemoteRepository,
}

impl Error {
    /// The message shown to the user.
    pub open spec fn spec_message(self) -> Seq<char> {
        match self {
            Error::FileDoesNotExists => "File does not exist in the current folder"@,
            Error::FileNotAdded => "File not added"@,
            Error::NothingToUpdate => "Nothing to update"@,
            Error::SetRemoteRepository => "You need to set a remote repository before use DFM"@,
        }
    }

    pub fn message(&self) -> (r: String)
        ensures
            r@ == self.spec_message(),
    {
        match self {
            Error::FileDoesNotExists => "File does not exist in the current folder".to_owned(),
            Error::FileNotAdded => "File not added".to_owned(),
            Error::NothingToUpdate => "Nothing to update".to_owned(),
            Error::SetRemoteRepository => "You need to set a remote repository before use DFM".to_owned(),
        }
    }

    /// This usage error as a command verdict.
    pub fn to_command_error(&self) -> (r: CommandError)
        ensures
            r matches CommandError::Usage(m) && m@ == self.spec_message(),
    {
        CommandError::Usage(self.message())
    }
}

/// Whether Update goes through: a remote is configured, the name is a
/// plain file both in the working directory and in the mirror, and the
/// two copies differ.
pub open spec fn update_accepted(storage: Storage, current_dir: Folder, name: Seq<char>) -> bool {
    &&& storage.remote is Some
    &&& current_dir@.has_file(name)
    &&& storage.dotfiles@.has_file(name)
    &&& current_dir@.data_of(name) != storage.dotfiles@.data_of(name)
}

/// Brings the mirror copy of a tracked file up to date with the working
/// copy.
#[derive(Debug)]
pub struct Update {
    /// File name
    pub name: String,
}

impl Update {
    /// Runs Update against the given state: checks the preconditions in
    /// order, rejects when the two copies are already byte-identical —
    /// performing no copy and issuing no plan — and otherwise overwrites
    /// the mirror copy and returns the commit plan together with the
    /// success message the caller prints once the plan has run
    /// successfully. On success the two copies are equal.
    pub fn execute(self, storage: &mut Storage, current_dir: &Folder) -> (r: Result<
        (GitCommandExecuter, String),
        CommandError,
    >)
        requires
            old(storage).wf(),
            current_dir.wf(),
        ensures
            final(storage).wf(),
            r is Ok <==> update_accepted(*old(storage), *current_dir, self.name@),
            r matches Ok((plan, message)) ==> {
                &&& final(storage).folder_path == old(storage).folder_path
                &&& final(storage).remote == old(storage).remote
                &&& final(storage).dotfiles@ == old(storage).dotfiles@.put(
                    self.name@,
                    current_dir@.data_of(self.name@),
                )
                &&& final(storage).dotfiles@.data_of(self.name@) == current_dir@.data_of(
                    self.name@,
                )
                &&& plan.git_storage_folder_path@ == old(storage).folder_path@ + "/dotfiles"@
                &&& plan.run_commit
                &&& !plan.run_init
                &&& !plan.run_pull
                &&& !plan.run_remote_add
                &&& !plan.run_remote_remove
                &&& plan.commit_message@ == "Update "@ + self.name@
                &&& message@
                    == "Successfully updated the file and synchronized the local repository with the remote repository"@
            },
            r matches Err(e) ==> {
                &&& *final(storage) == *old(storage)
                &&& if old(storage).remote is None {
                    e matches CommandError::Usage(m) && m@
                        == Error::SetRemoteRepository.spec_message()
                } else if !current_dir@.entry_exists(self.name@) {
                    e matches CommandError::Usage(m) && m@
                        == Error::FileDoesNotExists.spec_message()
                } else if !old(storage).dotfiles@.entry_exists(self.name@) {
                    e matches CommandError::Usage(m) && m@ == Error::FileNotAdded.spec_message()
                } else if !current_dir@.has_file(self.name@) || !old(
                    storage,
                ).dotfiles@.has_file(self.name@) {
                    e matches CommandError::Execution(ExecutionError::Unknown { .. })
                } else {
                    &&& current_dir@.data_of(self.name@) == old(storage).dotfiles@.data_of(
                        self.name@,
                    )
                    &&& e matches CommandError::Usage(m) && m@
                        == Error::NothingToUpdate.spec_message()
                }
            },
    {
        let git_storage_folder_path = utils::get_git_storage_folder_path(&storage.folder_path);
        if !store::has_remote(storage) {
            return Err(Error::SetRemoteRepository.to_command_error());
        }
        if !store::check_if_file_exists(current_dir, &self.name) {
            return Err(Error::FileDoesNotExists.to_command_error());
        }
        if !store::check_if_file_exists(&storage.dotfiles, &self.name) {
            return Err(Error::FileNotAdded.to_command_error());
        }
        let two_files_are_equal = {
            let working_data = match store::read_file(current_dir, &self.name) {
                Some(data) => data,
                None => {
                    return Err(
                        CommandError::Execution(
                            ExecutionError::Unknown {
                                err: "the working copy could not be read as a file".to_owned(),
                                trying_to: "check if files are equal".to_owned(),
                            },
                        ),
                    );
                },
            };
            let mirror_data = match store::read_file(&storage.dotfiles, &self.name) {
                Some(data) => data,
                None => {
                    return Err(
                        CommandError::Execution(
                            ExecutionError::Unknown {
                                err: "the mirror copy could not be read as a file".to_owned(),
                                trying_to: "check if files are equal".to_owned(),
                            },
                        ),
                    );
                },
            };
            store::check_if_files_are_equal(working_data, mirror_data)
        };
        if two_files_are_equal {
            return Err(Error::NothingToUpdate.to_command_error());
        }
        match store::copy(current_dir, &mut storage.dotfiles, &self.name) {
            Ok(()) => {},
            Err(_) => {
                return unreached();
            },
        }
        let mut commit_message = "Update ".to_owned();
        commit_message.append(self.name.as_str());
        let plan = GitCommandExecuterBuilder::new(git_storage_folder_path).run_commit(
            commit_message,
        ).build();
        Ok(
            (
                plan,
                "Successfully updated the file and synchronized the local repository with the remote repository".to_owned(),
            ),
        )
    }
}

} // verus!

use vstd::prelude::*;
use vstd::string::StringExecFns;

use crate::error::CommandError;
use crate::git::GitCommandExecuter;
use crate::git::GitCommandExecuterBuilder;
use crate::store;
use crate::store::Folder;
use crate::store::Storage;
use crate::utils;

verus! {

/// Usage errors of Add.
#[derive(Debug)]
pub enum Error {
    /// The file is already tracked.
    FileAlreadyAdded,
    /// Nothing of that name is in the working directory.
    FileDoesNotExists,
    /// The name belongs to something other than a plain file.
    NotAFile,
    /// No remote is configured yet.
    SetRemoteRepository,
}

impl Error {
    /// The message shown to the user.
    pub open spec fn spec_message(self) -> Seq<char> {
        match self {
            Error::FileAlreadyAdded => "File already added to the remote repository"@,
            Error::FileDoesNotExists => "File does not exist in your current directory"@,
            Error::NotAFile => "You can just add files to the repository"@,
            Error::SetRemoteRepository => "You need to set a remote repository before use DFM"@,
        }
    }

    pub fn message(&self) -> (r: String)
        ensures
            r@ == self.spec_message(),
    {
        match self {
            Error::FileAlreadyAdded => "File already added to the remote repository".to_owned(),
            Error::FileDoesNotExists => "File does not exist in your current directory".to_owned(),
            Error::NotAFile => "You can just add files to the repository".to_owned(),
            Error::SetRemoteRepository => "You need to set a remote repository before use DFM".to_owned(),
        }
    }

    /// This usage error as a command verdict.
    pub fn to_command_error(&self) -> (r: CommandError)
        ensures
            r matches CommandError::Usage(m) && m@ == self.spec_message(),
    {
        CommandError::Usage(self.message())
    }
}

/// Whether Add goes through: a remote is configured, the name is a plain
/// file of the working directory, and nothing of that name is in the
/// mirror yet.
pub open spec fn add_accepted(storage: Storage, current_dir: Folder, name: Seq<char>) -> bool {
    &&& storage.remote is Some
    &&& current_dir@.has_file(name)
    &&& !storage.dotfiles@.entry_exists(name)
}

/// The usage message when Add rejects, following the order of its checks.
pub open spec fn add_rejection(storage: Storage, current_dir: Folder, name: Seq<char>) -> Seq<
    char,
> {
    if storage.remote is None {
        Error::SetRemoteRepository.spec_message()
    } else if !current_dir@.entry_exists(name) {
        Error::FileDoesNotExists.spec_message()
    } else if !current_dir@.has_file(name) {
        Error::NotAFile.spec_message()
    } else {
        Error::FileAlreadyAdded.spec_message()
    }
}

/// Adds a file from the working directory to the mirror.
#[derive(Debug)]
pub struct Add {
    /// File name
    pub name: String,
}

impl Add {
    /// Runs Add against the given state: checks the preconditions in
    /// order, copies the file into the mirror, and returns the commit
    /// plan together with the success message the caller prints once the
    /// plan has run successfully. On success the file is tracked and the
    /// mirror copy equals the working copy.
    pub fn execute(self, storage: &mut Storage, current_dir: &Folder) -> (r: Result<
        (GitCommandExecuter, String),
        CommandError,
    >)
        requires
            old(storage).wf(),
            current_dir.wf(),
        ensures
            final(storage).wf(),
            r is Ok <==> add_accepted(*old(storage), *current_dir, self.name@),
            r matches Ok((plan, message)) ==> {
                &&& final(storage).folder_path == old(storage).folder_path
                &&& final(storage).remote == old(storage).remote
                &&& final(storage).dotfiles@ == old(storage).dotfiles@.put(
                    self.name@,
                    current_dir@.data_of(self.name@),
                )
                &&& final(storage).dotfiles@.has_file(self.name@)
                &&& final(storage).dotfiles@.data_of(self.name@) == current_dir@.data_of(
                    self.name@,
                )
                &&& plan.git_storage_folder_path@ == old(storage).folder_path@ + "/dotfiles"@
                &&& plan.run_commit
                &&& !plan.run_init
                &&& !plan.run_pull
                &&& !plan.run_remote_add
                &&& !plan.run_remote_remove
                &&& plan.commit_message@ == "Add "@ + self.name@
                &&& message@
                    == "Successfully added the file and synchronized the local repository with the remote repository"@
            },
            r matches Err(e) ==> {
                &&& *final(storage) == *old(storage)
                &&& e matches CommandError::Usage(m) && m@ == add_rejection(
                    *old(storage),
                    *current_dir,
                    self.name@,
                )
            },
    {
        let git_storage_folder_path = utils::get_git_storage_folder_path(&storage.folder_path);
        if !store::has_remote(storage) {
            return Err(Error::SetRemoteRepository.to_command_error());
        }
        if !store::check_if_file_exists(current_dir, &self.name) {
            return Err(Error::FileDoesNotExists.to_command_error());
        }
        if !store::is_regular_file(current_dir, &self.name) {
            return Err(Error::NotAFile.to_command_error());
        }
        if store::check_if_file_exists(&storage.dotfiles, &self.name) {
            return Err(Error::FileAlreadyAdded.to_command_error());
        }
        match store::copy(current_dir, &mut storage.dotfiles, &self.name) {
            Ok(()) => {},
            Err(_) => {
                return unreached();
            },
        }
        let mut commit_message = "Add ".to_owned();
        commit_message.append(self.name.as_str());
        let plan = GitCommandExecuterBuilder::new(git_storage_folder_path).run_commit(
            commit_message,
        ).build();
        Ok(
            (
                plan,
                "Successfully added the file and synchronized the local repository with the remote repository".to_owned(),
            ),
        )
    }
}

} // verus!

use vstd::prelude::*;
use vstd::string::StringExecFns;

use crate::error::CommandError;
use crate::store::has_remote;
use crate::store::Storage;

verus! {

/// Usage error of the shared precondition check.
#[derive(Debug)]
pub enum Error {
    /// No remote is configured yet, and the command needs one.
    SetRemoteRepository,
}

impl Error {
    /// The message shown to the user.
    pub open spec fn spec_message(self) -> Seq<char> {
        match self {
            Error::SetRemoteRepository => "You need to set a remote repository before use DFM"@,
        }
    }

    pub fn message(&self) -> (r: String)
        ensures
            r@ == self.spec_message(),
    {
        match self {
            Error::SetRemoteRepository => "You need to set a remote repository before use DFM".to_owned(),
        }
    }

    /// This usage error as a command verdict.
    pub fn to_command_error(&self) -> (r: CommandError)
        ensures
            r matches CommandError::Usage(m) && m@ == self.spec_message(),
    {
        CommandError::Usage(self.message())
    }
}

/// The mirror root: the dotfiles folder directly under the tool's own
/// folder.
pub fn get_git_storage_folder_path(dfm_folder_path: &String) -> (r: String)
    ensures
        r@ == dfm_folder_path@ + "/dotfiles"@,
{
    let mut path = dfm_folder_path.clone();
    path.append("/dotfiles");
    path
}

/// Succeeds exactly when the remote marker is present; fails with the
/// usage error telling the user to configure a remote first.
pub fn check_if_remote_link_is_added(storage: &Storage) -> (r: Result<(), CommandError>)
    ensures
        r is Ok <==> storage.remote is Some,
        r matches Err(e) ==> e matches CommandError::Usage(m) && m@
            == Error::SetRemoteRepository.spec_message(),
{
    if has_remote(storage) {
        Ok(())
    } else {
        Err(Error::SetRemoteRepository.to_command_error())
    }
}

} // verus!

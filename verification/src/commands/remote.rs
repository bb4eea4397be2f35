use vstd::prelude::*;

use crate::error::CommandError;
use crate::error::ExecutionError;
use crate::git::GitCommandExecuter;
use crate::git::GitCommandExecuterBuilder;
use crate::store::has_remote;
use crate::store::Storage;
use crate::utils;

verus! {

/// Usage errors of the remote subcommands.
#[derive(Debug)]
pub enum Error {
    /// A remote is already configured; only a reset may change it.
    AlreadyAdded,
    /// No remote is configured yet, so there is nothing to show.
    NotSetted,
    /// The link does not have the SSH remote shape.
    NotSSH,
    /// The remote repository behind the link does not exist.
    InvalidLink,
    /// The machine is offline.
    NoInternetConnection,
}

impl Error {
    /// The message shown to the user.
    pub open spec fn spec_message(self) -> Seq<char> {
        match self {
            Error::AlreadyAdded => "Remote repository already added if you want to change that you need to reset your dfmn"@,
            Error::NotSetted => "Remote repository not setted yet"@,
            Error::NotSSH => "Not a ssh link"@,
            Error::InvalidLink => "Invalid link for the remote repository"@,
            Error::NoInternetConnection => "No internet connection"@,
        }
    }

    pub fn message(&self) -> (r: String)
        ensures
            r@ == self.spec_message(),
    {
        match self {
            Error::AlreadyAdded => "Remote repository already added if you want to change that you need to reset your dfmn".to_owned(),
            Error::NotSetted => "Remote repository not setted yet".to_owned(),
            Error::NotSSH => "Not a ssh link".to_owned(),
            Error::InvalidLink => "Invalid link for the remote repository".to_owned(),
            Error::NoInternetConnection => "No internet connection".to_owned(),
        }
    }

    /// This usage error as a command verdict.
    pub fn to_command_error(&self) -> (r: CommandError)
        ensures
            r matches CommandError::Usage(m) && m@ == self.spec_message(),
    {
        CommandError::Usage(self.message())
    }
}

/// Whether a connection string has the SSH remote shape that the tool
/// accepts.
pub uninterp spec fn ssh_match(s: Seq<char>) -> bool;

/// Relies on regex::Regex::new and regex::Regex::is_match: whether the
/// fixed pattern `git@git((hub)|(lab))\.com:\S*/\S*\.git` matches
/// somewhere in `link`. The pattern is a valid literal, so its
/// compilation cannot fail, and the match depends on the pattern and
/// `link` alone.
#[verifier::external_body]
fn ssh_pattern_is_match(link: &str) -> (r: bool)
    ensures
        r == ssh_match(link@),
{
    match regex::Regex::new(r"git@git((hub)|(lab))\.com:\S*/\S*\.git") {
        Ok(re) => re.is_match(link),
        Err(_) => false,
    }
}

/// Creates the remote marker exactly once: a second write without an
/// intervening reset is rejected and leaves the stored link untouched.
pub fn write_remote(storage: &mut Storage, link: &String) -> (r: Result<(), CommandError>)
    ensures
        r is Ok <==> old(storage).remote is None,
        r is Ok ==> (final(storage).remote matches Some(l) && l@ == link@),
        final(storage).folder_path == old(storage).folder_path,
        final(storage).dotfiles == old(storage).dotfiles,
        r matches Err(e) ==> *final(storage) == *old(storage) && (e matches CommandError::Usage(m)
            && m@ == Error::AlreadyAdded.spec_message()),
{
    if storage.remote.is_some() {
        return Err(Error::AlreadyAdded.to_command_error());
    }
    storage.remote = Some(link.clone());
    Ok(())
}

/// The stored connection string, or the not-configured usage error.
pub fn show_remote_link(storage: &Storage) -> (r: Result<String, CommandError>)
    ensures
        r is Ok <==> storage.remote is Some,
        r matches Ok(link) ==> (storage.remote matches Some(l) && l@ == link@),
        r matches Err(e) ==> e matches CommandError::Usage(m) && m@
            == Error::NotSetted.spec_message(),
{
    match &storage.remote {
        Some(l) => Ok(l.clone()),
        None => Err(Error::NotSetted.to_command_error()),
    }
}

/// Whether a set-remote request passes validation: the machine is online,
/// no remote is configured yet, and the link has the SSH remote shape.
pub open spec fn remote_set_accepted(storage: Storage, link: Seq<char>, online: bool) -> bool {
    &&& online
    &&& storage.remote is None
    &&& ssh_match(link)
}

/// The usage message when a set-remote request is rejected, following the
/// order of the checks.
pub open spec fn remote_set_rejection(storage: Storage, link: Seq<char>, online: bool) -> Seq<
    char,
> {
    if !online {
        Error::NoInternetConnection.spec_message()
    } else if storage.remote is Some {
        Error::AlreadyAdded.spec_message()
    } else {
        Error::NotSSH.spec_message()
    }
}

/// Validates a set-remote request — connectivity, single configuration,
/// link shape, in that order — and returns the add-remote-and-pull plan.
/// No subprocess is requested and nothing is persisted unless every check
/// passes; the marker is only written by `confirm_remote_add`, after the
/// returned plan has run successfully.
pub fn add_remote_link(storage: &Storage, link: &String, online: bool) -> (r: Result<
    GitCommandExecuter,
    CommandError,
>)
    ensures
        r is Ok <==> remote_set_accepted(*storage, link@, online),
        r matches Ok(plan) ==> {
            &&& plan.run_remote_add
            &&& plan.run_pull
            &&& !plan.run_init
            &&& !plan.run_commit
            &&& !plan.run_remote_remove
            &&& plan.remote_link@ == link@
            &&& plan.git_storage_folder_path@ == storage.folder_path@ + "/dotfiles"@
        },
        r matches Err(e) ==> e matches CommandError::Usage(m) && m@ == remote_set_rejection(
            *storage,
            link@,
            online,
        ),
{
    if !online {
        return Err(Error::NoInternetConnection.to_command_error());
    }
    if has_remote(storage) {
        return Err(Error::AlreadyAdded.to_command_error());
    }
    if !ssh_pattern_is_match(link.as_str()) {
        return Err(Error::NotSSH.to_command_error());
    }
    let git_storage_folder_path = utils::get_git_storage_folder_path(&storage.folder_path);
    Ok(
        GitCommandExecuterBuilder::new(git_storage_folder_path).run_remote_add(
            link.clone(),
        ).run_pull().build(),
    )
}

/// The compensating plan for a failed add-remote-and-pull plan: the
/// half-registered remote is removed again, so no masked configuration is
/// left behind for later commands.
pub fn remote_add_rollback(storage: &Storage) -> (r: GitCommandExecuter)
    ensures
        r.run_remote_remove,
        !r.run_init,
        !r.run_remote_add,
        !r.run_pull,
        !r.run_commit,
        r.git_storage_folder_path@ == storage.folder_path@ + "/dotfiles"@,
{
    let git_storage_folder_path = utils::get_git_storage_folder_path(&storage.folder_path);
    GitCommandExecuterBuilder::new(git_storage_folder_path).run_remote_remove().build()
}

/// The verdict of a failed add-remote-and-pull plan, given how the
/// compensating plan went: a failure of the compensation takes
/// precedence; a missing remote repository is the user's bad link; any
/// other failure is reported as the execution error it is.
pub fn classify_remote_add_failure(err: ExecutionError, rollback: Result<(), ExecutionError>) -> (r:
    CommandError)
    ensures
        rollback matches Err(re) ==> r == CommandError::Execution(re),
        rollback is Ok ==> match err {
            ExecutionError::RepositoryNotFound => (r matches CommandError::Usage(m) && m@
                == Error::InvalidLink.spec_message()),
            _ => r == CommandError::Execution(err),
        },
{
    match rollback {
        Err(re) => CommandError::Execution(re),
        Ok(()) => match err {
            ExecutionError::RepositoryNotFound => Error::InvalidLink.to_command_error(),
            _ => CommandError::Execution(err),
        },
    }
}

/// After the add-remote-and-pull plan succeeded: persists the marker and
/// reports success.
pub fn confirm_remote_add(storage: &mut Storage, link: &String) -> (r: Result<
    String,
    CommandError,
>)
    ensures
        r is Ok <==> old(storage).remote is None,
        r matches Ok(message) ==> {
            &&& final(storage).remote matches Some(l) && l@ == link@
            &&& message@
                == "Successfully setted the remote repository and synchronized the local repository with the remote repository"@
        },
        final(storage).folder_path == old(storage).folder_path,
        final(storage).dotfiles == old(storage).dotfiles,
        r matches Err(e) ==> *final(storage) == *old(storage) && (e matches CommandError::Usage(m)
            && m@ == Error::AlreadyAdded.spec_message()),
{
    match write_remote(storage, link) {
        Ok(()) => Ok(
            "Successfully setted the remote repository and synchronized the local repository with the remote repository".to_owned(),
        ),
        Err(e) => Err(e),
    }
}

/// What the caller must do next for a remote subcommand.
#[derive(Debug)]
pub enum RemoteAction {
    /// Show: print this stored link.
    Show(String),
    /// Set: run this add-remote-and-pull plan, then confirm the marker on
    /// success or roll the registration back on failure.
    RunPlan(GitCommandExecuter),
}

/// The argument of the set subcommand.
#[derive(Debug)]
pub struct Add {
    /// Remote repository link
    pub link: String,
}

/// The remote subcommands.
#[derive(Debug)]
pub enum Subcommands {
    /// Shows the current remote repository.
    Show,
    /// Sets the remote repository to the passed link; only a reset allows
    /// doing so a second time.
    Add(Add),
}

/// Manages the remote repository link.
#[derive(Debug)]
pub struct Remote {
    pub subcommands: Subcommands,
}

impl Remote {
    /// Dispatches the subcommand: Show reads the marker; Set validates
    /// the request and hands back the plan to run.
    pub fn execute(self, storage: &Storage, online: bool) -> (r: Result<
        RemoteAction,
        CommandError,
    >)
        ensures
            match self.subcommands {
                Subcommands::Show => {
                    &&& r is Ok <==> storage.remote is Some
                    &&& r matches Ok(action) ==> (action matches RemoteAction::Show(link)
                        && storage.remote matches Some(l) && l@ == link@)
                    &&& r matches Err(e) ==> (e matches CommandError::Usage(m) && m@
                        == Error::NotSetted.spec_message())
                },
                Subcommands::Add(add) => {
                    &&& r is Ok <==> remote_set_accepted(*storage, add.link@, online)
                    &&& r matches Ok(action) ==> (action matches RemoteAction::RunPlan(plan) && {
                        &&& plan.run_remote_add
                        &&& plan.run_pull
                        &&& !plan.run_init
                        &&& !plan.run_commit
                        &&& !plan.run_remote_remove
                        &&& plan.remote_link@ == add.link@
                        &&& plan.git_storage_folder_path@ == storage.folder_path@ + "/dotfiles"@
                    })
                    &&& r matches Err(e) ==> (e matches CommandError::Usage(m) && m@
                        == remote_set_rejection(*storage, add.link@, online))
                },
            },
    {
        match self.subcommands {
            Subcommands::Show => match show_remote_link(storage) {
                Ok(link) => Ok(RemoteAction::Show(link)),
                Err(e) => Err(e),
            },
            Subcommands::Add(add) => match add_remote_link(storage, &add.link, online) {
                Ok(plan) => Ok(RemoteAction::RunPlan(plan)),
                Err(e) => Err(e),
            },
        }
    }
}

/// Setting the remote is idempotent-rejecting: once a marker is present —
/// as after a successful set — any further set request is rejected as
/// already configured, whatever link it carries; only a reset removes the
/// marker.
pub proof fn lemma_remote_set_rejects_second_set(storage: Storage, link: Seq<char>)
    requires
        storage.remote is Some,
    ensures
        !remote_set_accepted(storage, link, true),
        remote_set_rejection(storage, link, true) == Error::AlreadyAdded.spec_message(),
{
}

} // verus!

use vstd::prelude::*;

use crate::error::CommandError;
use crate::error::ExecutionError;
use crate::git::GitCommandExecuter;
use crate::git::GitCommandExecuterBuilder;
use crate::git::GitOperation;

verus! {

/// Usage error of the startup check.
#[derive(Debug)]
pub enum Error {
    /// The external version-control tool is not installed.
    NeedGit,
}

impl Error {
    /// The message shown to the user.
    pub open spec fn spec_message(self) -> Seq<char> {
        match self {
            Error::NeedGit => "You need to have git installed to use DFM"@,
        }
    }

    pub fn message(&self) -> (r: String)
        ensures
            r@ == self.spec_message(),
    {
        match self {
            Error::NeedGit => "You need to have git installed to use DFM".to_owned(),
        }
    }

    /// This usage error as a command verdict.
    pub fn to_command_error(&self) -> (r: CommandError)
        ensures
            r matches CommandError::Usage(m) && m@ == self.spec_message(),
    {
        CommandError::Usage(self.message())
    }
}

/// The plan of first-run initialization: initialize the repository in the
/// given storage folder, and nothing else.
pub fn execute_git_commands(git_storage_folder_path: String) -> (r: GitCommandExecuter)
    ensures
        r.plan() == seq![GitOperation::Init],
        r.git_storage_folder_path == git_storage_folder_path,
        r.run_init,
        !r.run_remote_add,
        !r.run_remote_remove,
        !r.run_pull,
        !r.run_commit,
{
    let e = GitCommandExecuterBuilder::new(git_storage_folder_path).run_init().build();
    proof {
        assert(e.plan() =~= seq![GitOperation::Init]);
    }
    e
}

/// Classifies the probe of the external version-control tool: invoking
/// the bare tool exits with status code one when it is installed. No code
/// at all means the probe was killed by a signal; any other code means
/// the tool is not usable.
pub fn check_git_status_code(code: Option<i32>) -> (r: Result<(), CommandError>)
    ensures
        r is Ok <==> code == Some(1i32),
        code is None ==> r matches Err(CommandError::Execution(ExecutionError::Unknown { .. })),
        (code matches Some(c) && c != 1) ==> (r matches Err(CommandError::Usage(m)) && m@
            == Error::NeedGit.spec_message()),
{
    match code {
        None => Err(
            CommandError::Execution(
                ExecutionError::Unknown {
                    err: "process terminated by signal".to_owned(),
                    trying_to: "get git status code".to_owned(),
                },
            ),
        ),
        Some(c) => {
            if c != 1 {
                Err(Error::NeedGit.to_command_error())
            } else {
                Ok(())
            }
        },
    }
}

} // verus!

use vstd::prelude::*;

use crate::error::ExecutionError;

verus! {

/// One kind of version-control subprocess invocation. The executor only
/// decides which operations run, in what order, and how a failure is
/// reported; launching the subprocess itself is the caller's job.
#[derive(Clone, Copy, Debug, PartialEq, Eq, Structural)]
pub enum GitOperation {
    /// `git init`
    Init,
    /// `git remote add origin <link>`, with the executor's remote link
    RemoteAdd,
    /// `git remote remove origin`
    RemoteRemove,
    /// `git pull origin main`
    Pull,
    /// `git add .`
    AddAll,
    /// `git commit -m <message>`, with the executor's commit message
    Commit,
    /// `git push origin main`
    Push,
}

/// What became of one attempted operation: the subprocess ran to an exit
/// status, or it could not even be launched.
#[derive(Debug)]
pub enum GitOpOutcome {
    Completed { success: bool },
    LaunchFailed { err: String },
}

/// The operation was launched and exited successfully.
pub open spec fn outcome_ok(o: GitOpOutcome) -> bool {
    o matches GitOpOutcome::Completed { success } && success
}

/// The launch-failure tag of each operation.
pub open spec fn launch_name(op: GitOperation) -> Seq<char> {
    match op {
        GitOperation::Init => "init"@,
        GitOperation::RemoteAdd => "remote add"@,
        GitOperation::RemoteRemove => "remote remove"@,
        GitOperation::Pull => "git pull"@,
        GitOperation::AddAll => "add"@,
        GitOperation::Commit => "commit"@,
        GitOperation::Push => "push"@,
    }
}

/// The rejected-operation tag of each operation.
pub open spec fn no_success_name(op: GitOperation) -> Seq<char> {
    match op {
        GitOperation::Init => "git init"@,
        GitOperation::RemoteAdd => "git remote add"@,
        GitOperation::RemoteRemove => "git remote remove"@,
        GitOperation::Pull => "git pull"@,
        GitOperation::AddAll => "git add"@,
        GitOperation::Commit => "git commit"@,
        GitOperation::Push => "git push"@,
    }
}

/// Whether `e` is the error reported for operation `op` ending in outcome
/// `oc`: a failed exit status becomes `NoSuccess` carrying the
/// operation's name, so the caller can tell "the tool rejected it" from
/// "the tool could not be run", which becomes `GitCommand` carrying the
/// operation's name and the launch failure text.
pub open spec fn reported_error(op: GitOperation, oc: GitOpOutcome, e: ExecutionError) -> bool {
    match oc {
        GitOpOutcome::Completed { success } => {
            &&& !success
            &&& e matches ExecutionError::NoSuccess(name) && name@ == no_success_name(op)
        },
        GitOpOutcome::LaunchFailed { err } => {
            e matches ExecutionError::GitCommand { command, err: detail } && command@
                == launch_name(op) && detail@ == err@
        },
    }
}

fn launch_label(op: GitOperation) -> (r: &'static str)
    ensures
        r@ == launch_name(op),
{
    match op {
        GitOperation::Init => "init",
        GitOperation::RemoteAdd => "remote add",
        GitOperation::RemoteRemove => "remote remove",
        GitOperation::Pull => "git pull",
        GitOperation::AddAll => "add",
        GitOperation::Commit => "commit",
        GitOperation::Push => "push",
    }
}

fn no_success_label(op: GitOperation) -> (r: &'static str)
    ensures
        r@ == no_success_name(op),
{
    match op {
        GitOperation::Init => "git init",
        GitOperation::RemoteAdd => "git remote add",
        GitOperation::RemoteRemove => "git remote remove",
        GitOperation::Pull => "git pull",
        GitOperation::AddAll => "git add",
        GitOperation::Commit => "git commit",
        GitOperation::Push => "git push",
    }
}

/// The error reported for an operation that did not succeed.
fn error_for(op: GitOperation, outcome: &GitOpOutcome) -> (e: ExecutionError)
    requires
        !outcome_ok(*outcome),
    ensures
        reported_error(op, *outcome, e),
{
    match outcome {
        GitOpOutcome::Completed { success } => {
            if *success {
                unreached()
            } else {
                ExecutionError::NoSuccess(no_success_label(op).to_owned())
            }
        },
        GitOpOutcome::LaunchFailed { err } => ExecutionError::GitCommand {
            command: launch_label(op).to_owned(),
            err: err.clone(),
        },
    }
}

fn outcome_is_ok(o: &GitOpOutcome) -> (r: bool)
    ensures
        r == outcome_ok(*o),
{
    match o {
        GitOpOutcome::Completed { success } => *success,
        GitOpOutcome::LaunchFailed { .. } => false,
    }
}

/// A frozen plan: which of the operation kinds are requested, with their
/// parameters and the mirror root the subprocesses must run in.
#[derive(Debug)]
pub struct GitCommandExecuter {
    pub git_storage_folder_path: String,
    pub commit_message: String,
    pub remote_link: String,
    pub run_init: bool,
    pub run_remote_add: bool,
    pub run_remote_remove: bool,
    pub run_pull: bool,
    pub run_commit: bool,
}

impl GitCommandExecuter {
    /// The ordered operation sequence of this plan: initialize first; a
    /// compensating remote-remove runs alone after it and ends the plan;
    /// otherwise add-remote, then pull — also forced by a requested
    /// commit, so local commits build on the latest remote state — then
    /// the stage-commit-push unit.
    pub open spec fn plan(self) -> Seq<GitOperation> {
        let init_ops: Seq<GitOperation> = if self.run_init {
            seq![GitOperation::Init]
        } else {
            Seq::empty()
        };
        if self.run_remote_remove {
            init_ops + seq![GitOperation::RemoteRemove]
        } else {
            let remote_ops: Seq<GitOperation> = if self.run_remote_add {
                seq![GitOperation::RemoteAdd]
            } else {
                Seq::empty()
            };
            let pull_ops: Seq<GitOperation> = if self.run_pull || self.run_commit {
                seq![GitOperation::Pull]
            } else {
                Seq::empty()
            };
            let commit_ops: Seq<GitOperation> = if self.run_commit {
                seq![GitOperation::AddAll, GitOperation::Commit, GitOperation::Push]
            } else {
                Seq::empty()
            };
            init_ops + remote_ops + pull_ops + commit_ops
        }
    }

    /// The plan's operations in execution order, for the caller to
    /// attempt one by one, stopping at the first that does not succeed.
    pub fn operations(&self) -> (ops: Vec<GitOperation>)
        ensures
            ops@ == self.plan(),
    {
        let mut ops: Vec<GitOperation> = Vec::new();
        if self.run_init {
            ops.push(GitOperation::Init);
        }
        if self.run_remote_remove {
            ops.push(GitOperation::RemoteRemove);
            proof {
                assert(ops@ =~= self.plan());
            }
            return ops;
        }
        if self.run_remote_add {
            ops.push(GitOperation::RemoteAdd);
        }
        if self.run_pull || self.run_commit {
            ops.push(GitOperation::Pull);
        }
        if self.run_commit {
            ops.push(GitOperation::AddAll);
            ops.push(GitOperation::Commit);
            ops.push(GitOperation::Push);
        }
        proof {
            assert(ops@ =~= self.plan());
        }
        ops
    }

    /// Folds the outcomes gathered by the caller — one per attempted
    /// operation, in plan order — into the plan's verdict. The caller
    /// attempts the operations in order and stops at the first that does
    /// not succeed, so the outcomes cover the plan or end at a failure;
    /// the verdict is success exactly when every operation of the plan
    /// succeeded, and otherwise reports the operation that stopped the
    /// plan.
    pub fn run(&self, outcomes: &Vec<GitOpOutcome>) -> (r: Result<(), ExecutionError>)
        requires
            outcomes@.len() <= self.plan().len(),
            forall|i: int| 0 <= i < outcomes@.len() - 1 ==> outcome_ok(outcomes@[i]),
            outcomes@.len() < self.plan().len() ==> outcomes@.len() >= 1 && !outcome_ok(
                outcomes@.last(),
            ),
        ensures
            r is Ok <==> (outcomes@.len() == self.plan().len() && forall|i: int|
                0 <= i < outcomes@.len() ==> outcome_ok(outcomes@[i])),
            r matches Err(e) ==> reported_error(
                self.plan()[outcomes@.len() - 1],
                outcomes@.last(),
                e,
            ),
    {
        let ops = self.operations();
        let n = outcomes.len();
        if n == ops.len() {
            if n == 0 {
                return Ok(());
            }
            let last = &outcomes[n - 1];
            if outcome_is_ok(last) {
                Ok(())
            } else {
                Err(error_for(ops[n - 1], last))
            }
        } else {
            Err(error_for(ops[n - 1], &outcomes[n - 1]))
        }
    }
}

/// Accumulates which operations one command wants, then freezes them into
/// an immutable plan.
#[derive(Debug)]
pub struct GitCommandExecuterBuilder {
    pub git_storage_folder_path: String,
    pub commit_message: String,
    pub remote_link: String,
    pub run_init: bool,
    pub run_remote_add: bool,
    pub run_remote_remove: bool,
    pub run_pull: bool,
    pub run_commit: bool,
}

impl GitCommandExecuterBuilder {
    /// A builder with nothing requested, for the given mirror root.
    pub fn new(git_storage_folder_path: String) -> (r: Self)
        ensures
            r.git_storage_folder_path == git_storage_folder_path,
            r.commit_message@ == Seq::<char>::empty(),
            r.remote_link@ == Seq::<char>::empty(),
            !r.run_init,
            !r.run_remote_add,
            !r.run_remote_remove,
            !r.run_pull,
            !r.run_commit,
    {
        GitCommandExecuterBuilder {
            git_storage_folder_path,
            run_init: false,
            commit_message: String::new(),
            remote_link: String::new(),
            run_commit: false,
            run_remote_add: false,
            run_pull: false,
            run_remote_remove: false,
        }
    }

    /// Requests repository initialization.
    pub fn run_init(self) -> (r: Self)
        ensures
            r == (GitCommandExecuterBuilder { run_init: true, ..self }),
    {
        GitCommandExecuterBuilder { run_init: true, ..self }
    }

    /// Requests the stage-commit-push unit with this commit message.
    pub fn run_commit(self, commit_message: String) -> (r: Self)
        ensures
            r == (GitCommandExecuterBuilder { run_commit: true, commit_message, ..self }),
    {
        GitCommandExecuterBuilder { run_commit: true, commit_message, ..self }
    }

    /// Requests a pull from the remote.
    pub fn run_pull(self) -> (r: Self)
        ensures
            r == (GitCommandExecuterBuilder { run_pull: true, ..self }),
    {
        GitCommandExecuterBuilder { run_pull: true, ..self }
    }

    /// Requests the compensating removal of the registered remote.
    pub fn run_remote_remove(self) -> (r: Self)
        ensures
            r == (GitCommandExecuterBuilder { run_remote_remove: true, ..self }),
    {
        GitCommandExecuterBuilder { run_remote_remove: true, ..self }
    }

    /// Requests registration of this link as the single remote endpoint.
    pub fn run_remote_add(self, link: String) -> (r: Self)
        ensures
            r == (GitCommandExecuterBuilder { run_remote_add: true, remote_link: link, ..self }),
    {
        GitCommandExecuterBuilder { run_remote_add: true, remote_link: link, ..self }
    }

    /// Freezes the requested operations into an immutable plan.
    pub fn build(self) -> (r: GitCommandExecuter)
        ensures
            r.git_storage_folder_path == self.git_storage_folder_path,
            r.commit_message == self.commit_message,
            r.remote_link == self.remote_link,
            r.run_init == self.run_init,
            r.run_remote_add == self.run_remote_add,
            r.run_remote_remove == self.run_remote_remove,
            r.run_pull == self.run_pull,
            r.run_commit == self.run_commit,
    {
        GitCommandExecuter {
            git_storage_folder_path: self.git_storage_folder_path,
            run_init: self.run_init,
            commit_message: self.commit_message,
            remote_link: self.remote_link,
            run_commit: self.run_commit,
            run_remote_add: self.run_remote_add,
            run_pull: self.run_pull,
            run_remote_remove: self.run_remote_remove,
        }
    }
}

/// A plan that requests the commit unit pulls first: the plan ends with
/// pull, stage, commit, push in that order, and none of stage, commit or
/// push stands anywhere earlier — whether or not a pull was requested
/// explicitly.
pub proof fn lemma_commit_plan_pulls_first(e: GitCommandExecuter)
    requires
        e.run_commit,
        !e.run_remote_remove,
    ensures
        e.plan().len() >= 4,
        e.plan()[e.plan().len() - 4] == GitOperation::Pull,
        e.plan()[e.plan().len() - 3] == GitOperation::AddAll,
        e.plan()[e.plan().len() - 2] == GitOperation::Commit,
        e.plan()[e.plan().len() - 1] == GitOperation::Push,
        forall|j: int|
            0 <= j < e.plan().len() - 3 ==> e.plan()[j] != GitOperation::AddAll && e.plan()[j]
                != GitOperation::Commit && e.plan()[j] != GitOperation::Push,
{
}

/// A plan that does not request the commit unit never stages, commits or
/// pushes, whatever else it requests — in particular, a plan requesting
/// only a pull.
pub proof fn lemma_no_commit_without_request(e: GitCommandExecuter)
    requires
        !e.run_commit,
    ensures
        forall|j: int|
            0 <= j < e.plan().len() ==> e.plan()[j] != GitOperation::AddAll && e.plan()[j]
                != GitOperation::Commit && e.plan()[j] != GitOperation::Push,
{
}

} // verus!

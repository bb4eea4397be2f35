use dfmn::error::ExecutionError;
use dfmn::git::{GitCommandExecuter, GitCommandExecuterBuilder, GitOpOutcome, GitOperation};
use dfmn::setup::execute_git_commands;

fn ok() -> GitOpOutcome {
    GitOpOutcome::Completed { success: true }
}

fn failed() -> GitOpOutcome {
    GitOpOutcome::Completed { success: false }
}

fn commit_plan(message: &str) -> GitCommandExecuter {
    GitCommandExecuterBuilder::new("/tmp/storage".to_string())
        .run_commit(message.to_string())
        .build()
}

#[test]
fn commit_plan_pulls_before_stage_commit_push() {
    let plan = commit_plan("Add a.txt");
    assert_eq!(
        plan.operations(),
        vec![
            GitOperation::Pull,
            GitOperation::AddAll,
            GitOperation::Commit,
            GitOperation::Push
        ]
    );
    assert_eq!(plan.commit_message, "Add a.txt");
}

#[test]
fn pull_only_plan_never_commits() {
    let plan = GitCommandExecuterBuilder::new("/tmp/storage".to_string())
        .run_pull()
        .build();
    assert_eq!(plan.operations(), vec![GitOperation::Pull]);
}

#[test]
fn init_plan_is_init_alone() {
    let plan = execute_git_commands("/tmp/storage".to_string());
    assert_eq!(plan.operations(), vec![GitOperation::Init]);
    assert_eq!(plan.git_storage_folder_path, "/tmp/storage");
}

#[test]
fn remote_add_plan_registers_then_pulls() {
    let plan = GitCommandExecuterBuilder::new("/tmp/storage".to_string())
        .run_remote_add("git@github.com:user/repo.git".to_string())
        .run_pull()
        .build();
    assert_eq!(
        plan.operations(),
        vec![GitOperation::RemoteAdd, GitOperation::Pull]
    );
    assert_eq!(plan.remote_link, "git@github.com:user/repo.git");
}

#[test]
fn remote_remove_plan_ends_after_the_removal() {
    let plan = GitCommandExecuterBuilder::new("/tmp/storage".to_string())
        .run_remote_remove()
        .run_commit("never staged".to_string())
        .build();
    assert_eq!(plan.operations(), vec![GitOperation::RemoteRemove]);
}

#[test]
fn init_combines_with_commit_unit() {
    let plan = GitCommandExecuterBuilder::new("/tmp/storage".to_string())
        .run_init()
        .run_commit("first".to_string())
        .build();
    assert_eq!(
        plan.operations(),
        vec![
            GitOperation::Init,
            GitOperation::Pull,
            GitOperation::AddAll,
            GitOperation::Commit,
            GitOperation::Push
        ]
    );
}

#[test]
fn run_reports_success_when_every_operation_succeeded() {
    let plan = commit_plan("Add a.txt");
    let outcomes = vec![ok(), ok(), ok(), ok()];
    assert!(plan.run(&outcomes).is_ok());
}

#[test]
fn run_reports_the_rejected_operation() {
    let plan = commit_plan("Add a.txt");
    let outcomes = vec![ok(), failed()];
    match plan.run(&outcomes) {
        Err(ExecutionError::NoSuccess(name)) => assert_eq!(name, "git add"),
        _ => panic!("expected the stage operation to be reported as rejected"),
    }
}

#[test]
fn run_reports_a_rejected_last_operation() {
    let plan = commit_plan("Add a.txt");
    let outcomes = vec![ok(), ok(), ok(), failed()];
    match plan.run(&outcomes) {
        Err(ExecutionError::NoSuccess(name)) => assert_eq!(name, "git push"),
        _ => panic!("expected the push operation to be reported as rejected"),
    }
}

#[test]
fn run_reports_a_launch_failure_with_its_text() {
    let plan = execute_git_commands("/tmp/storage".to_string());
    let outcomes = vec![GitOpOutcome::LaunchFailed {
        err: "binary not found".to_string(),
    }];
    match plan.run(&outcomes) {
        Err(ExecutionError::GitCommand { command, err }) => {
            assert_eq!(command, "init");
            assert_eq!(err, "binary not found");
        }
        _ => panic!("expected a launch failure to be reported"),
    }
}

#[test]
fn run_of_an_empty_plan_is_success() {
    let plan = GitCommandExecuterBuilder::new("/tmp/storage".to_string()).build();
    assert_eq!(plan.operations(), vec![]);
    assert!(plan.run(&vec![]).is_ok());
}

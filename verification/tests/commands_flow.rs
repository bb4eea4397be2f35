use dfmn::commands::clone;
use dfmn::commands::remote::{
    add_remote_link, classify_remote_add_failure, confirm_remote_add, remote_add_rollback,
    show_remote_link, write_remote, Remote, RemoteAction, Subcommands,
};
use dfmn::commands::{Add, List, Push, Remove, Reset, Sync, Update};
use dfmn::error::{CommandError, ExecutionError};
use dfmn::git::GitOperation;
use dfmn::setup::check_git_status_code;
use dfmn::store::{check_if_file_exists, read_file, FileRecord, Folder, Storage};
use dfmn::utils::check_if_remote_link_is_added;

fn folder(files: Vec<(&str, Vec<u8>)>, subdirs: Vec<&str>) -> Folder {
    Folder {
        files: files
            .into_iter()
            .map(|(name, data)| FileRecord {
                name: name.to_string(),
                data,
            })
            .collect(),
        subdirs: subdirs.into_iter().map(|s| s.to_string()).collect(),
    }
}

fn storage(remote: Option<&str>, files: Vec<(&str, Vec<u8>)>) -> Storage {
    Storage {
        folder_path: "/home/user/.config/DFM".to_string(),
        remote: remote.map(|s| s.to_string()),
        dotfiles: folder(files, vec![]),
    }
}

fn usage_message(err: CommandError) -> String {
    match err {
        CommandError::Usage(m) => m,
        CommandError::Execution(_) => panic!("expected a usage error"),
    }
}

#[test]
fn add_tracks_the_file_and_plans_a_commit() {
    let mut s = storage(Some("git@github.com:user/repo.git"), vec![]);
    let cwd = folder(vec![("a.txt", vec![1, 2, 3])], vec![]);
    let cmd = Add {
        name: "a.txt".to_string(),
    };
    let (plan, message) = cmd.execute(&mut s, &cwd).unwrap();
    assert!(check_if_file_exists(&s.dotfiles, &"a.txt".to_string()));
    assert_eq!(
        read_file(&s.dotfiles, &"a.txt".to_string()),
        Some(&vec![1, 2, 3])
    );
    assert_eq!(plan.commit_message, "Add a.txt");
    assert_eq!(
        plan.operations(),
        vec![
            GitOperation::Pull,
            GitOperation::AddAll,
            GitOperation::Commit,
            GitOperation::Push
        ]
    );
    assert_eq!(plan.git_storage_folder_path, "/home/user/.config/DFM/dotfiles");
    assert_eq!(
        message,
        "Successfully added the file and synchronized the local repository with the remote repository"
    );
}

#[test]
fn add_without_a_remote_is_a_usage_error_and_copies_nothing() {
    let mut s = storage(None, vec![]);
    let cwd = folder(vec![("x", vec![5])], vec![]);
    let cmd = Add {
        name: "x".to_string(),
    };
    let err = cmd.execute(&mut s, &cwd).unwrap_err();
    assert_eq!(
        usage_message(err),
        "You need to set a remote repository before use DFM"
    );
    assert!(!check_if_file_exists(&s.dotfiles, &"x".to_string()));
    assert_eq!(read_file(&cwd, &"x".to_string()), Some(&vec![5]));
}

#[test]
fn add_of_a_missing_file_is_rejected() {
    let mut s = storage(Some("git@github.com:user/repo.git"), vec![]);
    let cwd = folder(vec![], vec![]);
    let cmd = Add {
        name: "a.txt".to_string(),
    };
    let err = cmd.execute(&mut s, &cwd).unwrap_err();
    assert_eq!(
        usage_message(err),
        "File does not exist in your current directory"
    );
}

#[test]
fn add_of_a_directory_is_rejected() {
    let mut s = storage(Some("git@github.com:user/repo.git"), vec![]);
    let cwd = folder(vec![], vec!["a.txt"]);
    let cmd = Add {
        name: "a.txt".to_string(),
    };
    let err = cmd.execute(&mut s, &cwd).unwrap_err();
    assert_eq!(usage_message(err), "You can just add files to the repository");
}

#[test]
fn add_of_a_tracked_file_is_rejected() {
    let mut s = storage(Some("git@github.com:user/repo.git"), vec![("a.txt", vec![1])]);
    let cwd = folder(vec![("a.txt", vec![2])], vec![]);
    let cmd = Add {
        name: "a.txt".to_string(),
    };
    let err = cmd.execute(&mut s, &cwd).unwrap_err();
    assert_eq!(
        usage_message(err),
        "File already added to the remote repository"
    );
    assert_eq!(read_file(&s.dotfiles, &"a.txt".to_string()), Some(&vec![1]));
}

#[test]
fn listing_after_add_and_after_remove() {
    let mut s = storage(Some("git@github.com:user/repo.git"), vec![]);
    let cwd = folder(vec![("a.txt", vec![1])], vec![]);
    Add {
        name: "a.txt".to_string(),
    }
    .execute(&mut s, &cwd)
    .unwrap();

    let pull_plan = List.execute(&s).unwrap();
    assert_eq!(pull_plan.operations(), vec![GitOperation::Pull]);
    let (lines, message) = List::report(&s.dotfiles).unwrap();
    assert_eq!(lines, vec!["1. a.txt".to_string()]);
    assert_eq!(message, "Finished listing your files");

    Remove {
        name: "a.txt".to_string(),
    }
    .execute(&mut s, true)
    .unwrap();
    let err = List::report(&s.dotfiles).unwrap_err();
    assert_eq!(usage_message(err), "Your remote repository is empty");
}

#[test]
fn listing_skips_subdirectories_and_numbers_past_ten() {
    let mut names: Vec<(String, Vec<u8>)> = Vec::new();
    for i in 0..11u8 {
        names.push((format!("f{i}"), vec![i]));
    }
    let f = Folder {
        files: names
            .into_iter()
            .map(|(name, data)| FileRecord { name, data })
            .collect(),
        subdirs: vec!["sub".to_string()],
    };
    let (lines, _) = List::report(&f).unwrap();
    assert_eq!(lines.len(), 11);
    assert_eq!(lines[0], "1. f0");
    assert_eq!(lines[10], "11. f10");
    assert!(!lines.iter().any(|l| l.contains("sub")));
}

#[test]
fn list_without_a_remote_is_rejected() {
    let s = storage(None, vec![("a.txt", vec![1])]);
    let err = List.execute(&s).unwrap_err();
    assert_eq!(
        usage_message(err),
        "You need to set a remote repository before use DFM"
    );
}

#[test]
fn remove_then_add_restores_tracking() {
    let mut s = storage(Some("git@github.com:user/repo.git"), vec![("a.txt", vec![1])]);
    let cwd = folder(vec![("a.txt", vec![9])], vec![]);

    let (plan, message) = Remove {
        name: "a.txt".to_string(),
    }
    .execute(&mut s, true)
    .unwrap();
    assert!(!check_if_file_exists(&s.dotfiles, &"a.txt".to_string()));
    assert_eq!(plan.commit_message, "Remove a.txt");
    assert_eq!(
        message,
        "Successfully removed the file and synchronized the local repository with the remote repository"
    );

    Add {
        name: "a.txt".to_string(),
    }
    .execute(&mut s, &cwd)
    .unwrap();
    assert!(check_if_file_exists(&s.dotfiles, &"a.txt".to_string()));
    assert_eq!(read_file(&s.dotfiles, &"a.txt".to_string()), Some(&vec![9]));
}

#[test]
fn remove_offline_is_rejected_first() {
    let mut s = storage(Some("git@github.com:user/repo.git"), vec![("a.txt", vec![1])]);
    let err = Remove {
        name: "a.txt".to_string(),
    }
    .execute(&mut s, false)
    .unwrap_err();
    assert_eq!(usage_message(err), "No internet connection");
    assert!(check_if_file_exists(&s.dotfiles, &"a.txt".to_string()));
}

#[test]
fn remove_of_an_untracked_file_is_rejected() {
    let mut s = storage(Some("git@github.com:user/repo.git"), vec![]);
    let err = Remove {
        name: "a.txt".to_string(),
    }
    .execute(&mut s, true)
    .unwrap_err();
    assert_eq!(usage_message(err), "File does not exist in the repository");
}

#[test]
fn update_of_an_identical_file_is_nothing_to_update() {
    let mut s = storage(Some("git@github.com:user/repo.git"), vec![("a.txt", vec![1, 2])]);
    let cwd = folder(vec![("a.txt", vec![1, 2])], vec![]);
    let err = Update {
        name: "a.txt".to_string(),
    }
    .execute(&mut s, &cwd)
    .unwrap_err();
    assert_eq!(usage_message(err), "Nothing to update");
    assert_eq!(read_file(&s.dotfiles, &"a.txt".to_string()), Some(&vec![1, 2]));
}

#[test]
fn update_of_a_changed_file_copies_and_plans_one_commit() {
    let mut s = storage(Some("git@github.com:user/repo.git"), vec![("a.txt", vec![1, 2])]);
    let cwd = folder(vec![("a.txt", vec![3, 4, 5])], vec![]);
    let (plan, message) = Update {
        name: "a.txt".to_string(),
    }
    .execute(&mut s, &cwd)
    .unwrap();
    assert_eq!(
        read_file(&s.dotfiles, &"a.txt".to_string()),
        Some(&vec![3, 4, 5])
    );
    assert_eq!(plan.commit_message, "Update a.txt");
    assert_eq!(
        plan.operations(),
        vec![
            GitOperation::Pull,
            GitOperation::AddAll,
            GitOperation::Commit,
            GitOperation::Push
        ]
    );
    assert_eq!(
        message,
        "Successfully updated the file and synchronized the local repository with the remote repository"
    );
}

#[test]
fn update_of_an_untracked_file_is_rejected() {
    let mut s = storage(Some("git@github.com:user/repo.git"), vec![]);
    let cwd = folder(vec![("a.txt", vec![1])], vec![]);
    let err = Update {
        name: "a.txt".to_string(),
    }
    .execute(&mut s, &cwd)
    .unwrap_err();
    assert_eq!(usage_message(err), "File not added");
}

#[test]
fn update_of_a_file_missing_from_the_working_directory_is_rejected() {
    let mut s = storage(Some("git@github.com:user/repo.git"), vec![("a.txt", vec![1])]);
    let cwd = folder(vec![], vec![]);
    let err = Update {
        name: "a.txt".to_string(),
    }
    .execute(&mut s, &cwd)
    .unwrap_err();
    assert_eq!(usage_message(err), "File does not exist in the current folder");
}

#[test]
fn clone_copies_a_tracked_file_into_the_working_directory() {
    let s = storage(Some("git@github.com:user/repo.git"), vec![("a.txt", vec![1, 2])]);
    let mut cwd = folder(vec![], vec![]);
    let message = clone::Clone {
        name: "a.txt".to_string(),
    }
    .execute(&s, &mut cwd)
    .unwrap();
    assert_eq!(read_file(&cwd, &"a.txt".to_string()), Some(&vec![1, 2]));
    assert_eq!(message, "Successfully cloned the file to your current directory");
}

#[test]
fn clone_of_an_untracked_file_is_rejected() {
    let s = storage(Some("git@github.com:user/repo.git"), vec![]);
    let mut cwd = folder(vec![], vec![]);
    let err = clone::Clone {
        name: "a.txt".to_string(),
    }
    .execute(&s, &mut cwd)
    .unwrap_err();
    assert_eq!(usage_message(err), "File does not exist in the repository");
}

#[test]
fn setting_the_remote_twice_is_rejected_and_keeps_the_marker() {
    let mut s = storage(None, vec![]);
    let first = "git@github.com:user/repo.git".to_string();
    let second = "git@gitlab.com:user/other.git".to_string();

    let plan = add_remote_link(&s, &first, true).unwrap();
    assert_eq!(
        plan.operations(),
        vec![GitOperation::RemoteAdd, GitOperation::Pull]
    );
    assert_eq!(plan.remote_link, first);
    let message = confirm_remote_add(&mut s, &first).unwrap();
    assert_eq!(
        message,
        "Successfully setted the remote repository and synchronized the local repository with the remote repository"
    );

    let err = add_remote_link(&s, &second, true).unwrap_err();
    assert_eq!(
        usage_message(err),
        "Remote repository already added if you want to change that you need to reset your dfmn"
    );
    assert_eq!(s.remote, Some(first.clone()));

    let err = write_remote(&mut s, &second).unwrap_err();
    assert_eq!(
        usage_message(err),
        "Remote repository already added if you want to change that you need to reset your dfmn"
    );
    assert_eq!(s.remote, Some(first));
}

#[test]
fn a_non_ssh_link_fails_validation_before_any_plan() {
    let s = storage(None, vec![]);
    let err = add_remote_link(&s, &"https://example.com/repo.git".to_string(), true).unwrap_err();
    assert_eq!(usage_message(err), "Not a ssh link");
    assert_eq!(s.remote, None);
}

#[test]
fn ssh_links_of_both_known_hosts_pass_validation() {
    let s = storage(None, vec![]);
    assert!(add_remote_link(&s, &"git@github.com:user/repo.git".to_string(), true).is_ok());
    assert!(add_remote_link(&s, &"git@gitlab.com:group/project.git".to_string(), true).is_ok());
    let err =
        add_remote_link(&s, &"git@bitbucket.org:user/repo.git".to_string(), true).unwrap_err();
    assert_eq!(usage_message(err), "Not a ssh link");
}

#[test]
fn setting_the_remote_offline_is_rejected() {
    let s = storage(None, vec![]);
    let err =
        add_remote_link(&s, &"git@github.com:user/repo.git".to_string(), false).unwrap_err();
    assert_eq!(usage_message(err), "No internet connection");
}

#[test]
fn remote_show_reports_the_stored_link_or_its_absence() {
    let s = storage(Some("git@github.com:user/repo.git"), vec![]);
    let show = Remote {
        subcommands: Subcommands::Show,
    };
    match show.execute(&s, true) {
        Ok(RemoteAction::Show(link)) => assert_eq!(link, "git@github.com:user/repo.git"),
        _ => panic!("expected the stored link"),
    }
    assert_eq!(
        show_remote_link(&s).unwrap(),
        "git@github.com:user/repo.git"
    );

    let empty = storage(None, vec![]);
    let err = show_remote_link(&empty).unwrap_err();
    assert_eq!(usage_message(err), "Remote repository not setted yet");
}

#[test]
fn failed_remote_add_rolls_back_and_classifies() {
    let s = storage(None, vec![]);
    let rollback = remote_add_rollback(&s);
    assert_eq!(rollback.operations(), vec![GitOperation::RemoteRemove]);
    assert_eq!(
        rollback.git_storage_folder_path,
        "/home/user/.config/DFM/dotfiles"
    );

    match classify_remote_add_failure(ExecutionError::RepositoryNotFound, Ok(())) {
        CommandError::Usage(m) => assert_eq!(m, "Invalid link for the remote repository"),
        _ => panic!("a missing repository is the user's bad link"),
    }
    match classify_remote_add_failure(ExecutionError::NoSuccess("git pull".to_string()), Ok(())) {
        CommandError::Execution(ExecutionError::NoSuccess(name)) => assert_eq!(name, "git pull"),
        _ => panic!("other failures stay execution errors"),
    }
    match classify_remote_add_failure(
        ExecutionError::RepositoryNotFound,
        Err(ExecutionError::NoSuccess("git remote remove".to_string())),
    ) {
        CommandError::Execution(ExecutionError::NoSuccess(name)) => {
            assert_eq!(name, "git remote remove")
        }
        _ => panic!("a failed rollback takes precedence"),
    }
}

#[test]
fn sync_plans_a_pull_when_online_and_configured() {
    let s = storage(Some("git@github.com:user/repo.git"), vec![]);
    let (plan, message) = Sync.execute(&s, true).unwrap();
    assert_eq!(plan.operations(), vec![GitOperation::Pull]);
    assert_eq!(message, "Finished the synchronization with the remote repository");

    let err = Sync.execute(&s, false).unwrap_err();
    assert_eq!(usage_message(err), "No internet connection");

    let empty = storage(None, vec![]);
    let err = Sync.execute(&empty, true).unwrap_err();
    assert_eq!(
        usage_message(err),
        "You need to set a remote repository before use DFM"
    );
}

#[test]
fn reset_returns_to_the_initial_state() {
    let mut s = storage(Some("git@github.com:user/repo.git"), vec![("a.txt", vec![1])]);
    let (plan, message) = Reset.execute(&mut s).unwrap();
    assert_eq!(s.remote, None);
    assert_eq!(s.dotfiles.files.len(), 0);
    assert_eq!(plan.operations(), vec![GitOperation::Init]);
    assert_eq!(message, "Successfully reseted the dfmn to the initial state");

    let err = Reset.execute(&mut s).unwrap_err();
    assert_eq!(
        usage_message(err),
        "This action is unnecessary because you already are in the initial state"
    );
}

#[test]
fn push_plans_a_single_push() {
    let s = storage(Some("git@github.com:user/repo.git"), vec![]);
    let (ops, message) = Push.execute(&s).unwrap();
    assert_eq!(ops, vec![GitOperation::Push]);
    assert_eq!(
        message,
        "Successfully pushed your changes to the remote repository"
    );

    let empty = storage(None, vec![]);
    let err = Push.execute(&empty).unwrap_err();
    assert_eq!(
        err.message(),
        "You do not have setted a remote repository yet"
    );
}

#[test]
fn git_probe_codes_are_classified() {
    assert!(check_git_status_code(Some(1)).is_ok());
    match check_git_status_code(Some(0)) {
        Err(CommandError::Usage(m)) => {
            assert_eq!(m, "You need to have git installed to use DFM")
        }
        _ => panic!("a wrong status code means the tool is missing"),
    }
    match check_git_status_code(None) {
        Err(CommandError::Execution(ExecutionError::Unknown { err, trying_to })) => {
            assert_eq!(err, "process terminated by signal");
            assert_eq!(trying_to, "get git status code");
        }
        _ => panic!("no status code means the probe was killed"),
    }
}

#[test]
fn the_shared_remote_check_matches_the_marker() {
    let s = storage(Some("git@github.com:user/repo.git"), vec![]);
    assert!(check_if_remote_link_is_added(&s).is_ok());
    let empty = storage(None, vec![]);
    let err = check_if_remote_link_is_added(&empty).unwrap_err();
    assert_eq!(
        usage_message(err),
        "You need to set a remote repository before use DFM"
    );
}

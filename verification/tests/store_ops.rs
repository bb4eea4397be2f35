use dfmn::error::ExecutionError;
use dfmn::store::{
    check_if_file_exists, check_if_files_are_equal, copy, has_remote, is_regular_file, read_file,
    remove_file, FileRecord, Folder, Storage,
};
use dfmn::utils::get_git_storage_folder_path;

fn folder(files: Vec<(&str, Vec<u8>)>, subdirs: Vec<&str>) -> Folder {
    Folder {
        files: files
            .into_iter()
            .map(|(name, data)| FileRecord {
                name: name.to_string(),
                data,
            })
            .collect(),
        subdirs: subdirs.into_iter().map(|s| s.to_string()).collect(),
    }
}

#[test]
fn equal_contents_are_recognized() {
    assert!(check_if_files_are_equal(&vec![1, 2, 3], &vec![1, 2, 3]));
    assert!(check_if_files_are_equal(&vec![], &vec![]));
}

#[test]
fn different_lengths_are_unequal() {
    assert!(!check_if_files_are_equal(&vec![1, 2, 3], &vec![1, 2]));
}

#[test]
fn same_length_different_bytes_are_unequal() {
    assert!(!check_if_files_are_equal(&vec![1, 2, 3], &vec![1, 9, 3]));
}

#[test]
fn existence_sees_files_and_subdirectories() {
    let f = folder(vec![("a.txt", vec![1])], vec!["nested"]);
    assert!(check_if_file_exists(&f, &"a.txt".to_string()));
    assert!(check_if_file_exists(&f, &"nested".to_string()));
    assert!(!check_if_file_exists(&f, &"missing".to_string()));
}

#[test]
fn regular_file_check_excludes_subdirectories() {
    let f = folder(vec![("a.txt", vec![1])], vec!["nested"]);
    assert!(is_regular_file(&f, &"a.txt".to_string()));
    assert!(!is_regular_file(&f, &"nested".to_string()));
    assert!(!is_regular_file(&f, &"missing".to_string()));
}

#[test]
fn read_file_returns_the_stored_bytes() {
    let f = folder(vec![("a.txt", vec![7, 8])], vec![]);
    assert_eq!(read_file(&f, &"a.txt".to_string()), Some(&vec![7, 8]));
    assert_eq!(read_file(&f, &"missing".to_string()), None);
}

#[test]
fn copy_tracks_a_new_file() {
    let src = folder(vec![("a.txt", vec![1, 2])], vec![]);
    let mut dst = folder(vec![], vec![]);
    assert!(copy(&src, &mut dst, &"a.txt".to_string()).is_ok());
    assert_eq!(read_file(&dst, &"a.txt".to_string()), Some(&vec![1, 2]));
}

#[test]
fn copy_overwrites_an_existing_file() {
    let src = folder(vec![("a.txt", vec![9])], vec![]);
    let mut dst = folder(vec![("a.txt", vec![1, 2]), ("b.txt", vec![3])], vec![]);
    assert!(copy(&src, &mut dst, &"a.txt".to_string()).is_ok());
    assert_eq!(read_file(&dst, &"a.txt".to_string()), Some(&vec![9]));
    assert_eq!(read_file(&dst, &"b.txt".to_string()), Some(&vec![3]));
}

#[test]
fn copy_of_a_missing_source_fails() {
    let src = folder(vec![], vec![]);
    let mut dst = folder(vec![], vec![]);
    match copy(&src, &mut dst, &"a.txt".to_string()) {
        Err(ExecutionError::CopyFile(_)) => {}
        _ => panic!("expected the copy of a missing file to fail"),
    }
    assert_eq!(dst.files.len(), 0);
}

#[test]
fn copy_onto_a_subdirectory_fails() {
    let src = folder(vec![("a.txt", vec![1])], vec![]);
    let mut dst = folder(vec![], vec!["a.txt"]);
    match copy(&src, &mut dst, &"a.txt".to_string()) {
        Err(ExecutionError::CopyFile(_)) => {}
        _ => panic!("expected the copy onto a subdirectory to fail"),
    }
}

#[test]
fn remove_file_deletes_only_the_named_file() {
    let mut f = folder(vec![("a.txt", vec![1]), ("b.txt", vec![2])], vec![]);
    assert!(remove_file(&mut f, &"a.txt".to_string()).is_ok());
    assert!(!check_if_file_exists(&f, &"a.txt".to_string()));
    assert_eq!(read_file(&f, &"b.txt".to_string()), Some(&vec![2]));
}

#[test]
fn remove_of_a_missing_file_fails() {
    let mut f = folder(vec![], vec!["nested"]);
    match remove_file(&mut f, &"nested".to_string()) {
        Err(ExecutionError::RemoveFile(_)) => {}
        _ => panic!("expected the removal of a subdirectory name to fail"),
    }
    match remove_file(&mut f, &"missing".to_string()) {
        Err(ExecutionError::RemoveFile(_)) => {}
        _ => panic!("expected the removal of a missing file to fail"),
    }
}

#[test]
fn remote_marker_presence() {
    let with = Storage {
        folder_path: "/home/user/.config/DFM".to_string(),
        remote: Some("git@github.com:user/repo.git".to_string()),
        dotfiles: folder(vec![], vec![]),
    };
    let without = Storage {
        folder_path: "/home/user/.config/DFM".to_string(),
        remote: None,
        dotfiles: folder(vec![], vec![]),
    };
    assert!(has_remote(&with));
    assert!(!has_remote(&without));
}

#[test]
fn storage_folder_path_appends_the_dotfiles_folder() {
    assert_eq!(
        get_git_storage_folder_path(&"/home/user/.config/DFM".to_string()),
        "/home/user/.config/DFM/dotfiles"
    );
}

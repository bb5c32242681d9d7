use std::path::PathBuf;

use zenyx::workspace::{data_dir_in, get_data_dir, get_working_dir, working_dir_in, WorkspaceError};

#[test]
fn the_working_dir_is_in_the_data_dir() {
    let dir = working_dir_in(Some(PathBuf::from("base"))).unwrap();
    assert_eq!(dir, PathBuf::from("base").join("Zenyx"));
}

#[test]
fn without_a_data_dir_there_is_no_working_dir() {
    assert!(matches!(working_dir_in(None), Err(WorkspaceError::NoDataDir)));
    assert!(matches!(data_dir_in(Err(WorkspaceError::NoDataDir)), Err(WorkspaceError::NoDataDir)));
}

#[test]
fn the_data_is_kept_in_the_working_dir() {
    let dir = data_dir_in(working_dir_in(Some(PathBuf::from("base")))).unwrap();
    assert_eq!(dir, PathBuf::from("base").join("Zenyx").join("data"));
}

#[test]
fn the_directories_of_this_machine_nest() {
    match (get_working_dir(), get_data_dir()) {
        (Ok(working), Ok(data)) => {
            assert!(working.ends_with("Zenyx"));
            assert_eq!(data, working.join("data"));
        }
        (Err(_), Err(_)) => {}
        other => panic!("unexpected: {:?}", other),
    }
}

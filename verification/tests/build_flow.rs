use python_skeleton::validation::ErrorCase;
use python_skeleton::{prepare_names, BuildError, BuildState, RollbackAction};

#[test]
fn test_prepare_names_normalizes() {
    let (project, package) =
        prepare_names(String::from("my-project"), String::from("my_pkg")).unwrap();
    assert_eq!(project, "My-Project");
    assert_eq!(package, "my_pkg");
}

#[test]
fn test_prepare_names_rejects_bad_project() {
    // The project name is checked as train case, so an underscore fails.
    assert_eq!(
        prepare_names(String::from("my_project"), String::from("my_pkg"))
            .err()
            .unwrap(),
        ErrorCase::SpecialCharNotAllowed
    );
    assert_eq!(
        prepare_names(String::from("01"), String::from("test"))
            .err()
            .unwrap(),
        ErrorCase::NumberNotAllowed
    );
}

#[test]
fn test_prepare_names_rejects_bad_package() {
    assert_eq!(
        prepare_names(String::from("test"), String::from("test$"))
            .err()
            .unwrap(),
        ErrorCase::SpecialCharNotAllowed
    );
}

#[test]
fn test_build_success_path() {
    let mut state = BuildState::Start;
    assert!(!state.is_terminal());
    state = state.step(true);
    assert_eq!(state, BuildState::NamesValidated);
    state = state.step(true);
    assert_eq!(state, BuildState::DirectoriesCreated);
    state = state.step(true);
    assert_eq!(state, BuildState::FilesCreated);
    assert!(state.is_terminal());
    assert_eq!(state.rollback(), RollbackAction::Nothing);
    assert_eq!(state.outcome(), Some(Ok(())));
}

#[test]
fn test_build_name_failure_has_nothing_to_undo() {
    let state = BuildState::Start.step(false);
    assert_eq!(state, BuildState::NameInvalid);
    assert!(state.is_terminal());
    assert_eq!(state.rollback(), RollbackAction::Nothing);
    assert_eq!(state.outcome(), Some(Err(BuildError::NameError)));
}

#[test]
fn test_build_directory_failure_rolls_back_root() {
    let state = BuildState::Start.step(true).step(false);
    assert_eq!(state, BuildState::DirectoryFailed);
    assert!(state.is_terminal());
    assert_eq!(state.rollback(), RollbackAction::RemoveRootDir);
    assert_eq!(state.outcome(), Some(Err(BuildError::IOError)));
}

#[test]
fn test_build_file_failure_rolls_back_tree() {
    let state = BuildState::Start.step(true).step(true).step(false);
    assert_eq!(state, BuildState::FileFailed);
    assert!(state.is_terminal());
    assert_eq!(state.rollback(), RollbackAction::RemoveRootTree);
    assert_eq!(state.outcome(), Some(Err(BuildError::IOError)));
}

use python_skeleton::dir_builder::get_dirs;
use python_skeleton::files_builder::get_files;

#[test]
fn test_dir_plan_without_docs() {
    let dirs = get_dirs("My-Project", false, "my_pkg");
    assert_eq!(
        dirs,
        vec![
            "My-Project".to_string(),
            "My-Project/config".to_string(),
            "My-Project/files".to_string(),
            "My-Project/notebooks".to_string(),
            "My-Project/test".to_string(),
            "My-Project/src".to_string(),
            "My-Project/src/my_pkg".to_string(),
        ]
    );
}

#[test]
fn test_dir_plan_with_docs() {
    let dirs = get_dirs("My-Project", true, "my_pkg");
    assert_eq!(dirs.len(), 8);
    assert_eq!(dirs[7], "My-Project/docs");
    // The docs directory is the only difference.
    assert_eq!(&dirs[..7], &get_dirs("My-Project", false, "my_pkg")[..]);
}

#[test]
fn test_dir_plan_parents_before_children() {
    let dirs = get_dirs("My-Project", true, "my_pkg");
    for (i, dir) in dirs.iter().enumerate() {
        if let Some(pos) = dir.rfind('/') {
            let parent = &dir[..pos];
            let parent_index = dirs.iter().position(|d| d == parent);
            assert!(parent_index.is_some(), "parent of {dir} missing");
            assert!(parent_index.unwrap() < i, "parent of {dir} comes later");
        }
    }
}

#[test]
fn test_file_plan_paths_and_contents() {
    let files = get_files("My-Project", "my_pkg");
    let paths: Vec<&str> = files.iter().map(|(p, _)| p.as_str()).collect();
    assert_eq!(
        paths,
        vec![
            "My-Project/README.md",
            "My-Project/pyproject.toml",
            "My-Project/.gitignore",
            "My-Project/src/my_pkg/__init__.py",
            "My-Project/src/my_pkg/env.py",
            "My-Project/src/my_pkg/db.py",
            "My-Project/test/sample_test.py",
            "My-Project/src/my_pkg/main.py",
            "My-Project/config/DEV.yaml",
        ]
    );
    for (path, content) in files.iter() {
        assert!(!content.is_empty(), "{path} has empty content");
    }
}

#[test]
fn test_file_plan_substitutes_package_name() {
    let files = get_files("My-Project", "my_pkg");
    let (_, pyproject) = &files[1];
    assert!(pyproject.contains("my_pkg"));
    assert!(pyproject.contains("name = \"my_pkg\""));
    // The token is spliced in, not left behind.
    assert!(!pyproject.contains("{}"));
}

#[test]
fn test_plans_are_deterministic() {
    assert_eq!(
        get_dirs("My-Project", true, "my_pkg"),
        get_dirs("My-Project", true, "my_pkg")
    );
    assert_eq!(
        get_files("My-Project", "my_pkg"),
        get_files("My-Project", "my_pkg")
    );
}

#[test]
fn test_plan_build_combines_both_plans() {
    let plan = python_skeleton::plan_build("My-Project", "my_pkg", false);
    assert_eq!(plan.dirs, get_dirs("My-Project", false, "my_pkg"));
    assert_eq!(plan.files, get_files("My-Project", "my_pkg"));
    assert_eq!(plan.dirs.len(), 7);
    assert_eq!(plan.files.len(), 9);
}

use ci_generate::error::Error;
use ci_generate::path::{
    final_component, path_validation, resolve_name, resolve_path, ProjectDir,
};

#[test]
fn test_invalid_path_file() {
    assert!(matches!(
        path_validation("/some/crate/src/lib.rs", true),
        Err(Error::NoDirectory)
    ));
}

#[test]
fn test_current_path() {
    assert!(path_validation(".", false).is_ok());
    assert!(matches!(path_validation(".", false), Ok(ProjectDir::CurrentDir)));
}

#[test]
fn test_valid_path_windows() {
    let valid_path = "C:\\user\\docs\\Letter.txt";
    assert!(path_validation(valid_path, false).is_ok());
}

#[test]
fn test_invalid_utf8_path() {
    let invalid_utf8 = String::from_utf8_lossy(&[0xC3, 0x28]).into_owned();
    assert!(matches!(
        path_validation(&invalid_utf8, false),
        Err(Error::Utf8Check)
    ));
}

#[test]
fn plain_paths_are_kept() {
    match path_validation("/tmp/proj", false) {
        Ok(ProjectDir::Dir(p)) => assert_eq!(p, "/tmp/proj"),
        _ => panic!("expected a directory"),
    }
}

#[test]
fn home_shorthand_is_expanded() {
    match resolve_path("~/work/proj", false, Some("/home/ada".to_string())) {
        Ok(ProjectDir::Dir(p)) => assert_eq!(p, "/home/ada/work/proj"),
        _ => panic!("expected a directory"),
    }
    match resolve_path("~", false, Some("/home/ada".to_string())) {
        Ok(ProjectDir::Dir(p)) => assert_eq!(p, "/home/ada"),
        _ => panic!("expected a directory"),
    }
    assert!(matches!(resolve_path("~/proj", false, None), Err(Error::HomeDir)));
    match resolve_path("~proj", false, None) {
        Ok(ProjectDir::Dir(p)) => assert_eq!(p, "~proj"),
        _ => panic!("expected a directory"),
    }
}

#[test]
fn resolving_twice_changes_nothing() {
    let home = Some("/home/ada".to_string());
    for raw in ["~/proj", "/tmp/x", "rel/dir", "~"] {
        let first = match resolve_path(raw, false, home.clone()) {
            Ok(ProjectDir::Dir(p)) => p,
            _ => panic!("expected a directory"),
        };
        match resolve_path(&first, false, home.clone()) {
            Ok(ProjectDir::Dir(p)) => assert_eq!(p, first),
            _ => panic!("expected the same directory"),
        }
    }
}

#[test]
fn last_component_ignores_trailing_separators() {
    assert_eq!(final_component("/tmp/Desktop/MyProject"), "MyProject");
    assert_eq!(final_component("/tmp/Desktop/MyProject//"), "MyProject");
    assert_eq!(final_component("proj"), "proj");
    assert_eq!(final_component("/"), "");
}

#[test]
fn derived_name_is_last_component() {
    assert_eq!(resolve_name("", "/tmp/Desktop/MyProject").unwrap(), "MyProject");
}

#[test]
fn given_ascii_name_is_kept() {
    for name in ["my-lib", "X", "proj ci"] {
        assert_eq!(resolve_name(name, "/tmp/other").unwrap(), name);
    }
}

#[test]
fn bad_names_are_refused() {
    assert!(matches!(resolve_name("projé", "/tmp/x"), Err(Error::InvalidName)));
    assert!(matches!(resolve_name("", "/"), Err(Error::InvalidName)));
    assert!(matches!(resolve_name("", "/tmp/.."), Err(Error::InvalidName)));
    assert!(matches!(resolve_name("", "/tmp/projé"), Err(Error::InvalidName)));
    assert!(matches!(resolve_name("", "/tmp/a\u{FFFD}b"), Err(Error::Utf8Check)));
}

#[test]
fn test_valid_path_folder() {
    let project_path = format!("{}/src", "/some/crate");
    assert!(path_validation(&project_path, false).is_ok());
}

use suivm::store::{
    current_version, directory_bin, is_store_name, path_build_output, path_build_root, directory_suivm, fetch_installed_versions, path_bin,
    path_staging, path_version, staging_name, StoreEntry,
};

fn file(name: &str) -> StoreEntry {
    StoreEntry { name: Some(name.to_string()), is_file: true }
}

#[test]
fn store_paths() {
    assert_eq!(directory_suivm("/home/ada"), "/home/ada/.suivm");
    assert_eq!(directory_bin("/home/ada/.suivm"), "/home/ada/.suivm/bin");
    assert_eq!(path_version("/home/ada/.suivm"), "/home/ada/.suivm/.version");
    assert_eq!(path_bin("/home/ada/.suivm", "0.2.0"), "/home/ada/.suivm/bin/0.2.0");
    assert_eq!(path_staging("/r", "0.2.0"), "/r/bin/.0.2.0");
}

#[test]
fn staging_name_is_hidden() {
    assert_eq!(staging_name("0.2.0"), ".0.2.0");
    assert!(staging_name("").starts_with('.'));
}

#[test]
fn empty_pointer_file_means_no_current_version() {
    assert_eq!(current_version(String::new()), None);
    assert_eq!(current_version("0.2.0".to_string()), Some("0.2.0".to_string()));
}

#[test]
fn installed_versions_skip_hidden_entries() {
    let entries = vec![file("0.1.0"), file(".0.2.0"), file("0.3.0"), file(".")];
    assert_eq!(fetch_installed_versions(&entries), vec!["0.1.0".to_string(), "0.3.0".to_string()]);
}

#[test]
fn installed_versions_skip_directories_and_non_unicode_names() {
    let entries = vec![
        StoreEntry { name: Some("nested".to_string()), is_file: false },
        StoreEntry { name: None, is_file: true },
        file("devnet"),
    ];
    assert_eq!(fetch_installed_versions(&entries), vec!["devnet".to_string()]);
}

#[test]
fn installed_versions_of_empty_store() {
    assert!(fetch_installed_versions(&Vec::new()).is_empty());
}

#[test]
fn store_names() {
    assert!(is_store_name("0.2.0"));
    assert!(is_store_name("devnet-v1.2.0"));
    assert!(!is_store_name(""));
    assert!(!is_store_name(".0.2.0"));
    assert!(!is_store_name("feature/x"));
    assert!(!is_store_name("a\\b"));
}

#[test]
fn build_paths_are_hidden() {
    assert_eq!(path_build_root("/r"), "/r/.build");
    assert_eq!(path_build_output("/r"), "/r/.build/bin/sui");
}

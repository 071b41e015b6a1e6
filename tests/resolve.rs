use suivm::error::SuivmError;
use suivm::resolve::{
    fetch_latest_version, fetch_versions, handle_alias, resolve_with_commit,
    resolve_with_releases, Resolution,
};

fn strings(items: &[&str]) -> Vec<String> {
    items.iter().map(|s| s.to_string()).collect()
}

#[test]
fn release_index_is_reversed_to_oldest_first() {
    let listed = strings(&["0.3.0", "0.2.0", "0.1.0"]);
    assert_eq!(fetch_versions(listed), strings(&["0.1.0", "0.2.0", "0.3.0"]));
    assert_eq!(fetch_versions(Vec::new()), Vec::<String>::new());
}

#[test]
fn latest_of_three_releases_is_the_newest() {
    let releases = fetch_versions(strings(&["0.3.0", "0.2.0", "0.1.0"]));
    assert_eq!(releases, strings(&["0.1.0", "0.2.0", "0.3.0"]));
    let r = resolve_with_releases(&"latest".to_string(), Ok(releases));
    assert_eq!(r, Ok(Resolution::Resolved("0.3.0".to_string())));
}

#[test]
fn latest_of_single_release() {
    let r = resolve_with_releases(&"latest".to_string(), Ok(strings(&["devnet-0.9"])));
    assert_eq!(r, Ok(Resolution::Resolved("devnet-0.9".to_string())));
}

#[test]
fn latest_of_empty_index_is_not_found() {
    assert_eq!(fetch_latest_version(&Vec::new()), Err(SuivmError::NotFound));
    let r = resolve_with_releases(&"latest".to_string(), Ok(Vec::new()));
    assert_eq!(r, Err(SuivmError::NotFound));
}

#[test]
fn latest_without_index_reports_the_fetch_error() {
    let err = SuivmError::Network("timed out".to_string());
    let r = resolve_with_releases(&"latest".to_string(), Err(err.clone()));
    assert_eq!(r, Err(err));
}

#[test]
fn fetch_latest_version_is_last() {
    let releases = strings(&["a", "b", "c"]);
    assert_eq!(fetch_latest_version(&releases), Ok("c".to_string()));
}

#[test]
fn listed_identifier_resolves_to_itself() {
    let releases = strings(&["0.1.0", "0.2.0", "0.3.0"]);
    let r = resolve_with_releases(&"0.2.0".to_string(), Ok(releases));
    assert_eq!(r, Ok(Resolution::Resolved("0.2.0".to_string())));
}

#[test]
fn listed_identifier_match_is_case_sensitive() {
    let releases = strings(&["Devnet", "testnet"]);
    let r = resolve_with_releases(&"devnet".to_string(), Ok(releases));
    assert_eq!(r, Ok(Resolution::NeedsCommit));
}

#[test]
fn unlisted_identifier_resolves_to_commit() {
    let id = "main".to_string();
    let releases = strings(&["0.1.0", "0.2.0"]);
    assert_eq!(resolve_with_releases(&id, Ok(releases)), Ok(Resolution::NeedsCommit));
    let sha = "0123456789abcdef0123456789abcdef01234567".to_string();
    assert_eq!(resolve_with_commit(&id, Ok(sha.clone())), Ok(sha));
}

#[test]
fn identifier_without_index_falls_back_to_commit() {
    let id = "0.2.0".to_string();
    let r = resolve_with_releases(&id, Err(SuivmError::Parse("bad json".to_string())));
    assert_eq!(r, Ok(Resolution::NeedsCommit));
}

#[test]
fn unknown_identifier_is_unresolvable() {
    let id = "no-such-branch".to_string();
    let r = resolve_with_commit(&id, Err(SuivmError::Network("404".to_string())));
    assert_eq!(r, Err(SuivmError::Unresolvable("no-such-branch".to_string())));
}

#[test]
fn handle_alias_keeps_other_identifiers() {
    let r = handle_alias(&"0.1.0".to_string(), Ok(strings(&["0.1.0", "0.2.0"])));
    assert_eq!(r, Ok("0.1.0".to_string()));
    let r = handle_alias(&"main".to_string(), Err(SuivmError::NotFound));
    assert_eq!(r, Ok("main".to_string()));
}

#[test]
fn handle_alias_replaces_latest() {
    let r = handle_alias(&"latest".to_string(), Ok(strings(&["0.1.0", "0.2.0"])));
    assert_eq!(r, Ok("0.2.0".to_string()));
}

use suivm::report::{print_current, print_installed, print_latest_version, print_version, print_versions};

fn strings(items: &[&str]) -> Vec<String> {
    items.iter().map(|s| s.to_string()).collect()
}

#[test]
fn version_line_without_markers() {
    let line = print_version(&Vec::new(), &None, &None, &"0.1.0".to_string());
    assert_eq!(line, "0.1.0");
}

#[test]
fn version_line_with_all_markers() {
    let v = "0.3.0".to_string();
    let line = print_version(&strings(&["0.3.0"]), &Some(v.clone()), &Some(v.clone()), &v);
    assert_eq!(line, "0.3.0 (latest, installed, current)");
}

#[test]
fn version_line_with_some_markers() {
    let v = "0.2.0".to_string();
    let line = print_version(&strings(&["0.2.0"]), &Some("0.3.0".to_string()), &Some(v.clone()), &v);
    assert_eq!(line, "0.2.0 (installed, current)");
    let line = print_version(&Vec::new(), &Some(v.clone()), &None, &v);
    assert_eq!(line, "0.2.0 (latest)");
}

#[test]
fn list_marks_the_last_release_latest() {
    let available = strings(&["0.1.0", "0.2.0", "0.3.0"]);
    let lines = print_versions(&available, &strings(&["0.1.0"]), &Some("0.1.0".to_string()));
    assert_eq!(lines, strings(&["0.1.0 (installed, current)", "0.2.0", "0.3.0 (latest)"]));
}

#[test]
fn latest_line() {
    let line = print_latest_version(&"0.3.0".to_string(), &strings(&["0.3.0"]), &None);
    assert_eq!(line, "0.3.0 (installed)");
}

#[test]
fn installed_lines() {
    let lines = print_installed(
        &strings(&["0.1.0", "0.3.0"]),
        &Some("0.3.0".to_string()),
        &Some("0.1.0".to_string()),
    );
    assert_eq!(lines, strings(&["0.1.0 (current)", "0.3.0 (latest)"]));
}

#[test]
fn status_of_empty_store_is_not_installed() {
    let line = print_current(&None, &None);
    assert_eq!(line, "Sui is not installed. Run `suivm use latest`");
}

#[test]
fn status_of_current_latest_version() {
    let line = print_current(&Some("0.3.0".to_string()), &Some("0.3.0".to_string()));
    assert_eq!(line, "0.3.0 (latest)");
}

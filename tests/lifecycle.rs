use suivm::error::SuivmError;
use suivm::lifecycle::{
    choose_mode, install_version, uninstall_version, use_version, shim_version, toolchain_outcome,
    Action, Mode,
};

fn strings(items: &[&str]) -> Vec<String> {
    items.iter().map(|s| s.to_string()).collect()
}

fn acquire(version: &str, mode: Mode) -> Vec<Action> {
    vec![
        Action::Stage { version: version.to_string(), mode },
        Action::Promote { version: version.to_string() },
    ]
}

#[test]
fn download_is_chosen_for_published_releases() {
    let releases = strings(&["0.1.0", "0.2.0"]);
    let v = "0.2.0".to_string();
    assert_eq!(choose_mode(&v, &releases, true, false), Mode::Download);
    assert_eq!(choose_mode(&v, &releases, true, true), Mode::Compile);
    assert_eq!(choose_mode(&v, &releases, false, false), Mode::Compile);
    assert_eq!(choose_mode(&"main".to_string(), &releases, true, false), Mode::Compile);
}

#[test]
fn install_of_missing_version_stages_then_promotes() {
    let releases = strings(&["0.1.0", "0.2.0"]);
    let plan = install_version(&"0.2.0".to_string(), &Vec::new(), &releases, true, false);
    assert_eq!(plan, Ok(acquire("0.2.0", Mode::Download)));
}

#[test]
fn install_twice_is_noop() {
    let releases = strings(&["0.1.0", "0.2.0", "0.3.0"]);
    let v = "0.2.0".to_string();
    let first = install_version(&v, &Vec::new(), &releases, true, false);
    assert_eq!(first, Ok(acquire("0.2.0", Mode::Download)));
    let installed = strings(&["0.2.0"]);
    let second = install_version(&v, &installed, &releases, true, false);
    assert_eq!(second, Ok(Vec::new()));
}

#[test]
fn forced_install_rebuilds_installed_version() {
    let releases = strings(&["0.2.0"]);
    let installed = strings(&["0.2.0"]);
    let plan = install_version(&"0.2.0".to_string(), &installed, &releases, true, true);
    assert_eq!(plan, Ok(acquire("0.2.0", Mode::Compile)));
}

#[test]
fn use_of_missing_version_installs_before_pointing() {
    let releases = strings(&["0.2.0"]);
    let plan = use_version(&"0.2.0".to_string(), &Vec::new(), &releases, true, false);
    let mut expected = acquire("0.2.0", Mode::Download);
    expected.push(Action::WriteCurrent { version: "0.2.0".to_string() });
    assert_eq!(plan, Ok(expected));
}

#[test]
fn use_of_installed_version_only_points() {
    let installed = strings(&["0.1.0", "0.2.0"]);
    let plan = use_version(&"0.1.0".to_string(), &installed, &Vec::new(), true, true);
    assert_eq!(plan, Ok(vec![Action::WriteCurrent { version: "0.1.0".to_string() }]));
}

#[test]
fn uninstall_of_current_version_is_refused() {
    let installed = strings(&["0.1.0", "0.2.0"]);
    let current = Some("0.2.0".to_string());
    let r = uninstall_version(&"0.2.0".to_string(), &installed, &current);
    assert_eq!(r, Err(SuivmError::ActiveVersion("0.2.0".to_string())));
}

#[test]
fn uninstall_of_absent_version_does_nothing() {
    let installed = strings(&["0.1.0"]);
    let current = Some("0.1.0".to_string());
    let r = uninstall_version(&"0.3.0".to_string(), &installed, &current);
    assert_eq!(r, Ok(Vec::new()));
}

#[test]
fn uninstall_removes_installed_version() {
    let installed = strings(&["0.1.0", "0.2.0"]);
    let r = uninstall_version(&"0.1.0".to_string(), &installed, &None);
    assert_eq!(r, Ok(vec![Action::RemoveArtifact { version: "0.1.0".to_string() }]));
}

#[test]
fn toolchain_exit_status() {
    assert_eq!(toolchain_outcome(true, Some(0)), Ok(()));
    assert_eq!(toolchain_outcome(false, Some(101)), Err(SuivmError::ToolchainFailure(Some(101))));
    assert_eq!(toolchain_outcome(false, None), Err(SuivmError::ToolchainFailure(None)));
}

#[test]
fn shim_runs_installed_current_version() {
    let installed = strings(&["0.2.0"]);
    assert_eq!(shim_version(Some("0.2.0".to_string()), &installed), Ok("0.2.0".to_string()));
}

#[test]
fn shim_without_current_version() {
    let r = shim_version(None, &Vec::new());
    assert_eq!(r, Err(SuivmError::NotInstalled));
    assert_eq!(
        SuivmError::NotInstalled.message(),
        "Sui is not installed. Run `suivm use latest`"
    );
}

#[test]
fn shim_with_missing_artifact() {
    let r = shim_version(Some("0.3.0".to_string()), &strings(&["0.2.0"]));
    assert_eq!(r, Err(SuivmError::CorruptedInstallation("0.3.0".to_string())));
}

#[test]
fn hidden_or_empty_version_names_are_refused() {
    let releases = strings(&[".0.2.0"]);
    for name in [".0.2.0", "", "a/b", "a\\b"] {
        let v = name.to_string();
        let expected = Err(SuivmError::InvalidVersionName(v.clone()));
        assert_eq!(install_version(&v, &Vec::new(), &releases, true, false), expected);
        assert_eq!(use_version(&v, &Vec::new(), &releases, true, false), expected);
    }
}

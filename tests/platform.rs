use suivm::platform::{
    archive_entry_path, asset_url, commit_url, compile_args, platform_postfix, releases_url,
};

#[test]
fn platform_table() {
    assert_eq!(platform_postfix("macos", "aarch64"), Some("macos-arm64".to_string()));
    assert_eq!(platform_postfix("macos", "x86_64"), Some("macos-x86_64".to_string()));
    assert_eq!(platform_postfix("linux", "x86_64"), Some("ubuntu-x86_64".to_string()));
    assert_eq!(platform_postfix("windows", "x86_64"), Some("windows-x86_64".to_string()));
    assert_eq!(platform_postfix("linux", "aarch64"), None);
    assert_eq!(platform_postfix("freebsd", "x86_64"), None);
}

#[test]
fn release_asset_url() {
    assert_eq!(
        asset_url("testnet-v1.0.0", "ubuntu-x86_64"),
        "https://github.com/MystenLabs/sui/releases/download/testnet-v1.0.0/sui-testnet-v1.0.0-ubuntu-x86_64.tgz"
    );
}

#[test]
fn executable_path_inside_archive() {
    assert_eq!(archive_entry_path("ubuntu-x86_64", false), "./target/release/sui-ubuntu-x86_64");
    assert_eq!(archive_entry_path("windows-x86_64", true), ".\\target\\release\\sui-windows-x86_64");
}

#[test]
fn index_urls() {
    assert_eq!(releases_url(), "https://api.github.com/repos/MystenLabs/sui/releases");
    assert_eq!(commit_url("main"), "https://api.github.com/repos/MystenLabs/sui/commits/main");
}

#[test]
fn toolchain_arguments() {
    let args = compile_args("abc123", "/home/ada/.suivm");
    let expected = vec![
        "install", "--locked", "--force", "--git", "https://github.com/MystenLabs/sui.git",
        "--rev", "abc123", "sui", "--root", "/home/ada/.suivm",
    ];
    assert_eq!(args, expected.iter().map(|s| s.to_string()).collect::<Vec<String>>());
}

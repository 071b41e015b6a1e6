use vstd::prelude::*;
use vstd::string::StringExecFns;
use crate::text::same_text;

verus! {

/// The name that release assets carry for an operating system and
/// architecture, when releases are published for that pair.
pub open spec fn postfix_spec(os: Seq<char>, arch: Seq<char>) -> Option<Seq<char>> {
    if os == "macos"@ && arch == "aarch64"@ {
        Some("macos-arm64"@)
    } else if os == "macos"@ && arch == "x86_64"@ {
        Some("macos-x86_64"@)
    } else if os == "linux"@ && arch == "x86_64"@ {
        Some("ubuntu-x86_64"@)
    } else if os == "windows"@ && arch == "x86_64"@ {
        Some("windows-x86_64"@)
    } else {
        None
    }
}

/// The name that release assets carry for an operating system and
/// architecture (as Rust names them), or `None` when no binaries are
/// published for that pair.
pub fn platform_postfix(os: &str, arch: &str) -> (r: Option<String>)
    ensures
        match postfix_spec(os@, arch@) {
            Some(p) => r is Some && r->0@ == p,
            None => r is None,
        },
{
    if same_text(os, "macos") && same_text(arch, "aarch64") {
        Some(String::from_str("macos-arm64"))
    } else if same_text(os, "macos") && same_text(arch, "x86_64") {
        Some(String::from_str("macos-x86_64"))
    } else if same_text(os, "linux") && same_text(arch, "x86_64") {
        Some(String::from_str("ubuntu-x86_64"))
    } else if same_text(os, "windows") && same_text(arch, "x86_64") {
        Some(String::from_str("windows-x86_64"))
    } else {
        None
    }
}

/// Where the release archive of `version` for the platform named `postfix`
/// is published.
pub fn asset_url(version: &str, postfix: &str) -> (r: String)
    ensures
        r@ == "https://github.com/MystenLabs/sui/releases/download/"@ + version@ + "/sui-"@
            + version@ + "-"@ + postfix@ + ".tgz"@,
{
    let mut r = String::from_str("https://github.com/MystenLabs/sui/releases/download/");
    r.append(version);
    r.append("/sui-");
    r.append(version);
    r.append("-");
    r.append(postfix);
    r.append(".tgz");
    r
}

/// The path of the executable inside the release archive for the platform
/// named `postfix`, with the separators of Windows when `windows` holds.
pub fn archive_entry_path(postfix: &str, windows: bool) -> (r: String)
    ensures
        !windows ==> r@ == "./target/release/sui-"@ + postfix@,
        windows ==> r@ == ".\\target\\release\\sui-"@ + postfix@,
{
    let mut r = if windows {
        String::from_str(".\\target\\release\\sui-")
    } else {
        String::from_str("./target/release/sui-")
    };
    r.append(postfix);
    r
}

/// Where the release index is published, newest release first.
pub fn releases_url() -> (r: String)
    ensures
        r@ == "https://api.github.com/repos/MystenLabs/sui/releases"@,
{
    String::from_str("https://api.github.com/repos/MystenLabs/sui/releases")
}

/// Where the commit that `reference` (a branch or a commit) names is published.
pub fn commit_url(reference: &str) -> (r: String)
    ensures
        r@ == "https://api.github.com/repos/MystenLabs/sui/commits/"@ + reference@,
{
    let mut r = String::from_str("https://api.github.com/repos/MystenLabs/sui/commits/");
    r.append(reference);
    r
}

/// The arguments of `cargo` that build `version` from the upstream repository
/// and place the binary in the `bin` directory below `root`.
pub fn compile_args(version: &str, root: &str) -> (r: Vec<String>)
    ensures
        r@.map_values(|a: String| a@) == seq![
            "install"@,
            "--locked"@,
            "--force"@,
            "--git"@,
            "https://github.com/MystenLabs/sui.git"@,
            "--rev"@,
            version@,
            "sui"@,
            "--root"@,
            root@,
        ],
{
    let mut r: Vec<String> = Vec::new();
    r.push(String::from_str("install"));
    r.push(String::from_str("--locked"));
    r.push(String::from_str("--force"));
    r.push(String::from_str("--git"));
    r.push(String::from_str("https://github.com/MystenLabs/sui.git"));
    r.push(String::from_str("--rev"));
    r.push(String::from_str(version));
    r.push(String::from_str("sui"));
    r.push(String::from_str("--root"));
    r.push(String::from_str(root));
    assert(r@.map_values(|a: String| a@) =~= seq![
        "install"@,
        "--locked"@,
        "--force"@,
        "--git"@,
        "https://github.com/MystenLabs/sui.git"@,
        "--rev"@,
        version@,
        "sui"@,
        "--root"@,
        root@,
    ]);
    r
}

} // verus!

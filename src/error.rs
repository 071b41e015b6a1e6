use vstd::prelude::*;
use vstd::string::StringExecFns;

verus! {

/// Why a release archive did not yield exactly one executable file.
#[derive(Debug, Clone, PartialEq, Eq)]
pub enum ArchiveShape {
    /// No entry has the expected path.
    MissingEntry,
    /// More than one entry has the expected path.
    DuplicateEntry,
    /// The entry with the expected path is a directory, a link or another node.
    NotAFile,
}

/// The failures of the version manager.
#[derive(Debug, Clone, PartialEq, Eq)]
pub enum SuivmError {
    /// The transfer to or from a remote endpoint failed.
    Network(String),
    /// A remote response did not have the expected shape.
    Parse(String),
    /// The release index holds no release.
    NotFound,
    /// The identifier names no release, branch or commit.
    Unresolvable(String),
    /// The release archive could not be read.
    ArchiveUnreadable(String),
    /// The release archive does not hold the expected executable.
    ArchiveShapeMismatch(ArchiveShape),
    /// The build toolchain exited unsuccessfully, with this exit code if any.
    ToolchainFailure(Option<i32>),
    /// A filesystem operation failed.
    Io(String),
    /// The name cannot name a file of the store: it is empty, hidden, or holds
    /// a path separator.
    InvalidVersionName(String),
    /// The version is the current one and cannot be removed.
    ActiveVersion(String),
    /// No version is current.
    NotInstalled,
    /// The current version has no artifact in the store.
    CorruptedInstallation(String),
}

/// The message of each failure.
pub open spec fn message_spec(e: SuivmError) -> Seq<char> {
    match e {
        SuivmError::Network(m) => m@,
        SuivmError::Parse(m) => m@,
        SuivmError::NotFound => "No versions found"@,
        SuivmError::Unresolvable(id) => "`"@ + id@
            + "` is neither a valid version, branch, or commit, check available versions using `suivm list`"@,
        SuivmError::ArchiveUnreadable(m) => "Could not read the downloaded archive: "@ + m@,
        SuivmError::ArchiveShapeMismatch(ArchiveShape::MissingEntry) =>
            "The expected binary was not present in the downloaded archive"@,
        SuivmError::ArchiveShapeMismatch(ArchiveShape::DuplicateEntry) =>
            "The expected binary appears more than once in the downloaded archive"@,
        SuivmError::ArchiveShapeMismatch(ArchiveShape::NotAFile) =>
            "Unpacked file was a directory, hardlink, symlink, or other node"@,
        SuivmError::ToolchainFailure(_) => "Failed to compile Sui"@,
        SuivmError::Io(m) => m@,
        SuivmError::InvalidVersionName(v) => "`"@ + v@ + "` cannot name an installed version"@,
        SuivmError::ActiveVersion(v) => "Sui `"@ + v@
            + "` is the current version and cannot be uninstalled"@,
        SuivmError::NotInstalled => "Sui is not installed. Run `suivm use latest`"@,
        SuivmError::CorruptedInstallation(v) => "Sui installation corrupted. Run `suivm install "@
            + v@ + "`"@,
    }
}

impl SuivmError {
    /// A human-readable description of the failure.
    pub fn message(&self) -> (r: String)
        ensures
            r@ == message_spec(*self),
    {
        match self {
            SuivmError::Network(m) => m.clone(),
            SuivmError::Parse(m) => m.clone(),
            SuivmError::NotFound => String::from_str("No versions found"),
            SuivmError::Unresolvable(id) => {
                let mut s = String::from_str("`");
                s.append(id.as_str());
                s.append(
                    "` is neither a valid version, branch, or commit, check available versions using `suivm list`",
                );
                s
            },
            SuivmError::ArchiveUnreadable(m) => {
                let mut s = String::from_str("Could not read the downloaded archive: ");
                s.append(m.as_str());
                s
            },
            SuivmError::ArchiveShapeMismatch(shape) => match shape {
                ArchiveShape::MissingEntry => String::from_str(
                    "The expected binary was not present in the downloaded archive",
                ),
                ArchiveShape::DuplicateEntry => String::from_str(
                    "The expected binary appears more than once in the downloaded archive",
                ),
                ArchiveShape::NotAFile => String::from_str(
                    "Unpacked file was a directory, hardlink, symlink, or other node",
                ),
            },
            SuivmError::ToolchainFailure(_) => String::from_str("Failed to compile Sui"),
            SuivmError::Io(m) => m.clone(),
            SuivmError::InvalidVersionName(v) => {
                let mut s = String::from_str("`");
                s.append(v.as_str());
                s.append("` cannot name an installed version");
                s
            },
            SuivmError::ActiveVersion(v) => {
                let mut s = String::from_str("Sui `");
                s.append(v.as_str());
                s.append("` is the current version and cannot be uninstalled");
                s
            },
            SuivmError::NotInstalled => String::from_str(
                "Sui is not installed. Run `suivm use latest`",
            ),
            SuivmError::CorruptedInstallation(v) => {
                let mut s = String::from_str("Sui installation corrupted. Run `suivm install ");
                s.append(v.as_str());
                s.append("`");
                s
            },
        }
    }
}

} // verus!

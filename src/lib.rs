//! A version manager for the `sui` command-line binary.
//!
//! The library holds the decisions of the manager: the layout of the version
//! store, the resolution of a requested identifier to an installable version,
//! the choice between downloading and compiling, the selection of the binary
//! inside a release archive, and the plans that `install`, `use` and
//! `uninstall` carry out on the store. The program around it performs the
//! network, filesystem and subprocess work that these plans call for.

pub mod error;
pub mod text;
pub mod store;
pub mod resolve;
pub mod platform;
pub mod archive;
pub mod lifecycle;
pub mod report;

//! The reduced command surface of the stand-alone binaries: the same two
//! subcommands, without per-invocation options for `Show`.

use vstd::prelude::*;

verus! {

/// A parsed invocation of the stand-alone binaries.
#[derive(Debug)]
pub enum RappCmd {
    /// Create a new project.
    Init {
        /// Path of the project; the current directory when absent.
        path: Option<String>,
    },
    /// Show the project and update on changes.
    Show,
}

} // verus!

//! The tool's command surface with its per-invocation options.  A driver
//! parses the command line into this type; the library only decides what
//! each command means.

use vstd::prelude::*;

verus! {

/// A parsed invocation of the tool.
#[derive(Debug)]
pub enum RappCmd {
    /// Create a new project.
    Init {
        /// Path of the project; the current directory when absent.
        path: Option<String>,
    },
    /// Show the project and update on changes.
    Show {
        /// When set, everything is rebuilt; otherwise cached data is used.
        rebuild: Option<bool>,
        /// When set, the generated project refers to the helper crates by
        /// relative paths inside their own workspace; used by the library
        /// developers for tests.
        use_relative_paths: Option<bool>,
    },
}

} // verus!

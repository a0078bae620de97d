//! Core of a cached discover/generate/build/launch pipeline for workspace
//! applications: it locates the one library unit of the current workspace
//! that depends on the target library, materializes a minimal wrapper
//! project around it, has that project built, and launches the resulting
//! binary, reusing cached state whenever the inputs have not changed.
//!
//! All file, process and metadata work is performed by a driver around this
//! library; every decision the pipeline makes — candidate resolution, cache
//! reuse, template substitution, build and launch checks — is made here, on
//! plain values, under contract.

use vstd::prelude::*;

pub mod clap_rapp_cmd;
pub mod cli_parser;
pub mod cmd_show;
pub mod config;
pub mod error;
pub mod init;
pub mod show;
pub mod text;
pub mod viewer;

verus! {

use crate::cli_parser::RappCmd;
use crate::cmd_show::Show;
use crate::init::Init;

/// What the tool does for one parsed invocation.
pub enum ToolPlan {
    /// Run the `init` subcommand.
    RunInit { init: Init },
    /// Run the `show` workflow.
    RunShow { show: Show },
}

/// Entry point of the command-line tool.  The tool itself only dispatches to
/// one of the subcommands; `plan` computes which one, as a plain value, for
/// a driver to execute.
pub struct RappTool;

impl RappTool {
    /// Decides which subcommand a parsed invocation runs, carrying its
    /// options over unchanged.
    pub fn plan(&self, cmd: RappCmd) -> (p: ToolPlan)
        ensures
            cmd matches RappCmd::Init { path } ==> (p matches ToolPlan::RunInit { init }
                && init.path == path),
            cmd matches RappCmd::Show { rebuild, use_relative_paths } ==> (p
                matches ToolPlan::RunShow { show } && show.rebuild == rebuild
                && show.use_relative_paths == use_relative_paths),
    {
        match cmd {
            RappCmd::Init { path } => ToolPlan::RunInit { init: Init { path } },
            RappCmd::Show { rebuild, use_relative_paths } => ToolPlan::RunShow {
                show: Show { rebuild, use_relative_paths },
            },
        }
    }
}

} // verus!

//! The `show` workflow: one state machine that sequences discovery, caching,
//! generation, build and launch.
//!
//! All file, process and metadata work is left to a driver.  Each call of
//! [`Show::run`] consumes the last event the driver observed and answers with
//! the next state and the next step to perform, so every decision of the
//! workflow is made here and only plain values cross the boundary.
//!
//! Reuse policy: the `rebuild` flag of the invocation forces both the
//! configuration and the viewer to be rebuilt; with the flag unset, a cache
//! record that reads and parses is reused as it stands.  The
//! `use_relative_paths` flag is overlaid on the (possibly cached)
//! configuration but by itself never forces regeneration: a viewer generated
//! under the other template variant is still reused unless `rebuild` is set.

use vstd::prelude::*;

verus! {

use crate::config::ambiguous_names_ok;
use crate::config::name_is_qualifying;
use crate::config::qualifies;
use crate::config::some_qualifier;
use crate::config::spec_parse_config;
use crate::config::target_dir_chain;
use crate::config::two_qualifier_names;
use crate::config::Config;
use crate::config::ConfigV;
use crate::config::Metadata;
use crate::error::BuildError;
use crate::error::RappError;
use crate::error::RunError;
use crate::text::clone_text;
use crate::text::push_str;
use crate::text::text_of;
use crate::viewer::build_script_path;
use crate::viewer::expected_bin_path;
use crate::viewer::generation_plan;
use crate::viewer::spec_build_script;
use crate::viewer::spec_generated_manifest;
use crate::viewer::spec_main_source;
use crate::viewer::spec_parse_viewer;
use crate::viewer::FileOut;
use crate::viewer::Viewer;
use crate::viewer::ViewerV;

/// The `show` subcommand with its two per-invocation flags.
pub struct Show {
    /// Forces regeneration of both cache records when `Some(true)`.
    pub rebuild: Option<bool>,
    /// Selects the relative-paths template variant when `Some(true)`.
    pub use_relative_paths: Option<bool>,
}

/// What the workflow asks its driver to do next.
#[derive(Debug)]
pub enum ShowStep {
    /// Create each of these directories where missing, outermost first.
    EnsureDirs { dirs: Vec<Vec<char>> },
    /// Read this file and reply with its text, or with nothing on any
    /// failure.
    ReadFile { path: Vec<char> },
    /// Query the workspace metadata with this directory as workspace root.
    QueryMetadata { dir: Vec<char> },
    /// Write each of these files.
    WriteFiles { files: Vec<FileOut> },
    /// Remove this file if it exists.
    RemoveIfPresent { path: Vec<char> },
    /// Reply whether this path exists on disk.
    CheckExists { path: Vec<char> },
    /// Mark this file executable; failure is tolerated.
    MakeExecutable { path: Vec<char> },
    /// Run this program, wait for it, relay its output, reply whether it
    /// exited successfully.
    RunProcess { path: Vec<char> },
    /// The workflow is complete.
    Finish,
    /// The workflow failed with this error.
    Fail { error: RappError },
}

/// What the driver reports back.
#[derive(Debug)]
pub enum ShowEvent {
    /// Begin, with the current working directory as workspace root.
    Start { cwd: Vec<char> },
    DirsEnsured { ok: bool },
    FileRead { content: Option<Vec<char>> },
    MetadataLoaded { meta: Metadata },
    MetadataFailed { message: Vec<char> },
    FilesWritten { ok: bool },
    Removed { ok: bool },
    Exists { yes: bool },
    MadeExecutable { ok: bool },
    ProcessDone { success: bool },
}

/// Where the workflow stands between two steps.
pub enum ShowState {
    Idle,
    AwaitCacheDirs { cwd: Vec<char>, cache_dir: Vec<char> },
    AwaitConfigRead { cwd: Vec<char>, cache_dir: Vec<char> },
    AwaitMetadata { cwd: Vec<char>, cache_dir: Vec<char> },
    AwaitTargetDirs { config: Config },
    AwaitConfigWrite { config: Config },
    AwaitViewerRead { config: Config },
    AwaitSrcDir { config: Config, viewer: Viewer },
    AwaitGenWrite { viewer: Viewer },
    AwaitStaleRemove { viewer: Viewer },
    AwaitScriptCheck { viewer: Viewer },
    AwaitChmod { viewer: Viewer },
    AwaitBuildRun { viewer: Viewer },
    AwaitArtifactCheck { viewer: Viewer },
    AwaitViewerWrite { viewer: Viewer },
    AwaitLaunchCheck { viewer: Viewer },
    AwaitLaunchRun { viewer: Viewer },
    Done,
    Failed,
}

/// The `rebuild` flag of this invocation.
pub open spec fn show_rebuild(s: Show) -> bool {
    s.rebuild == Some(true)
}

/// The `use_relative_paths` flag of this invocation.
pub open spec fn show_urp(s: Show) -> bool {
    s.use_relative_paths == Some(true)
}

/// What a read file's content parses to as a configuration.
pub open spec fn parsed_config(content: Option<Vec<char>>) -> Option<ConfigV> {
    match content {
        Some(s) => spec_parse_config(s@),
        None => None,
    }
}

/// What a read file's content parses to as a viewer descriptor.
pub open spec fn parsed_viewer(content: Option<Vec<char>>) -> Option<ViewerV> {
    match content {
        Some(s) => spec_parse_viewer(s@),
        None => None,
    }
}

/// Entering the launch phase: fail at once without a recorded binary, else
/// have the driver re-verify that the binary still exists.
pub open spec fn launch_entry_ok(v: ViewerV, next: ShowState, step: ShowStep) -> bool {
    match v.bin {
        None => next is Failed && (step matches ShowStep::Fail { error } && (error
            matches RappError::Other(m) && m@ == "Viewer has not yet been build"@)),
        Some(b) => next matches ShowState::AwaitLaunchCheck { viewer } && viewer@ == v && (step
            matches ShowStep::CheckExists { path } && path@ == b),
    }
}

/// The four nested segments of the cache directory under the workspace root,
/// outermost first.
pub open spec fn cache_chain_ok(cwd: Seq<char>, dirs: Seq<Vec<char>>) -> bool {
    &&& dirs.len() == 4
    &&& dirs[0]@ == cwd + "/target"@
    &&& dirs[1]@ == cwd + "/target/debug"@
    &&& dirs[2]@ == cwd + "/target/debug/build"@
    &&& dirs[3]@ == cwd + "/target/debug/build/rapp_runner"@
}

/// The four nested segments of the wrapper's build-output directory,
/// outermost first.
pub open spec fn target_chain_ok(target_directory: Seq<char>, dirs: Seq<Vec<char>>) -> bool {
    &&& dirs.len() == 4
    &&& dirs[0]@ == target_directory
    &&& dirs[1]@ == target_directory + "/debug"@
    &&& dirs[2]@ == target_directory + "/debug/build"@
    &&& dirs[3]@ == target_directory + "/debug/build/rapp_runner"@
}

/// The three generated files, in order: the substituted manifest, the build
/// script, and the verbatim entry point.
pub open spec fn generation_ok(c: ConfigV, files: Seq<FileOut>) -> bool {
    &&& files.len() == 3
    &&& files[0].path@ == c.scratch_dir + "/Cargo.toml"@
    &&& files[0].content@ == spec_generated_manifest(c)
    &&& files[1].path@ == c.scratch_dir + "/build.sh"@
    &&& files[1].content@ == spec_build_script(c.scratch_dir)
    &&& files[2].path@ == c.scratch_dir + "/src/main.rs"@
    &&& files[2].content@ == spec_main_source()
}

/// A failing terminal transition carrying this message.
pub open spec fn fails_with(next: ShowState, step: ShowStep, message: Seq<char>) -> bool {
    next is Failed && (step matches ShowStep::Fail { error } && (error
        matches RappError::Other(m) && m@ == message))
}

/// The full transition relation of the workflow: what `Show::run` answers for
/// every state and event.
pub open spec fn show_transition(
    s: Show,
    state: ShowState,
    event: ShowEvent,
    next: ShowState,
    step: ShowStep,
) -> bool {
    match (state, event) {
        (ShowState::Idle, ShowEvent::Start { cwd }) => {
            &&& next matches ShowState::AwaitCacheDirs { cwd: c2, cache_dir: d2 } && c2@ == cwd@
                && d2@ == cwd@ + "/target/debug/build/rapp_runner"@
            &&& step matches ShowStep::EnsureDirs { dirs } && cache_chain_ok(cwd@, dirs@)
        },
        (ShowState::AwaitCacheDirs { cwd, cache_dir }, ShowEvent::DirsEnsured { ok }) => {
            if ok {
                &&& next matches ShowState::AwaitConfigRead { cwd: c2, cache_dir: d2 } && c2@
                    == cwd@ && d2@ == cache_dir@
                &&& step matches ShowStep::ReadFile { path } && path@ == cache_dir@ + "/config"@
            } else {
                fails_with(next, step, "Could not create the cache directory"@)
            }
        },
        (ShowState::AwaitConfigRead { cwd, cache_dir }, ShowEvent::FileRead { content }) => {
            match parsed_config(content) {
                Some(cv) if !show_rebuild(s) => {
                    &&& next matches ShowState::AwaitViewerRead { config } && config@ == (ConfigV {
                        rebuild: show_rebuild(s),
                        use_relative_paths: show_urp(s),
                        ..cv
                    })
                    &&& step matches ShowStep::ReadFile { path } && path@ == cv.scratch_dir
                        + "/viewer"@
                },
                _ => {
                    &&& next matches ShowState::AwaitMetadata { cwd: c2, cache_dir: d2 } && c2@
                        == cwd@ && d2@ == cache_dir@
                    &&& step matches ShowStep::QueryMetadata { dir } && dir@ == cwd@
                },
            }
        },
        (ShowState::AwaitMetadata { cwd, cache_dir }, ShowEvent::MetadataLoaded { meta }) => {
            let pkgs = meta.packages@;
            if meta.workspace_members@.len() == 0 || !some_qualifier(pkgs) {
                next is Failed && (step matches ShowStep::Fail { error } && (error
                    matches RappError::NoRappCrateFound(d) && d@ == cache_dir@))
            } else if !two_qualifier_names(pkgs) {
                &&& next matches ShowState::AwaitTargetDirs { config } && {
                    &&& name_is_qualifying(pkgs, config.name@)
                    &&& forall|j: int|
                        0 <= j < pkgs.len() && qualifies(#[trigger] pkgs[j]) ==> config.name@
                            == pkgs[j].name@
                    &&& config.target_dir@ == meta.target_directory@
                        + "/debug/build/rapp_runner"@
                    &&& config.scratch_dir@ == cache_dir@
                    &&& config.app_dir@ == cwd@
                    &&& !config.use_relative_paths
                    &&& !config.rebuild
                }
                &&& step matches ShowStep::EnsureDirs { dirs } && target_chain_ok(
                    meta.target_directory@,
                    dirs@,
                )
            } else {
                next is Failed && (step matches ShowStep::Fail { error } && (error
                    matches RappError::MultipleRappCratesFound(ns) && ambiguous_names_ok(
                    ns@,
                    pkgs,
                )))
            }
        },
        (ShowState::AwaitMetadata { .. }, ShowEvent::MetadataFailed { message }) => {
            fails_with(next, step, message@)
        },
        (ShowState::AwaitTargetDirs { config }, ShowEvent::DirsEnsured { ok }) => {
            if ok {
                &&& next matches ShowState::AwaitConfigWrite { config: c2 } && c2@ == config@
                &&& step matches ShowStep::WriteFiles { files } && files@.len() == 1
                    && files@[0].path@ == config.scratch_dir@ + "/config"@
                    && files@[0].content@ == crate::config::spec_encode_config(config@)
            } else {
                fails_with(next, step, "Could not create the target directory"@)
            }
        },
        (ShowState::AwaitConfigWrite { config }, ShowEvent::FilesWritten { ok }) => {
            if ok {
                &&& next matches ShowState::AwaitViewerRead { config: c2 } && c2@ == (ConfigV {
                    rebuild: show_rebuild(s),
                    use_relative_paths: show_urp(s),
                    ..config@
                })
                &&& step matches ShowStep::ReadFile { path } && path@ == config.scratch_dir@
                    + "/viewer"@
            } else {
                fails_with(next, step, "Could not write the config file"@)
            }
        },
        (ShowState::AwaitViewerRead { config }, ShowEvent::FileRead { content }) => {
            match parsed_viewer(content) {
                Some(vv) if !config.rebuild => launch_entry_ok(vv, next, step),
                _ => {
                    &&& next matches ShowState::AwaitSrcDir { config: c2, viewer } && c2@
                        == config@ && viewer@ == (ViewerV {
                        bin: None,
                        cache_dir: config.scratch_dir@,
                        target_dir: config.target_dir@,
                        use_relative_paths: config.use_relative_paths,
                    })
                    &&& step matches ShowStep::EnsureDirs { dirs } && dirs@.len() == 1
                        && dirs@[0]@ == config.scratch_dir@ + "/src"@
                },
            }
        },
        (ShowState::AwaitSrcDir { config, viewer }, ShowEvent::DirsEnsured { ok }) => {
            if ok {
                &&& next matches ShowState::AwaitGenWrite { viewer: v2 } && v2@ == viewer@
                &&& step matches ShowStep::WriteFiles { files } && generation_ok(
                    config@,
                    files@,
                )
            } else {
                fails_with(next, step, "Could not create the src directory"@)
            }
        },
        (ShowState::AwaitGenWrite { viewer }, ShowEvent::FilesWritten { ok }) => {
            if ok {
                &&& next matches ShowState::AwaitStaleRemove { viewer: v2 } && v2@ == viewer@
                &&& step matches ShowStep::RemoveIfPresent { path } && path@ == viewer.target_dir@
                    + "/target/debug/rapp_runner"@
            } else {
                fails_with(next, step, "Could not write the generated project"@)
            }
        },
        (ShowState::AwaitStaleRemove { viewer }, ShowEvent::Removed { ok }) => {
            if ok {
                &&& next matches ShowState::AwaitScriptCheck { viewer: v2 } && v2@ == viewer@
                &&& step matches ShowStep::CheckExists { path } && path@ == viewer.cache_dir@
                    + "/build.sh"@
            } else {
                fails_with(next, step, "Could not remove the stale binary"@)
            }
        },
        (ShowState::AwaitScriptCheck { viewer }, ShowEvent::Exists { yes }) => {
            if yes {
                &&& next matches ShowState::AwaitChmod { viewer: v2 } && v2@ == viewer@
                &&& step matches ShowStep::MakeExecutable { path } && path@ == viewer.cache_dir@
                    + "/build.sh"@
            } else {
                next is Failed && (step matches ShowStep::Fail { error } && (error
                    matches RappError::Other(m) && m@ == "File not found: "@ + (
                viewer.cache_dir@ + "/build.sh"@)))
            }
        },
        (ShowState::AwaitChmod { viewer }, ShowEvent::MadeExecutable { .. }) => {
            &&& next matches ShowState::AwaitBuildRun { viewer: v2 } && v2@ == viewer@
            &&& step matches ShowStep::RunProcess { path } && path@ == viewer.cache_dir@
                + "/build.sh"@
        },
        (ShowState::AwaitBuildRun { viewer }, ShowEvent::ProcessDone { .. }) => {
            &&& next matches ShowState::AwaitArtifactCheck { viewer: v2 } && v2@ == viewer@
            &&& step matches ShowStep::CheckExists { path } && path@ == viewer.target_dir@
                + "/target/debug/rapp_runner"@
        },
        (ShowState::AwaitArtifactCheck { viewer }, ShowEvent::Exists { yes }) => {
            if yes {
                &&& next matches ShowState::AwaitViewerWrite { viewer: v2 } && v2@ == (ViewerV {
                    bin: Some(viewer.target_dir@ + "/target/debug/rapp_runner"@),
                    ..viewer@
                })
                &&& step matches ShowStep::WriteFiles { files } && files@.len() == 1
                    && files@[0].path@ == viewer.cache_dir@ + "/viewer"@
                    && files@[0].content@ == crate::viewer::spec_encode_viewer(
                    ViewerV { bin: Some(viewer.target_dir@ + "/target/debug/rapp_runner"@), ..viewer@ },
                )
            } else {
                next is Failed && (step matches ShowStep::Fail { error } && (error
                    matches RappError::Other(m) && m@ == "Build did not generate a binary at "@
                    + (viewer.target_dir@ + "/target/debug/rapp_runner"@)))
            }
        },
        (ShowState::AwaitViewerWrite { viewer }, ShowEvent::FilesWritten { ok }) => {
            if ok {
                launch_entry_ok(viewer@, next, step)
            } else {
                fails_with(next, step, "Could not write the viewer file"@)
            }
        },
        (ShowState::AwaitLaunchCheck { viewer }, ShowEvent::Exists { yes }) => {
            match viewer@.bin {
                Some(b) => {
                    if yes {
                        &&& next matches ShowState::AwaitLaunchRun { viewer: v2 } && v2@
                            == viewer@
                        &&& step matches ShowStep::RunProcess { path } && path@ == b
                    } else {
                        next is Failed && (step matches ShowStep::Fail { error } && (error
                            matches RappError::Other(m) && m@ == "Viewer binary not found at "@
                            + b))
                    }
                },
                None => fails_with(next, step, "Viewer has not yet been build"@),
            }
        },
        (ShowState::AwaitLaunchRun { .. }, ShowEvent::ProcessDone { .. }) => {
            next is Done && step is Finish
        },
        (ShowState::Done, _) => next is Done && step is Finish,
        (ShowState::Failed, _) => fails_with(next, step, "the workflow has already failed"@),
        _ => fails_with(next, step, "unexpected event"@),
    }
}

/// The four nested segments of the cache directory under the workspace root.
pub fn cache_dir_chain(cwd: &Vec<char>) -> (r: Vec<Vec<char>>)
    ensures
        cache_chain_ok(cwd@, r@),
{
    let mut r: Vec<Vec<char>> = Vec::new();
    let mut d0 = clone_text(cwd);
    push_str(&mut d0, "/target");
    let mut d1 = clone_text(cwd);
    push_str(&mut d1, "/target/debug");
    let mut d2 = clone_text(cwd);
    push_str(&mut d2, "/target/debug/build");
    let mut d3 = clone_text(cwd);
    push_str(&mut d3, "/target/debug/build/rapp_runner");
    r.push(d0);
    r.push(d1);
    r.push(d2);
    r.push(d3);
    r
}

/// A failing terminal transition with this message.
fn fail_other(msg: &str) -> (r: (ShowState, ShowStep))
    ensures
        fails_with(r.0, r.1, msg@),
{
    (ShowState::Failed, ShowStep::Fail { error: RappError::Other(text_of(msg)) })
}

/// Enters the launch phase for this viewer.
fn launch_entry(viewer: Viewer) -> (r: (ShowState, ShowStep))
    ensures
        launch_entry_ok(viewer@, r.0, r.1),
{
    match &viewer.bin {
        None => (
            ShowState::Failed,
            ShowStep::Fail { error: RappError::from_run(RunError::NotBuilt) },
        ),
        Some(b) => {
            let path = clone_text(b);
            (ShowState::AwaitLaunchCheck { viewer }, ShowStep::CheckExists { path })
        },
    }
}

impl Show {
    /// Advances the workflow by one step: consumes the driver's last event
    /// and answers with the next state and the next step to perform, as the
    /// transition relation `show_transition` prescribes.
    pub fn run(&self, state: ShowState, event: ShowEvent) -> (r: (ShowState, ShowStep))
        ensures
            show_transition(*self, state, event, r.0, r.1),
    {
        let rebuild = match self.rebuild {
            Some(b) => b,
            None => false,
        };
        let use_relative_paths = match self.use_relative_paths {
            Some(b) => b,
            None => false,
        };
        match (state, event) {
            (ShowState::Idle, ShowEvent::Start { cwd }) => {
                let dirs = cache_dir_chain(&cwd);
                let cache_dir = clone_text(&dirs[3]);
                (
                    ShowState::AwaitCacheDirs { cwd, cache_dir },
                    ShowStep::EnsureDirs { dirs },
                )
            },
            (ShowState::AwaitCacheDirs { cwd, cache_dir }, ShowEvent::DirsEnsured { ok }) => {
                if ok {
                    let path = Config::config_file_path(&cache_dir);
                    (
                        ShowState::AwaitConfigRead { cwd, cache_dir },
                        ShowStep::ReadFile { path },
                    )
                } else {
                    fail_other("Could not create the cache directory")
                }
            },
            (ShowState::AwaitConfigRead { cwd, cache_dir }, ShowEvent::FileRead { content }) => {
                let cached = match &content {
                    Some(s) => Config::decode(s),
                    None => None,
                };
                match cached {
                    Some(config) if !rebuild => {
                        let path = Viewer::viewer_file_path(&config.scratch_dir);
                        let config = Config { rebuild, use_relative_paths, ..config };
                        (
                            ShowState::AwaitViewerRead { config },
                            ShowStep::ReadFile { path },
                        )
                    },
                    _ => {
                        let dir = clone_text(&cwd);
                        (
                            ShowState::AwaitMetadata { cwd, cache_dir },
                            ShowStep::QueryMetadata { dir },
                        )
                    },
                }
            },
            (ShowState::AwaitMetadata { cwd, cache_dir }, ShowEvent::MetadataLoaded { meta }) => {
                match Config::create(&meta, &cache_dir, &cwd) {
                    Ok(config) => {
                        let dirs = target_dir_chain(&meta.target_directory);
                        (
                            ShowState::AwaitTargetDirs { config },
                            ShowStep::EnsureDirs { dirs },
                        )
                    },
                    Err(e) => (
                        ShowState::Failed,
                        ShowStep::Fail { error: RappError::from_discovery(e) },
                    ),
                }
            },
            (ShowState::AwaitMetadata { .. }, ShowEvent::MetadataFailed { message }) => {
                (ShowState::Failed, ShowStep::Fail { error: RappError::Other(message) })
            },
            (ShowState::AwaitTargetDirs { config }, ShowEvent::DirsEnsured { ok }) => {
                if ok {
                    let mut files: Vec<FileOut> = Vec::new();
                    files.push(
                        FileOut {
                            path: Config::config_file_path(&config.scratch_dir),
                            content: config.encode(),
                        },
                    );
                    (
                        ShowState::AwaitConfigWrite { config },
                        ShowStep::WriteFiles { files },
                    )
                } else {
                    fail_other("Could not create the target directory")
                }
            },
            (ShowState::AwaitConfigWrite { config }, ShowEvent::FilesWritten { ok }) => {
                if ok {
                    let path = Viewer::viewer_file_path(&config.scratch_dir);
                    let config = Config { rebuild, use_relative_paths, ..config };
                    (
                        ShowState::AwaitViewerRead { config },
                        ShowStep::ReadFile { path },
                    )
                } else {
                    fail_other("Could not write the config file")
                }
            },
            (ShowState::AwaitViewerRead { config }, ShowEvent::FileRead { content }) => {
                let cached = match &content {
                    Some(s) => Viewer::decode(s),
                    None => None,
                };
                match cached {
                    Some(viewer) if !config.rebuild => launch_entry(viewer),
                    _ => {
                        let viewer = Viewer::fresh(&config);
                        let mut dirs: Vec<Vec<char>> = Vec::new();
                        let mut src = clone_text(&config.scratch_dir);
                        push_str(&mut src, "/src");
                        dirs.push(src);
                        (
                            ShowState::AwaitSrcDir { config, viewer },
                            ShowStep::EnsureDirs { dirs },
                        )
                    },
                }
            },
            (ShowState::AwaitSrcDir { config, viewer }, ShowEvent::DirsEnsured { ok }) => {
                if ok {
                    let files = generation_plan(&config);
                    (ShowState::AwaitGenWrite { viewer }, ShowStep::WriteFiles { files })
                } else {
                    fail_other("Could not create the src directory")
                }
            },
            (ShowState::AwaitGenWrite { viewer }, ShowEvent::FilesWritten { ok }) => {
                if ok {
                    let path = expected_bin_path(&viewer.target_dir);
                    (
                        ShowState::AwaitStaleRemove { viewer },
                        ShowStep::RemoveIfPresent { path },
                    )
                } else {
                    fail_other("Could not write the generated project")
                }
            },
            (ShowState::AwaitStaleRemove { viewer }, ShowEvent::Removed { ok }) => {
                if ok {
                    let path = build_script_path(&viewer.cache_dir);
                    (
                        ShowState::AwaitScriptCheck { viewer },
                        ShowStep::CheckExists { path },
                    )
                } else {
                    fail_other("Could not remove the stale binary")
                }
            },
            (ShowState::AwaitScriptCheck { viewer }, ShowEvent::Exists { yes }) => {
                if yes {
                    let path = build_script_path(&viewer.cache_dir);
                    (
                        ShowState::AwaitChmod { viewer },
                        ShowStep::MakeExecutable { path },
                    )
                } else {
                    let path = build_script_path(&viewer.cache_dir);
                    (
                        ShowState::Failed,
                        ShowStep::Fail {
                            error: RappError::from_build(BuildError::MissingBuildScript(path)),
                        },
                    )
                }
            },
            (ShowState::AwaitChmod { viewer }, ShowEvent::MadeExecutable { .. }) => {
                let path = build_script_path(&viewer.cache_dir);
                (ShowState::AwaitBuildRun { viewer }, ShowStep::RunProcess { path })
            },
            (ShowState::AwaitBuildRun { viewer }, ShowEvent::ProcessDone { .. }) => {
                let path = expected_bin_path(&viewer.target_dir);
                (
                    ShowState::AwaitArtifactCheck { viewer },
                    ShowStep::CheckExists { path },
                )
            },
            (ShowState::AwaitArtifactCheck { viewer }, ShowEvent::Exists { yes }) => {
                match viewer.build_outcome(yes) {
                    Ok(viewer) => {
                        let mut files: Vec<FileOut> = Vec::new();
                        files.push(
                            FileOut {
                                path: Viewer::viewer_file_path(&viewer.cache_dir),
                                content: viewer.encode(),
                            },
                        );
                        (
                            ShowState::AwaitViewerWrite { viewer },
                            ShowStep::WriteFiles { files },
                        )
                    },
                    Err(e) => (
                        ShowState::Failed,
                        ShowStep::Fail { error: RappError::from_build(e) },
                    ),
                }
            },
            (ShowState::AwaitViewerWrite { viewer }, ShowEvent::FilesWritten { ok }) => {
                if ok {
                    launch_entry(viewer)
                } else {
                    fail_other("Could not write the viewer file")
                }
            },
            (ShowState::AwaitLaunchCheck { viewer }, ShowEvent::Exists { yes }) => {
                match viewer.launch_check(yes) {
                    Ok(path) => (
                        ShowState::AwaitLaunchRun { viewer },
                        ShowStep::RunProcess { path },
                    ),
                    Err(e) => (
                        ShowState::Failed,
                        ShowStep::Fail { error: RappError::from_run(e) },
                    ),
                }
            },
            (ShowState::AwaitLaunchRun { .. }, ShowEvent::ProcessDone { .. }) => {
                (ShowState::Done, ShowStep::Finish)
            },
            (ShowState::Done, _) => (ShowState::Done, ShowStep::Finish),
            (ShowState::Failed, _) => fail_other("the workflow has already failed"),
            _ => fail_other("unexpected event"),
        }
    }
}

} // verus!

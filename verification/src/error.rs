//! Error taxonomy of the pipeline.
//!
//! Each component reports failure through its own closed variant type; the
//! workflow maps them into the tool-level `RappError`.  Cache-read failures
//! are not errors anywhere in the library: a store that cannot read its file
//! reports a plain cache miss.

use vstd::prelude::*;

verus! {

use crate::text::clone_text;
use crate::text::push_str;
use crate::text::push_text;

/// Why candidate discovery failed.
#[derive(Debug, PartialEq)]
pub enum DiscoveryError {
    /// No library unit of the workspace depends on the target library.
    /// Carries the directory that was searched.
    NoCandidate(Vec<char>),
    /// More than one unit qualifies.  Carries all matched names, sorted,
    /// without duplicates.
    AmbiguousCandidates(Vec<Vec<char>>),
}

/// Why building the generated wrapper project failed.
#[derive(Debug, PartialEq)]
pub enum BuildError {
    /// The generated build script is not where it was written.
    MissingBuildScript(Vec<char>),
    /// The build ran but the expected binary artifact did not appear.
    ArtifactNotProduced(Vec<char>),
}

/// Why launching the built viewer failed.
#[derive(Debug, PartialEq)]
pub enum RunError {
    /// No build has produced a binary yet.
    NotBuilt,
    /// The recorded binary path no longer exists on disk.
    ArtifactMissing(Vec<char>),
}

/// The error type of the tool as a whole.
#[derive(Debug, PartialEq)]
pub enum RappError {
    /// No library crate of the workspace depends on the target library.
    NoRappCrateFound(Vec<char>),
    /// Several candidate crates were found; the user must disambiguate.
    MultipleRappCratesFound(Vec<Vec<char>>),
    /// Any other fatal condition, described by its message.
    Other(Vec<char>),
}

impl RappError {
    /// Lifts a discovery failure to the tool level.
    pub fn from_discovery(e: DiscoveryError) -> (r: RappError)
        ensures
            e is NoCandidate ==> r is NoRappCrateFound && r->NoRappCrateFound_0
                == e->NoCandidate_0,
            e is AmbiguousCandidates ==> r is MultipleRappCratesFound
                && r->MultipleRappCratesFound_0 == e->AmbiguousCandidates_0,
    {
        match e {
            DiscoveryError::NoCandidate(dir) => RappError::NoRappCrateFound(dir),
            DiscoveryError::AmbiguousCandidates(names) => RappError::MultipleRappCratesFound(
                names,
            ),
        }
    }

    /// Lifts a build failure to the tool level.
    pub fn from_build(e: BuildError) -> (r: RappError)
        ensures
            e is MissingBuildScript ==> r is Other && r->Other_0@ == "File not found: "@
                + e->MissingBuildScript_0@,
            e is ArtifactNotProduced ==> r is Other && r->Other_0@
                == "Build did not generate a binary at "@ + e->ArtifactNotProduced_0@,
    {
        match e {
            BuildError::MissingBuildScript(path) => {
                let mut m: Vec<char> = Vec::new();
                push_str(&mut m, "File not found: ");
                push_text(&mut m, &path);
                RappError::Other(m)
            },
            BuildError::ArtifactNotProduced(path) => {
                let mut m: Vec<char> = Vec::new();
                push_str(&mut m, "Build did not generate a binary at ");
                push_text(&mut m, &path);
                RappError::Other(m)
            },
        }
    }

    /// Lifts a launch failure to the tool level.
    pub fn from_run(e: RunError) -> (r: RappError)
        ensures
            e is NotBuilt ==> r is Other && r->Other_0@ == "Viewer has not yet been build"@,
            e is ArtifactMissing ==> r is Other && r->Other_0@ == "Viewer binary not found at "@
                + e->ArtifactMissing_0@,
    {
        match e {
            RunError::NotBuilt => {
                let mut m: Vec<char> = Vec::new();
                push_str(&mut m, "Viewer has not yet been build");
                proof {
                    assert(m@ =~= "Viewer has not yet been build"@);
                }
                RappError::Other(m)
            },
            RunError::ArtifactMissing(path) => {
                let mut m: Vec<char> = Vec::new();
                push_str(&mut m, "Viewer binary not found at ");
                push_text(&mut m, &path);
                RappError::Other(m)
            },
        }
    }

    /// The user-facing message of the error.
    pub fn message(&self) -> (m: Vec<char>)
        ensures
            *self is NoRappCrateFound ==> m@
                == "Could not find a lib crate with dependency on rapp in dir "@
                + self->NoRappCrateFound_0@,
            *self is MultipleRappCratesFound ==> m@ == "Multiple candidates found: "@
                + joined_names(self->MultipleRappCratesFound_0.deep_view())
                + ". Please specify which one to use"@,
            *self is Other ==> m@ == self->Other_0@,
    {
        match self {
            RappError::NoRappCrateFound(dir) => {
                let mut m: Vec<char> = Vec::new();
                push_str(&mut m, "Could not find a lib crate with dependency on rapp in dir ");
                push_text(&mut m, dir);
                m
            },
            RappError::MultipleRappCratesFound(names) => {
                let mut m: Vec<char> = Vec::new();
                push_str(&mut m, "Multiple candidates found: ");
                let mut i: usize = 0;
                while i < names.len()
                    invariant
                        i <= names@.len(),
                        m@ == "Multiple candidates found: "@ + joined_names(
                            names.deep_view().take(i as int),
                        ),
                    decreases names@.len() - i,
                {
                    if i > 0 {
                        push_str(&mut m, ", ");
                    }
                    push_text(&mut m, &names[i]);
                    i = i + 1;
                    proof {
                        let pre = names.deep_view().take(i - 1);
                        let cur = names.deep_view().take(i as int);
                        assert(cur.drop_last() =~= pre);
                        assert(cur.last() == names.deep_view()[i - 1]);
                        assert(names.deep_view()[i - 1] == names@[i - 1]@);
                        assert(m@ =~= "Multiple candidates found: "@ + joined_names(cur));
                    }
                }
                proof {
                    assert(names.deep_view().take(names@.len() as int) =~= names.deep_view());
                }
                push_str(&mut m, ". Please specify which one to use");
                m
            },
            RappError::Other(msg) => clone_text(msg),
        }
    }
}

/// The names, separated by a comma and a space.
pub open spec fn joined_names(names: Seq<Seq<char>>) -> Seq<char>
    decreases names.len(),
{
    if names.len() == 0 {
        Seq::empty()
    } else if names.len() == 1 {
        names[0]
    } else {
        joined_names(names.drop_last()) + ", "@ + names.last()
    }
}

} // verus!

//! An earlier, reduced variant of the `show` workflow that only resolves the
//! candidate and persists a two-field record (name and the workspace's
//! build-output directory).  It shares the candidate rule and the record
//! syntax of the full workflow.

use vstd::prelude::*;

verus! {

use crate::config::name_is_qualifying;
use crate::config::qualifies;
use crate::config::rapp_candidates;
use crate::config::some_qualifier;
use crate::config::two_qualifier_names;
use crate::config::ambiguous_names_ok;
use crate::config::lemma_no_qualifier;
use crate::config::lemma_unique_candidate;
use crate::config::lemma_two_candidates;
use crate::config::lemma_ambiguous_names;
use crate::config::Metadata;
use crate::error::DiscoveryError;
use crate::text::clone_text;
use crate::text::esc;
use crate::text::lemma_scan_esc;
use crate::text::lemma_strip_prefix_exact;
use crate::text::push_escaped;
use crate::text::push_str;
use crate::text::scan_qstr;
use crate::text::scan_quoted;
use crate::text::strip_prefix;
use crate::text::take_prefix;

/// The reduced workflow.
pub struct Show;

/// The reduced persisted record: the chosen candidate and the workspace's
/// shared build-output directory.
#[derive(Debug, PartialEq)]
pub struct Config {
    pub name: Vec<char>,
    pub target_dir: Vec<char>,
}

/// The mathematical content of the reduced record.
#[verifier::ext_equal]
pub ghost struct ConfigV {
    pub name: Seq<char>,
    pub target_dir: Seq<char>,
}

impl View for Config {
    type V = ConfigV;

    open spec fn view(&self) -> ConfigV {
        ConfigV { name: self.name@, target_dir: self.target_dir@ }
    }
}

/// The serialized form of the reduced record.
pub open spec fn spec_encode_config(v: ConfigV) -> Seq<char> {
    "(name:\""@ + esc(v.name) + seq!['"'] + ",target_dir:\""@ + esc(v.target_dir) + seq!['"']
        + ")"@
}

/// What a stored text parses back to, if it is exactly a reduced record.
pub open spec fn spec_parse_config(t: Seq<char>) -> Option<ConfigV> {
    match strip_prefix(t, "(name:\""@) {
        None => None,
        Some(t1) => match scan_qstr(t1) {
            None => None,
            Some((name, t2)) => match strip_prefix(t2, ",target_dir:\""@) {
                None => None,
                Some(t3) => match scan_qstr(t3) {
                    None => None,
                    Some((target_dir, t4)) => match strip_prefix(t4, ")"@) {
                        None => None,
                        Some(t5) => if t5.len() == 0 {
                            Some(ConfigV { name, target_dir })
                        } else {
                            None
                        },
                    },
                },
            },
        },
    }
}

impl Config {
    /// Serializes the record.
    pub fn encode(&self) -> (out: Vec<char>)
        ensures
            out@ == spec_encode_config(self@),
    {
        let mut out: Vec<char> = Vec::new();
        push_str(&mut out, "(name:\"");
        push_escaped(&mut out, &self.name);
        out.push('"');
        push_str(&mut out, ",target_dir:\"");
        push_escaped(&mut out, &self.target_dir);
        out.push('"');
        push_str(&mut out, ")");
        proof {
            assert(out@ =~= spec_encode_config(self@));
        }
        out
    }

    /// Parses a stored text; anything else is a cache miss.
    pub fn decode(t: &Vec<char>) -> (r: Option<Config>)
        ensures
            match r {
                Some(c) => spec_parse_config(t@) == Some(c@),
                None => spec_parse_config(t@) is None,
            },
    {
        proof {
            assert(t@.skip(0) =~= t@);
        }
        let i1 = match take_prefix(t, 0, "(name:\"") {
            Some(i) => i,
            None => {
                return None;
            },
        };
        let (name, i2) = match scan_quoted(t, i1) {
            Some(p) => p,
            None => {
                return None;
            },
        };
        let i3 = match take_prefix(t, i2, ",target_dir:\"") {
            Some(i) => i,
            None => {
                return None;
            },
        };
        let (target_dir, i4) = match scan_quoted(t, i3) {
            Some(p) => p,
            None => {
                return None;
            },
        };
        let i5 = match take_prefix(t, i4, ")") {
            Some(i) => i,
            None => {
                return None;
            },
        };
        if i5 != t.len() {
            proof {
                assert(t@.skip(i5 as int).len() > 0);
            }
            return None;
        }
        proof {
            assert(t@.skip(i5 as int).len() == 0);
        }
        Some(Config { name, target_dir })
    }

    /// Where the record lives inside the temporary directory.
    pub fn full_path(dir: &Vec<char>) -> (r: Vec<char>)
        ensures
            r@ == dir@ + "/config"@,
    {
        let mut r = clone_text(dir);
        push_str(&mut r, "/config");
        r
    }
}

/// Serializing a reduced record and parsing the result gives the same record
/// back, field for field, whatever its fields hold.
pub proof fn lemma_show_config_round_trip(v: ConfigV)
    ensures
        spec_parse_config(spec_encode_config(v)) == Some(v),
{
    let q = seq!['"'];
    let s5 = Seq::<char>::empty();
    let s4 = ")"@ + s5;
    let s3 = esc(v.target_dir) + q + s4;
    let s2 = ",target_dir:\""@ + s3;
    let s1 = esc(v.name) + q + s2;
    let t = "(name:\""@ + s1;
    assert(t =~= spec_encode_config(v));
    lemma_strip_prefix_exact("(name:\""@, s1);
    lemma_scan_esc(v.name, s2);
    lemma_strip_prefix_exact(",target_dir:\""@, s3);
    lemma_scan_esc(v.target_dir, s4);
    lemma_strip_prefix_exact(")"@, s5);
    assert(spec_parse_config(t) == Some(v));
}

/// Resolves the workspace and builds the reduced record: the one candidate's
/// name and the workspace's shared build-output directory as the metadata
/// reports it.  Cardinality failures are those of the full workflow.
pub fn create_and_save(meta: &Metadata, dir: &Vec<char>) -> (r: Result<Config, DiscoveryError>)
    ensures
        meta.workspace_members@.len() == 0 ==> r is Err && r->Err_0 is NoCandidate
            && r->Err_0->NoCandidate_0@ == dir@,
        meta.workspace_members@.len() > 0 && !some_qualifier(meta.packages@) ==> r is Err
            && r->Err_0 is NoCandidate && r->Err_0->NoCandidate_0@ == dir@,
        meta.workspace_members@.len() > 0 && some_qualifier(meta.packages@)
            && !two_qualifier_names(meta.packages@) ==> r is Ok && {
            let c = r->Ok_0;
            &&& name_is_qualifying(meta.packages@, c.name@)
            &&& forall|j: int|
                0 <= j < meta.packages@.len() && qualifies(#[trigger] meta.packages@[j])
                    ==> c.name@ == meta.packages@[j].name@
            &&& c.target_dir@ == meta.target_directory@
        },
        meta.workspace_members@.len() > 0 && two_qualifier_names(meta.packages@) ==> r is Err
            && r->Err_0 is AmbiguousCandidates && ambiguous_names_ok(
            r->Err_0->AmbiguousCandidates_0@,
            meta.packages@,
        ),
{
    let cands = rapp_candidates(meta);
    if cands.len() == 0 {
        proof {
            if meta.workspace_members@.len() > 0 {
                lemma_no_qualifier(cands@, meta.packages@);
            }
        }
        Err(DiscoveryError::NoCandidate(clone_text(dir)))
    } else if cands.len() > 1 {
        let mut names: Vec<Vec<char>> = Vec::new();
        let mut x: usize = 0;
        while x < cands.len()
            invariant
                x <= cands@.len(),
                names@.len() == x,
                forall|a: int| 0 <= a < x ==> (#[trigger] names@[a])@ == cands@[a].name@,
            decreases cands@.len() - x,
        {
            names.push(clone_text(&cands[x].name));
            x = x + 1;
        }
        proof {
            lemma_two_candidates(cands@, meta.packages@);
            lemma_ambiguous_names(cands@, names@, meta.packages@);
        }
        Err(DiscoveryError::AmbiguousCandidates(names))
    } else {
        proof {
            lemma_unique_candidate(cands@, meta.packages@);
        }
        Ok(
            Config {
                name: clone_text(&cands[0].name),
                target_dir: clone_text(&meta.target_directory),
            },
        )
    }
}

impl Show {
    /// The cache decision of this variant: a stored text that parses is used
    /// as it stands; anything else is a miss and the workspace is resolved
    /// anew.
    pub fn cached_config(content: Option<Vec<char>>) -> (r: Option<Config>)
        ensures
            match content {
                Some(s) => match r {
                    Some(c) => spec_parse_config(s@) == Some(c@),
                    None => spec_parse_config(s@) is None,
                },
                None => r is None,
            },
    {
        match content {
            Some(s) => Config::decode(&s),
            None => None,
        }
    }
}

} // verus!

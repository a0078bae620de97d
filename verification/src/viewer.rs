//! The generated wrapper project and its persisted descriptor.
//!
//! The generator materializes a minimal executable project around the chosen
//! candidate: a manifest produced from one of two embedded templates by
//! substituting the candidate's name and the workspace root, a build script
//! that enters the cache directory and runs the standard build command, and
//! a fixed entry-point source copied verbatim.  The built binary's path is
//! persisted in a `Viewer` record beside the configuration.

use vstd::prelude::*;

verus! {

use crate::config::Config;
use crate::error::BuildError;
use crate::error::RunError;
use crate::text::bool_text;
use crate::text::clone_text;
use crate::text::esc;
use crate::text::has_char;
use crate::text::lemma_has_char_add;
use crate::text::lemma_no_marker_no_occurrence;
use crate::text::lemma_scan_bool_exact;
use crate::text::lemma_scan_esc;
use crate::text::lemma_strip_prefix_exact;
use crate::text::lemma_subst_at_marker;
use crate::text::occurs;
use crate::text::push_bool;
use crate::text::push_escaped;
use crate::text::push_str;
use crate::text::push_text;
use crate::text::replace_first;
use crate::text::scan_bool;
use crate::text::scan_boolean;
use crate::text::scan_qstr;
use crate::text::scan_quoted;
use crate::text::strip_prefix;
use crate::text::subst_first;
use crate::text::take_prefix;
use crate::text::text_of;

/// The persisted state of the generated wrapper project.
#[derive(Debug, PartialEq)]
pub struct Viewer {
    /// The built binary artifact; `None` until a build has succeeded.
    pub bin: Option<Vec<char>>,
    /// The generated project's root: the pipeline's cache directory.
    pub cache_dir: Vec<char>,
    /// The wrapper's build-output directory, taken from the configuration.
    pub target_dir: Vec<char>,
    /// Which template variant the project was generated from.
    pub use_relative_paths: bool,
}

/// The mathematical content of a `Viewer`.
#[verifier::ext_equal]
pub ghost struct ViewerV {
    pub bin: Option<Seq<char>>,
    pub cache_dir: Seq<char>,
    pub target_dir: Seq<char>,
    pub use_relative_paths: bool,
}

impl View for Viewer {
    type V = ViewerV;

    open spec fn view(&self) -> ViewerV {
        ViewerV {
            bin: match self.bin {
                Some(ref b) => Some(b@),
                None => None,
            },
            cache_dir: self.cache_dir@,
            target_dir: self.target_dir@,
            use_relative_paths: self.use_relative_paths,
        }
    }
}

/// How the optional binary path is written.
pub open spec fn opt_text(o: Option<Seq<char>>) -> Seq<char> {
    match o {
        None => "None"@,
        Some(s) => "Some(\""@ + esc(s) + seq!['"'] + ")"@,
    }
}

/// Reads an optional binary path from the front of `t`.
pub open spec fn scan_opt(t: Seq<char>) -> Option<(Option<Seq<char>>, Seq<char>)> {
    match strip_prefix(t, "None"@) {
        Some(rest) => Some((None, rest)),
        None => match strip_prefix(t, "Some(\""@) {
            None => None,
            Some(t1) => match scan_qstr(t1) {
                None => None,
                Some((s, t2)) => match strip_prefix(t2, ")"@) {
                    None => None,
                    Some(rest) => Some((Some(s), rest)),
                },
            },
        },
    }
}

/// A written optional path at the front of a text scans back to itself.
pub proof fn lemma_scan_opt_exact(o: Option<Seq<char>>, rest: Seq<char>)
    ensures
        scan_opt(opt_text(o) + rest) == Some((o, rest)),
{
    reveal_strlit("None");
    reveal_strlit("Some(\"");
    reveal_strlit(")");
    match o {
        None => {
            lemma_strip_prefix_exact("None"@, rest);
        },
        Some(s) => {
            let t = opt_text(o) + rest;
            let inner = esc(s) + seq!['"'] + (")"@ + rest);
            assert(t =~= "Some(\""@ + inner);
            assert(t[0] == 'S');
            if "None"@.len() <= t.len() && t.take("None"@.len() as int) == "None"@ {
                assert(t.take("None"@.len() as int)[0] == t[0]);
                assert("None"@[0] == 'N');
            }
            assert(strip_prefix(t, "None"@) is None);
            lemma_strip_prefix_exact("Some(\""@, inner);
            lemma_scan_esc(s, ")"@ + rest);
            lemma_strip_prefix_exact(")"@, rest);
        },
    }
}

/// Reads an optional binary path starting at position `i` of `t`.
pub fn scan_option(t: &Vec<char>, i: usize) -> (r: Option<(Option<Vec<char>>, usize)>)
    requires
        i <= t@.len(),
    ensures
        match r {
            Some(p) => {
                &&& i <= p.1 <= t@.len()
                &&& scan_opt(t@.skip(i as int)) == Some(
                    (
                        match p.0 {
                            Some(ref b) => Some(b@),
                            None => None,
                        },
                        t@.skip(p.1 as int),
                    ),
                )
            },
            None => scan_opt(t@.skip(i as int)) is None,
        },
{
    match take_prefix(t, i, "None") {
        Some(j) => Some((None, j)),
        None => {
            let i1 = match take_prefix(t, i, "Some(\"") {
                Some(j) => j,
                None => {
                    return None;
                },
            };
            let (s, i2) = match scan_quoted(t, i1) {
                Some(p) => p,
                None => {
                    return None;
                },
            };
            match take_prefix(t, i2, ")") {
                Some(j) => Some((Some(s), j)),
                None => None,
            }
        },
    }
}

/// The serialized form of a `Viewer`.
pub open spec fn spec_encode_viewer(v: ViewerV) -> Seq<char> {
    "(bin:"@ + opt_text(v.bin) + ",cache_dir:\""@ + esc(v.cache_dir) + seq!['"']
        + ",target_dir:\""@ + esc(v.target_dir) + seq!['"'] + ",use_relative_paths:"@ + bool_text(
        v.use_relative_paths,
    ) + ")"@
}

/// What a stored text parses back to: the `Viewer` it denotes, or nothing.
pub open spec fn spec_parse_viewer(t: Seq<char>) -> Option<ViewerV> {
    match strip_prefix(t, "(bin:"@) {
        None => None,
        Some(t1) => match scan_opt(t1) {
            None => None,
            Some((bin, t2)) => match strip_prefix(t2, ",cache_dir:\""@) {
                None => None,
                Some(t3) => match scan_qstr(t3) {
                    None => None,
                    Some((cache_dir, t4)) => match strip_prefix(t4, ",target_dir:\""@) {
                        None => None,
                        Some(t5) => match scan_qstr(t5) {
                            None => None,
                            Some((target_dir, t6)) => match strip_prefix(
                                t6,
                                ",use_relative_paths:"@,
                            ) {
                                None => None,
                                Some(t7) => match scan_bool(t7) {
                                    None => None,
                                    Some((use_relative_paths, t8)) => match strip_prefix(
                                        t8,
                                        ")"@,
                                    ) {
                                        None => None,
                                        Some(t9) => if t9.len() == 0 {
                                            Some(
                                                ViewerV {
                                                    bin,
                                                    cache_dir,
                                                    target_dir,
                                                    use_relative_paths,
                                                },
                                            )
                                        } else {
                                            None
                                        },
                                    },
                                },
                            },
                        },
                    },
                },
            },
        },
    }
}

impl Viewer {
    /// Serializes the record.
    pub fn encode(&self) -> (out: Vec<char>)
        ensures
            out@ == spec_encode_viewer(self@),
    {
        let mut out: Vec<char> = Vec::new();
        push_str(&mut out, "(bin:");
        match &self.bin {
            None => {
                push_str(&mut out, "None");
            },
            Some(b) => {
                push_str(&mut out, "Some(\"");
                push_escaped(&mut out, b);
                out.push('"');
                push_str(&mut out, ")");
            },
        }
        push_str(&mut out, ",cache_dir:\"");
        push_escaped(&mut out, &self.cache_dir);
        out.push('"');
        push_str(&mut out, ",target_dir:\"");
        push_escaped(&mut out, &self.target_dir);
        out.push('"');
        push_str(&mut out, ",use_relative_paths:");
        push_bool(&mut out, self.use_relative_paths);
        push_str(&mut out, ")");
        proof {
            assert(out@ =~= spec_encode_viewer(self@));
        }
        out
    }

    /// Parses a stored text; anything but an exact serialized record yields
    /// `None` (the caller treats that as a cache miss).
    pub fn decode(t: &Vec<char>) -> (r: Option<Viewer>)
        ensures
            match r {
                Some(v) => spec_parse_viewer(t@) == Some(v@),
                None => spec_parse_viewer(t@) is None,
            },
    {
        proof {
            assert(t@.skip(0) =~= t@);
        }
        let i1 = match take_prefix(t, 0, "(bin:") {
            Some(i) => i,
            None => {
                return None;
            },
        };
        let (bin, i2) = match scan_option(t, i1) {
            Some(p) => p,
            None => {
                return None;
            },
        };
        let i3 = match take_prefix(t, i2, ",cache_dir:\"") {
            Some(i) => i,
            None => {
                return None;
            },
        };
        let (cache_dir, i4) = match scan_quoted(t, i3) {
            Some(p) => p,
            None => {
                return None;
            },
        };
        let i5 = match take_prefix(t, i4, ",target_dir:\"") {
            Some(i) => i,
            None => {
                return None;
            },
        };
        let (target_dir, i6) = match scan_quoted(t, i5) {
            Some(p) => p,
            None => {
                return None;
            },
        };
        let i7 = match take_prefix(t, i6, ",use_relative_paths:") {
            Some(i) => i,
            None => {
                return None;
            },
        };
        let (use_relative_paths, i8) = match scan_boolean(t, i7) {
            Some(p) => p,
            None => {
                return None;
            },
        };
        let i9 = match take_prefix(t, i8, ")") {
            Some(i) => i,
            None => {
                return None;
            },
        };
        if i9 != t.len() {
            proof {
                assert(t@.skip(i9 as int).len() > 0);
            }
            return None;
        }
        proof {
            assert(t@.skip(i9 as int).len() == 0);
        }
        Some(Viewer { bin, cache_dir, target_dir, use_relative_paths })
    }

    /// Where the record lives inside a cache directory.
    pub fn viewer_file_path(dir: &Vec<char>) -> (r: Vec<char>)
        ensures
            r@ == dir@ + "/viewer"@,
    {
        let mut r = clone_text(dir);
        push_str(&mut r, "/viewer");
        r
    }

    /// The descriptor of a freshly generated, not yet built project.
    pub fn fresh(config: &Config) -> (v: Viewer)
        ensures
            v@.bin is None,
            v@.cache_dir == config.scratch_dir@,
            v@.target_dir == config.target_dir@,
            v@.use_relative_paths == config.use_relative_paths,
    {
        Viewer {
            bin: None,
            cache_dir: clone_text(&config.scratch_dir),
            target_dir: clone_text(&config.target_dir),
            use_relative_paths: config.use_relative_paths,
        }
    }
}

/// Serializing a viewer descriptor and parsing the result gives the same
/// record back, field for field, whatever its fields hold.
#[verifier::rlimit(100)]
pub proof fn lemma_viewer_round_trip(v: ViewerV)
    ensures
        spec_parse_viewer(spec_encode_viewer(v)) == Some(v),
{
    let q = seq!['"'];
    let s9 = Seq::<char>::empty();
    let s8 = ")"@ + s9;
    let s7 = bool_text(v.use_relative_paths) + s8;
    let s6 = ",use_relative_paths:"@ + s7;
    let s5 = esc(v.target_dir) + q + s6;
    let s4 = ",target_dir:\""@ + s5;
    let s3 = esc(v.cache_dir) + q + s4;
    let s2 = ",cache_dir:\""@ + s3;
    let s1 = opt_text(v.bin) + s2;
    let t = "(bin:"@ + s1;
    assert(t =~= spec_encode_viewer(v));
    lemma_strip_prefix_exact("(bin:"@, s1);
    lemma_scan_opt_exact(v.bin, s2);
    lemma_strip_prefix_exact(",cache_dir:\""@, s3);
    lemma_scan_esc(v.cache_dir, s4);
    lemma_strip_prefix_exact(",target_dir:\""@, s5);
    lemma_scan_esc(v.target_dir, s6);
    lemma_strip_prefix_exact(",use_relative_paths:"@, s7);
    lemma_scan_bool_exact(v.use_relative_paths, s8);
    lemma_strip_prefix_exact(")"@, s9);
    assert(strip_prefix(t, "(bin:"@) == Some(s1));
    assert(scan_opt(s1) == Some((v.bin, s2)));
    assert(strip_prefix(s2, ",cache_dir:\""@) == Some(s3));
    assert(scan_qstr(s3) == Some((v.cache_dir, s4)));
    assert(strip_prefix(s4, ",target_dir:\""@) == Some(s5));
    assert(scan_qstr(s5) == Some((v.target_dir, s6)));
    assert(strip_prefix(s6, ",use_relative_paths:"@) == Some(s7));
    assert(scan_bool(s7) == Some((v.use_relative_paths, s8)));
    assert(strip_prefix(s8, ")"@) == Some(s9));
    assert(spec_parse_viewer(t) == Some(v));
}

/// The fixed part of the manifest template before the candidate-name
/// placeholder.
pub open spec fn manifest_pre() -> Seq<char> {
    "[package]\nname = \"rapp_runner\"\nversion = \"0.1.0\"\nedition = \"2021\"\n\n[dependencies]\napp = { package = \""@
}

/// The fixed part between the candidate-name and directory placeholders.
pub open spec fn manifest_mid() -> Seq<char> {
    "\", path = \""@
}

/// The fixed tail of the template: the helper crates, either through the
/// registry or by relative paths inside their own workspace (the latter is
/// used by the library developers themselves).
pub open spec fn manifest_post(use_relative_paths: bool) -> Seq<char> {
    if use_relative_paths {
        "\" }\nrapp = { path = \"../../../../rapp\" }\nrunner = { path = \"../../../../runner\" }\n"@
    } else {
        "\" }\nrapp = \"*\"\nrunner = \"*\"\n"@
    }
}

/// The manifest template selected by the configuration flag, holding one
/// candidate-name placeholder and one directory placeholder.
pub open spec fn spec_manifest_template(use_relative_paths: bool) -> Seq<char> {
    manifest_pre() + "${name}"@ + manifest_mid() + "${dir}"@ + manifest_post(use_relative_paths)
}

/// Builds the selected manifest template.
pub fn manifest_template(use_relative_paths: bool) -> (out: Vec<char>)
    ensures
        out@ == spec_manifest_template(use_relative_paths),
{
    let mut out: Vec<char> = Vec::new();
    push_str(
        &mut out,
        "[package]\nname = \"rapp_runner\"\nversion = \"0.1.0\"\nedition = \"2021\"\n\n[dependencies]\napp = { package = \"",
    );
    push_str(&mut out, "${name}");
    push_str(&mut out, "\", path = \"");
    push_str(&mut out, "${dir}");
    if use_relative_paths {
        push_str(
            &mut out,
            "\" }\nrapp = { path = \"../../../../rapp\" }\nrunner = { path = \"../../../../runner\" }\n",
        );
    } else {
        push_str(&mut out, "\" }\nrapp = \"*\"\nrunner = \"*\"\n");
    }
    proof {
        assert(out@ =~= spec_manifest_template(use_relative_paths));
    }
    out
}

/// No fixed part of either template variant holds the marker character.
proof fn lemma_template_pieces_clean()
    ensures
        !has_char(manifest_pre(), '$'),
        !has_char(manifest_mid(), '$'),
        !has_char(manifest_post(true), '$'),
        !has_char(manifest_post(false), '$'),
{
    reveal_strlit(
        "[package]\nname = \"rapp_runner\"\nversion = \"0.1.0\"\nedition = \"2021\"\n\n[dependencies]\napp = { package = \"",
    );
    reveal_strlit("\", path = \"");
    reveal_strlit(
        "\" }\nrapp = { path = \"../../../../rapp\" }\nrunner = { path = \"../../../../runner\" }\n",
    );
    reveal_strlit("\" }\nrapp = \"*\"\nrunner = \"*\"\n");
    assert forall|i: int| 0 <= i < manifest_pre().len() implies manifest_pre()[i] != '$' by {}
    assert forall|i: int| 0 <= i < manifest_mid().len() implies manifest_mid()[i] != '$' by {}
    assert forall|i: int| 0 <= i < manifest_post(true).len() implies manifest_post(true)[i]
        != '$' by {}
    assert forall|i: int| 0 <= i < manifest_post(false).len() implies manifest_post(false)[i]
        != '$' by {}
}

/// What the generated manifest is: the selected template with the first
/// occurrence of the name placeholder replaced by the candidate's name and
/// then the first occurrence of the directory placeholder replaced by the
/// workspace root.
pub open spec fn spec_generated_manifest(v: crate::config::ConfigV) -> Seq<char> {
    subst_first(
        subst_first(spec_manifest_template(v.use_relative_paths), "${name}"@, v.name),
        "${dir}"@,
        v.app_dir,
    )
}

/// Produces the manifest of the generated project for this configuration.
pub fn generate_manifest(config: &Config) -> (out: Vec<char>)
    ensures
        out@ == spec_generated_manifest(config@),
{
    let template = manifest_template(config.use_relative_paths);
    let name_pat = text_of("${name}");
    let dir_pat = text_of("${dir}");
    let step = replace_first(&template, &name_pat, &config.name);
    replace_first(&step, &dir_pat, &config.app_dir)
}

/// Template substitution replaces each placeholder exactly once and leaves
/// no placeholder token behind: substituting into any template of the shape
/// `pre + "${name}" + mid + "${dir}" + post` whose fixed parts are free of
/// the marker character, with substituted values also free of it, yields
/// exactly `pre + name + mid + dir + post`, in which neither placeholder
/// token occurs and no marker character remains.
pub proof fn lemma_template_substitution(
    pre: Seq<char>,
    mid: Seq<char>,
    post: Seq<char>,
    name: Seq<char>,
    dir: Seq<char>,
)
    requires
        !has_char(pre, '$'),
        !has_char(mid, '$'),
        !has_char(post, '$'),
        !has_char(name, '$'),
        !has_char(dir, '$'),
    ensures
        ({
            let t = pre + "${name}"@ + (mid + "${dir}"@ + post);
            let out = subst_first(subst_first(t, "${name}"@, name), "${dir}"@, dir);
            &&& out == pre + name + mid + dir + post
            &&& !occurs(out, "${name}"@)
            &&& !occurs(out, "${dir}"@)
            &&& !has_char(out, '$')
        }),
{
    reveal_strlit("${name}");
    reveal_strlit("${dir}");
    assert("${name}"@[0] == '$');
    assert("${dir}"@[0] == '$');
    let t = pre + "${name}"@ + (mid + "${dir}"@ + post);
    lemma_subst_at_marker(pre, "${name}"@, mid + "${dir}"@ + post, name);
    let step = subst_first(t, "${name}"@, name);
    assert(step == pre + name + (mid + "${dir}"@ + post));
    let pre2 = pre + name + mid;
    lemma_has_char_add(pre, name, '$');
    lemma_has_char_add(pre + name, mid, '$');
    assert(!has_char(pre2, '$'));
    assert(step =~= pre2 + "${dir}"@ + post);
    lemma_subst_at_marker(pre2, "${dir}"@, post, dir);
    let out = subst_first(step, "${dir}"@, dir);
    assert(out == pre2 + dir + post);
    lemma_has_char_add(pre2, dir, '$');
    lemma_has_char_add(pre2 + dir, post, '$');
    assert(!has_char(pre2 + dir + post, '$'));
    assert(out =~= pre + name + mid + dir + post);
    lemma_no_marker_no_occurrence(out, "${name}"@);
    lemma_no_marker_no_occurrence(out, "${dir}"@);
}

/// The generated manifest of a configuration whose candidate name and
/// workspace root are free of the marker character holds both substituted
/// values and neither placeholder token nor any marker character.
pub proof fn lemma_generated_manifest_clean(v: crate::config::ConfigV)
    requires
        !has_char(v.name, '$'),
        !has_char(v.app_dir, '$'),
    ensures
        spec_generated_manifest(v) == manifest_pre() + v.name + manifest_mid() + v.app_dir
            + manifest_post(v.use_relative_paths),
        !occurs(spec_generated_manifest(v), "${name}"@),
        !occurs(spec_generated_manifest(v), "${dir}"@),
        !has_char(spec_generated_manifest(v), '$'),
{
    lemma_template_pieces_clean();
    let pre = manifest_pre();
    let mid = manifest_mid();
    let post = manifest_post(v.use_relative_paths);
    lemma_template_substitution(pre, mid, post, v.name, v.app_dir);
    assert(spec_manifest_template(v.use_relative_paths) =~= pre + "${name}"@ + (mid + "${dir}"@
        + post));
    assert(spec_generated_manifest(v) =~= pre + v.name + mid + v.app_dir + post);
}

/// The fixed entry point of the generated project, copied verbatim and never
/// substituted into.
pub open spec fn spec_main_source() -> Seq<char> {
    "use rapp::RustApp;\n\nfn main() {\n    let app = app::App::new();\n    runner::run(Box::new(app)).unwrap();\n}\n"@
}

/// Builds the fixed entry-point source.
pub fn main_source() -> (out: Vec<char>)
    ensures
        out@ == spec_main_source(),
{
    text_of(
        "use rapp::RustApp;\n\nfn main() {\n    let app = app::App::new();\n    runner::run(Box::new(app)).unwrap();\n}\n",
    )
}

/// The build script: enter the cache directory, then run the standard build
/// command.
pub open spec fn spec_build_script(cache_dir: Seq<char>) -> Seq<char> {
    "cd \""@ + cache_dir + "\"\ncargo build"@
}

/// Builds the build script for a cache directory.
pub fn build_script(cache_dir: &Vec<char>) -> (out: Vec<char>)
    ensures
        out@ == spec_build_script(cache_dir@),
{
    let mut out: Vec<char> = Vec::new();
    push_str(&mut out, "cd \"");
    push_text(&mut out, cache_dir);
    push_str(&mut out, "\"\ncargo build");
    out
}

/// One file of the generated project: where it goes and what it holds.
#[derive(Debug, PartialEq)]
pub struct FileOut {
    pub path: Vec<char>,
    pub content: Vec<char>,
}

/// Where the generated manifest goes.
pub fn manifest_path(cache_dir: &Vec<char>) -> (r: Vec<char>)
    ensures
        r@ == cache_dir@ + "/Cargo.toml"@,
{
    let mut r = clone_text(cache_dir);
    push_str(&mut r, "/Cargo.toml");
    r
}

/// Where the generated build script goes.
pub fn build_script_path(cache_dir: &Vec<char>) -> (r: Vec<char>)
    ensures
        r@ == cache_dir@ + "/build.sh"@,
{
    let mut r = clone_text(cache_dir);
    push_str(&mut r, "/build.sh");
    r
}

/// The source directory of the generated project.
pub fn src_dir_path(cache_dir: &Vec<char>) -> (r: Vec<char>)
    ensures
        r@ == cache_dir@ + "/src"@,
{
    let mut r = clone_text(cache_dir);
    push_str(&mut r, "/src");
    r
}

/// Where the fixed entry point goes.
pub fn main_source_path(cache_dir: &Vec<char>) -> (r: Vec<char>)
    ensures
        r@ == cache_dir@ + "/src/main.rs"@,
{
    let mut r = clone_text(cache_dir);
    push_str(&mut r, "/src/main.rs");
    r
}

/// Where the build is expected to leave the binary artifact.
pub fn expected_bin_path(target_dir: &Vec<char>) -> (r: Vec<char>)
    ensures
        r@ == target_dir@ + "/target/debug/rapp_runner"@,
{
    let mut r = clone_text(target_dir);
    push_str(&mut r, "/target/debug/rapp_runner");
    r
}

/// The three files the generator writes into the cache directory, in order:
/// the substituted manifest, the build script, and the verbatim entry point.
pub fn generation_plan(config: &Config) -> (r: Vec<FileOut>)
    ensures
        r@.len() == 3,
        r@[0].path@ == config.scratch_dir@ + "/Cargo.toml"@,
        r@[0].content@ == spec_generated_manifest(config@),
        r@[1].path@ == config.scratch_dir@ + "/build.sh"@,
        r@[1].content@ == spec_build_script(config.scratch_dir@),
        r@[2].path@ == config.scratch_dir@ + "/src/main.rs"@,
        r@[2].content@ == spec_main_source(),
{
    let mut r: Vec<FileOut> = Vec::new();
    r.push(
        FileOut { path: manifest_path(&config.scratch_dir), content: generate_manifest(config) },
    );
    r.push(
        FileOut {
            path: build_script_path(&config.scratch_dir),
            content: build_script(&config.scratch_dir),
        },
    );
    r.push(FileOut { path: main_source_path(&config.scratch_dir), content: main_source() });
    r
}

impl Viewer {
    /// The launch check: the recorded binary, when one is recorded and the
    /// driver confirms it still exists on disk; `NotBuilt` when none is
    /// recorded; `ArtifactMissing` when it is recorded but gone.
    pub fn launch_check(&self, bin_exists: bool) -> (r: Result<Vec<char>, RunError>)
        ensures
            self@.bin is None ==> r is Err && r->Err_0 is NotBuilt,
            self@.bin is Some && !bin_exists ==> r is Err && r->Err_0 is ArtifactMissing
                && r->Err_0->ArtifactMissing_0@ == self@.bin->0,
            self@.bin is Some && bin_exists ==> r is Ok && r->Ok_0@ == self@.bin->0,
    {
        match &self.bin {
            None => Err(RunError::NotBuilt),
            Some(b) => {
                if bin_exists {
                    Ok(clone_text(b))
                } else {
                    Err(RunError::ArtifactMissing(clone_text(b)))
                }
            },
        }
    }

    /// The build outcome: artifact presence, not the build command's exit
    /// status, decides.  With the artifact present the binary path is
    /// recorded; without it the build failed.
    pub fn build_outcome(self, artifact_present: bool) -> (r: Result<Viewer, BuildError>)
        ensures
            artifact_present ==> r is Ok && {
                let v = r->Ok_0;
                &&& v@.bin == Some(self@.target_dir + "/target/debug/rapp_runner"@)
                &&& v@.cache_dir == self@.cache_dir
                &&& v@.target_dir == self@.target_dir
                &&& v@.use_relative_paths == self@.use_relative_paths
            },
            !artifact_present ==> r is Err && r->Err_0 is ArtifactNotProduced
                && r->Err_0->ArtifactNotProduced_0@ == self@.target_dir
                + "/target/debug/rapp_runner"@,
    {
        let bin = expected_bin_path(&self.target_dir);
        if artifact_present {
            Ok(Viewer { bin: Some(bin), ..self })
        } else {
            Err(BuildError::ArtifactNotProduced(bin))
        }
    }
}

} // verus!

//! Workspace discovery and the persisted configuration record.
//!
//! The resolver inspects a plain model of the workspace metadata (package
//! names, dependency kinds, target kinds) and selects the one library unit
//! that depends on the target library.  The chosen selection is persisted as
//! a small human-readable record in the cache directory.

use vstd::prelude::*;

verus! {

use crate::error::DiscoveryError;
use crate::text::bool_text;
use crate::text::clone_text;
use crate::text::esc;
use crate::text::lemma_lex_lt_irrefl;
use crate::text::lemma_lex_lt_total;
use crate::text::lemma_lex_lt_trans;
use crate::text::lemma_scan_bool_exact;
use crate::text::lemma_scan_esc;
use crate::text::lemma_strip_prefix_exact;
use crate::text::lex_lt;
use crate::text::push_bool;
use crate::text::push_escaped;
use crate::text::push_str;
use crate::text::scan_bool;
use crate::text::scan_boolean;
use crate::text::scan_qstr;
use crate::text::scan_quoted;
use crate::text::strip_prefix;
use crate::text::take_prefix;
use crate::text::text_eq;
use crate::text::text_lt;
use crate::text::text_of;

/// How a package depends on another.
#[derive(Clone, Copy, Debug, PartialEq, Eq, Structural)]
pub enum DependencyKind {
    /// An ordinary dependency.
    Normal,
    /// Used by tests only.
    Development,
    /// Used by build scripts only.
    Build,
    /// Anything the metadata query could not classify.
    Unknown,
}

/// One declared dependency of a package: the depended-on name and the kind.
#[derive(Debug)]
pub struct Dependency {
    pub name: Vec<char>,
    pub kind: DependencyKind,
}

/// One build target of a package; all that matters here is whether it is a
/// library target.
#[derive(Clone, Copy, Debug)]
pub struct Target {
    pub is_lib: bool,
}

/// One package of the workspace metadata.
#[derive(Debug)]
pub struct Package {
    pub name: Vec<char>,
    pub targets: Vec<Target>,
    pub dependencies: Vec<Dependency>,
}

/// The workspace metadata the resolver consumes: every known package, the
/// workspace members, and the shared build-output directory.
#[derive(Debug)]
pub struct Metadata {
    pub packages: Vec<Package>,
    pub workspace_members: Vec<Vec<char>>,
    pub target_directory: Vec<char>,
}

/// The mathematical content of a dependency: name and kind.
pub ghost struct DependencyModel {
    pub name: Seq<char>,
    pub kind: DependencyKind,
}

/// The mathematical content of a package.
#[verifier::ext_equal]
pub ghost struct PackageModel {
    pub name: Seq<char>,
    pub targets: Seq<bool>,
    pub dependencies: Seq<DependencyModel>,
}

pub open spec fn dependency_model(d: Dependency) -> DependencyModel {
    DependencyModel { name: d.name@, kind: d.kind }
}

pub open spec fn package_model(p: Package) -> PackageModel {
    PackageModel {
        name: p.name@,
        targets: p.targets@.map_values(|t: Target| t.is_lib),
        dependencies: p.dependencies@.map_values(|d: Dependency| dependency_model(d)),
    }
}

/// The name of the target library whose dependents are searched for.
pub open spec fn target_lib_name() -> Seq<char> {
    "rapp"@
}

/// The reserved name of the wrapper project itself, never a candidate.
pub open spec fn reserved_wrapper_name() -> Seq<char> {
    "runner"@
}

/// All build targets of the package are library targets.
pub open spec fn all_targets_lib(m: PackageModel) -> bool {
    forall|k: int| 0 <= k < m.targets.len() ==> m.targets[k]
}

/// The package declares an ordinary (non-dev, non-build) dependency on the
/// target library.
pub open spec fn has_normal_dep_on_target(m: PackageModel) -> bool {
    exists|k: int|
        0 <= k < m.dependencies.len() && (#[trigger] m.dependencies[k]).name == target_lib_name()
            && m.dependencies[k].kind == DependencyKind::Normal
}

/// The package is a candidate: a pure library, not the reserved wrapper, and
/// an ordinary dependent of the target library.
pub open spec fn qualifies_model(m: PackageModel) -> bool {
    &&& all_targets_lib(m)
    &&& m.name != reserved_wrapper_name()
    &&& has_normal_dep_on_target(m)
}

pub open spec fn qualifies(p: Package) -> bool {
    qualifies_model(package_model(p))
}

/// Checks whether every target of `p` is a library target.
fn check_all_targets_lib(p: &Package) -> (r: bool)
    ensures
        r == all_targets_lib(package_model(*p)),
{
    let ghost m = package_model(*p);
    let mut k: usize = 0;
    while k < p.targets.len()
        invariant
            k <= p.targets@.len(),
            m == package_model(*p),
            m.targets.len() == p.targets@.len(),
            forall|j: int| 0 <= j < k ==> m.targets[j],
        decreases p.targets@.len() - k,
    {
        proof {
            assert(m.targets[k as int] == p.targets@[k as int].is_lib);
        }
        if !p.targets[k].is_lib {
            return false;
        }
        k = k + 1;
    }
    true
}

/// Checks whether `p` declares an ordinary dependency on the target library.
fn check_normal_dep_on_target(p: &Package) -> (r: bool)
    ensures
        r == has_normal_dep_on_target(package_model(*p)),
{
    let ghost m = package_model(*p);
    let target = text_of("rapp");
    let mut k: usize = 0;
    while k < p.dependencies.len()
        invariant
            k <= p.dependencies@.len(),
            m == package_model(*p),
            target@ == target_lib_name(),
            m.dependencies.len() == p.dependencies@.len(),
            forall|j: int| 0 <= j < k ==> !((#[trigger] m.dependencies[j]).name
                == target_lib_name() && m.dependencies[j].kind == DependencyKind::Normal),
        decreases p.dependencies@.len() - k,
    {
        proof {
            assert(m.dependencies[k as int] == dependency_model(p.dependencies@[k as int]));
        }
        let d = &p.dependencies[k];
        if d.kind == DependencyKind::Normal && text_eq(&d.name, &target) {
            return true;
        }
        k = k + 1;
    }
    false
}

/// Checks whether `p` qualifies as a candidate.
fn check_qualifies(p: &Package) -> (r: bool)
    ensures
        r == qualifies(*p),
{
    let reserved = text_of("runner");
    if !check_all_targets_lib(p) {
        return false;
    }
    if text_eq(&p.name, &reserved) {
        return false;
    }
    check_normal_dep_on_target(p)
}

/// Copies a package, field for field.
fn clone_package(p: &Package) -> (r: Package)
    ensures
        package_model(r) == package_model(*p),
{
    let name = clone_text(&p.name);
    let mut targets: Vec<Target> = Vec::new();
    let mut k: usize = 0;
    while k < p.targets.len()
        invariant
            k <= p.targets@.len(),
            targets@.len() == k,
            forall|j: int| 0 <= j < k ==> targets@[j].is_lib == p.targets@[j].is_lib,
        decreases p.targets@.len() - k,
    {
        targets.push(Target { is_lib: p.targets[k].is_lib });
        k = k + 1;
    }
    let mut dependencies: Vec<Dependency> = Vec::new();
    let mut k2: usize = 0;
    while k2 < p.dependencies.len()
        invariant
            k2 <= p.dependencies@.len(),
            dependencies@.len() == k2,
            forall|j: int| 0 <= j < k2 ==> dependency_model(#[trigger] dependencies@[j])
                == dependency_model(p.dependencies@[j]),
        decreases p.dependencies@.len() - k2,
    {
        let d = &p.dependencies[k2];
        dependencies.push(Dependency { name: clone_text(&d.name), kind: d.kind });
        k2 = k2 + 1;
    }
    let r = Package { name, targets, dependencies };
    proof {
        assert(package_model(r).targets =~= package_model(*p).targets);
        assert(package_model(r).dependencies =~= package_model(*p).dependencies);
        assert(package_model(r) =~= package_model(*p));
    }
    r
}

/// The collected candidates are strictly sorted by name.
pub open spec fn sorted_by_name(s: Seq<Package>) -> bool {
    forall|a: int, b: int| 0 <= a < b < s.len() ==> lex_lt(s[a].name@, s[b].name@)
}

/// Every collected candidate qualifies and is, field for field, one of the
/// first `j` known packages.
pub open spec fn all_from(s: Seq<Package>, pkgs: Seq<Package>, j: int) -> bool {
    forall|a: int|
        0 <= a < s.len() ==> qualifies(#[trigger] s[a]) && exists|jj: int|
            0 <= jj < j && package_model(s[a]) == package_model(pkgs[jj])
}

/// Every qualifying package among the first `j` known ones has its name in
/// the collection.
pub open spec fn covers(s: Seq<Package>, pkgs: Seq<Package>, j: int) -> bool {
    forall|jj: int|
        0 <= jj < j && qualifies(#[trigger] pkgs[jj]) ==> exists|a: int|
            0 <= a < s.len() && (#[trigger] s[a]).name@ == pkgs[jj].name@
}

/// Inserting a qualifying copy of package `j` at its sorted position keeps
/// all collection invariants.
#[verifier::rlimit(100)]
proof fn lemma_insert_candidate(
    old_out: Seq<Package>,
    new_out: Seq<Package>,
    pkgs: Seq<Package>,
    j: int,
    k: int,
    cp: Package,
)
    requires
        0 <= j < pkgs.len(),
        0 <= k <= old_out.len(),
        new_out == old_out.insert(k, cp),
        package_model(cp) == package_model(pkgs[j]),
        qualifies(pkgs[j]),
        forall|a: int| 0 <= a < k ==> lex_lt((#[trigger] old_out[a]).name@, cp.name@),
        forall|b: int| k <= b < old_out.len() ==> lex_lt(cp.name@, (#[trigger] old_out[b]).name@),
        sorted_by_name(old_out),
        all_from(old_out, pkgs, j),
        covers(old_out, pkgs, j),
    ensures
        sorted_by_name(new_out),
        all_from(new_out, pkgs, j + 1),
        covers(new_out, pkgs, j + 1),
{
    old_out.insert_ensures(k, cp);
    assert(cp.name@ == package_model(pkgs[j]).name);
    assert(new_out.len() == old_out.len() + 1);
    assert(qualifies(cp));
    assert forall|i: int| 0 <= i < k implies new_out[i] == old_out[i] by {}
    assert forall|i: int| k < i < new_out.len() implies new_out[i] == old_out[i - 1] by {
        assert(old_out.insert(k, cp)[i - 1 + 1] == old_out[i - 1]);
    }
    assert(new_out[k] == cp);
    assert forall|a: int, b: int| 0 <= a < b < new_out.len() implies lex_lt(
        new_out[a].name@,
        new_out[b].name@,
    ) by {
        if a < k && b < k {
            assert(new_out[a] == old_out[a]);
            assert(new_out[b] == old_out[b]);
        } else if a < k && b == k {
            assert(new_out[a] == old_out[a]);
        } else if a < k && b > k {
            assert(new_out[a] == old_out[a]);
            assert(new_out[b] == old_out[b - 1]);
            assert(lex_lt(old_out[a].name@, cp.name@));
            assert(lex_lt(cp.name@, old_out[b - 1].name@) || b - 1 < k);
            if b - 1 >= k {
                lemma_lex_lt_trans(old_out[a].name@, cp.name@, old_out[b - 1].name@);
            }
        } else if a == k && b > k {
            assert(new_out[b] == old_out[b - 1]);
        } else {
            assert(new_out[a] == old_out[a - 1]);
            assert(new_out[b] == old_out[b - 1]);
        }
    }
    assert forall|a: int| 0 <= a < new_out.len() implies qualifies(#[trigger] new_out[a]) && exists|
        jj: int,
    | 0 <= jj < j + 1 && package_model(new_out[a]) == package_model(pkgs[jj]) by {
        if a < k {
            assert(new_out[a] == old_out[a]);
            assert(qualifies(old_out[a]) && exists|jj: int|
                0 <= jj < j && package_model(old_out[a]) == package_model(pkgs[jj]));
        } else if a == k {
            assert(package_model(new_out[a]) == package_model(pkgs[j]));
        } else {
            assert(new_out[a] == old_out[a - 1]);
            assert(qualifies(old_out[a - 1]) && exists|jj: int|
                0 <= jj < j && package_model(old_out[a - 1]) == package_model(pkgs[jj]));
        }
    }
    assert forall|jj: int| 0 <= jj < j + 1 && qualifies(#[trigger] pkgs[jj]) implies exists|a: int|
        0 <= a < new_out.len() && (#[trigger] new_out[a]).name@ == pkgs[jj].name@ by {
        if jj < j {
            let a0 = choose|a: int|
                0 <= a < old_out.len() && (#[trigger] old_out[a]).name@ == pkgs[jj].name@;
            if a0 < k {
                assert(new_out[a0] == old_out[a0]);
                assert(new_out[a0].name@ == pkgs[jj].name@);
            } else {
                assert(new_out[a0 + 1] == old_out[a0]);
                assert(new_out[a0 + 1].name@ == pkgs[jj].name@);
            }
        } else {
            assert(new_out[k].name@ == pkgs[jj].name@);
        }
    }
}

/// A package whose name is already collected adds nothing.
proof fn lemma_skip_duplicate(s: Seq<Package>, pkgs: Seq<Package>, j: int, k: int)
    requires
        0 <= j < pkgs.len(),
        0 <= k < s.len(),
        s[k].name@ == pkgs[j].name@,
        covers(s, pkgs, j),
    ensures
        covers(s, pkgs, j + 1),
{
    assert forall|jj: int| 0 <= jj < j + 1 && qualifies(#[trigger] pkgs[jj]) implies exists|a: int|
        0 <= a < s.len() && (#[trigger] s[a]).name@ == pkgs[jj].name@ by {
        if jj == j {
            assert(s[k].name@ == pkgs[jj].name@);
        }
    }
}

/// The candidates among the known packages: every workspace scan keeps a
/// package that is all-library, is not the reserved wrapper name, and
/// ordinarily depends on the target library; the collected matches are
/// sorted by name and freed of duplicate names.  When the workspace has no
/// members at all, nothing is scanned and nothing is returned.
pub fn rapp_candidates(meta: &Metadata) -> (r: Vec<Package>)
    ensures
        meta.workspace_members@.len() == 0 ==> r@.len() == 0,
        sorted_by_name(r@),
        all_from(r@, meta.packages@, meta.packages@.len() as int),
        meta.workspace_members@.len() > 0 ==> covers(
            r@,
            meta.packages@,
            meta.packages@.len() as int,
        ),
{
    let mut out: Vec<Package> = Vec::new();
    if meta.workspace_members.len() == 0 {
        return out;
    }
    let mut j: usize = 0;
    while j < meta.packages.len()
        invariant
            j <= meta.packages@.len(),
            sorted_by_name(out@),
            all_from(out@, meta.packages@, j as int),
            covers(out@, meta.packages@, j as int),
        decreases meta.packages@.len() - j,
    {
        let p = &meta.packages[j];
        if check_qualifies(p) {
            // find the sorted position of this name
            let mut k: usize = 0;
            while k < out.len() && text_lt(&out[k].name, &p.name)
                invariant
                    k <= out@.len(),
                    forall|a: int| 0 <= a < k ==> lex_lt((#[trigger] out@[a]).name@, p.name@),
                    sorted_by_name(out@),
                decreases out@.len() - k,
            {
                k = k + 1;
            }
            if k < out.len() && text_eq(&out[k].name, &p.name) {
                // a package of this name is already collected
                proof {
                    lemma_skip_duplicate(out@, meta.packages@, j as int, k as int);
                }
            } else {
                proof {
                    if k < out@.len() {
                        lemma_lex_lt_total(out@[k as int].name@, p.name@);
                        assert(lex_lt(p.name@, out@[k as int].name@));
                    }
                    assert forall|b: int| k <= b < out@.len() implies lex_lt(
                        p.name@,
                        (#[trigger] out@[b]).name@,
                    ) by {
                        if b > k {
                            lemma_lex_lt_trans(p.name@, out@[k as int].name@, out@[b].name@);
                        }
                    }
                }
                let ghost old_out = out@;
                let cp = clone_package(p);
                proof {
                    assert(cp.name@ == package_model(*p).name);
                }
                let ghost cpg = cp;
                out.insert(k, cp);
                proof {
                    lemma_insert_candidate(
                        old_out,
                        out@,
                        meta.packages@,
                        j as int,
                        k as int,
                        cpg,
                    );
                }
            }
        }
        j = j + 1;
    }
    out
}

/// Some package of the workspace qualifies.
pub open spec fn some_qualifier(pkgs: Seq<Package>) -> bool {
    exists|j: int| 0 <= j < pkgs.len() && qualifies(#[trigger] pkgs[j])
}

/// At least two differently named packages qualify.
pub open spec fn two_qualifier_names(pkgs: Seq<Package>) -> bool {
    exists|j1: int, j2: int|
        0 <= j1 < pkgs.len() && 0 <= j2 < pkgs.len() && qualifies(#[trigger] pkgs[j1])
            && qualifies(#[trigger] pkgs[j2]) && pkgs[j1].name@ != pkgs[j2].name@
}

/// The resolved selection for the current workspace, as persisted in the
/// cache directory.
#[derive(Debug, PartialEq)]
pub struct Config {
    /// The chosen candidate's name.
    pub name: Vec<char>,
    /// The build-output directory reserved for the wrapper, nested inside the
    /// workspace's shared one.
    pub target_dir: Vec<char>,
    /// The per-run cache directory owned by this pipeline.
    pub scratch_dir: Vec<char>,
    /// The workspace root, used to resolve relative source references.
    pub app_dir: Vec<char>,
    /// Selects which project template variant is materialized.
    pub use_relative_paths: bool,
    /// Forces regeneration regardless of cache state.
    pub rebuild: bool,
}

/// The mathematical content of a `Config`.
#[verifier::ext_equal]
pub ghost struct ConfigV {
    pub name: Seq<char>,
    pub target_dir: Seq<char>,
    pub scratch_dir: Seq<char>,
    pub app_dir: Seq<char>,
    pub use_relative_paths: bool,
    pub rebuild: bool,
}

impl View for Config {
    type V = ConfigV;

    open spec fn view(&self) -> ConfigV {
        ConfigV {
            name: self.name@,
            target_dir: self.target_dir@,
            scratch_dir: self.scratch_dir@,
            app_dir: self.app_dir@,
            use_relative_paths: self.use_relative_paths,
            rebuild: self.rebuild,
        }
    }
}

/// The serialized form of a `Config`: one parenthesized record with named,
/// double-quoted text fields (backslash-escaped) and bare boolean fields.
pub open spec fn spec_encode_config(v: ConfigV) -> Seq<char> {
    "(name:\""@ + esc(v.name) + seq!['"'] + ",target_dir:\""@ + esc(v.target_dir) + seq!['"']
        + ",scratch_dir:\""@ + esc(v.scratch_dir) + seq!['"'] + ",app_dir:\""@ + esc(v.app_dir)
        + seq!['"'] + ",use_relative_paths:"@ + bool_text(v.use_relative_paths) + ",rebuild:"@
        + bool_text(v.rebuild) + ")"@
}

/// What a stored text parses back to: the `Config` it denotes, or nothing
/// when it is not exactly a serialized `Config`.
pub open spec fn spec_parse_config(t: Seq<char>) -> Option<ConfigV> {
    match strip_prefix(t, "(name:\""@) {
        None => None,
        Some(t1) => match scan_qstr(t1) {
            None => None,
            Some((name, t2)) => match strip_prefix(t2, ",target_dir:\""@) {
                None => None,
                Some(t3) => match scan_qstr(t3) {
                    None => None,
                    Some((target_dir, t4)) => match strip_prefix(t4, ",scratch_dir:\""@) {
                        None => None,
                        Some(t5) => match scan_qstr(t5) {
                            None => None,
                            Some((scratch_dir, t6)) => match strip_prefix(t6, ",app_dir:\""@) {
                                None => None,
                                Some(t7) => match scan_qstr(t7) {
                                    None => None,
                                    Some((app_dir, t8)) => match strip_prefix(
                                        t8,
                                        ",use_relative_paths:"@,
                                    ) {
                                        None => None,
                                        Some(t9) => match scan_bool(t9) {
                                            None => None,
                                            Some((use_relative_paths, t10)) => match strip_prefix(
                                                t10,
                                                ",rebuild:"@,
                                            ) {
                                                None => None,
                                                Some(t11) => match scan_bool(t11) {
                                                    None => None,
                                                    Some((rebuild, t12)) => match strip_prefix(
                                                        t12,
                                                        ")"@,
                                                    ) {
                                                        None => None,
                                                        Some(t13) => if t13.len() == 0 {
                                                            Some(
                                                                ConfigV {
                                                                    name,
                                                                    target_dir,
                                                                    scratch_dir,
                                                                    app_dir,
                                                                    use_relative_paths,
                                                                    rebuild,
                                                                },
                                                            )
                                                        } else {
                                                            None
                                                        },
                                                    },
                                                },
                                            },
                                        },
                                    },
                                },
                            },
                        },
                    },
                },
            },
        },
    }
}

impl Config {
    /// Serializes the record.
    pub fn encode(&self) -> (out: Vec<char>)
        ensures
            out@ == spec_encode_config(self@),
    {
        let mut out: Vec<char> = Vec::new();
        push_str(&mut out, "(name:\"");
        push_escaped(&mut out, &self.name);
        out.push('"');
        push_str(&mut out, ",target_dir:\"");
        push_escaped(&mut out, &self.target_dir);
        out.push('"');
        push_str(&mut out, ",scratch_dir:\"");
        push_escaped(&mut out, &self.scratch_dir);
        out.push('"');
        push_str(&mut out, ",app_dir:\"");
        push_escaped(&mut out, &self.app_dir);
        out.push('"');
        push_str(&mut out, ",use_relative_paths:");
        push_bool(&mut out, self.use_relative_paths);
        push_str(&mut out, ",rebuild:");
        push_bool(&mut out, self.rebuild);
        push_str(&mut out, ")");
        proof {
            assert(out@ =~= spec_encode_config(self@));
        }
        out
    }

    /// Parses a stored text; anything but an exact serialized record yields
    /// `None` (the caller treats that as a cache miss).
    pub fn decode(t: &Vec<char>) -> (r: Option<Config>)
        ensures
            match r {
                Some(c) => spec_parse_config(t@) == Some(c@),
                None => spec_parse_config(t@) is None,
            },
    {
        proof {
            assert(t@.skip(0) =~= t@);
        }
        let i1 = match take_prefix(t, 0, "(name:\"") {
            Some(i) => i,
            None => {
                return None;
            },
        };
        let (name, i2) = match scan_quoted(t, i1) {
            Some(p) => p,
            None => {
                return None;
            },
        };
        let i3 = match take_prefix(t, i2, ",target_dir:\"") {
            Some(i) => i,
            None => {
                return None;
            },
        };
        let (target_dir, i4) = match scan_quoted(t, i3) {
            Some(p) => p,
            None => {
                return None;
            },
        };
        let i5 = match take_prefix(t, i4, ",scratch_dir:\"") {
            Some(i) => i,
            None => {
                return None;
            },
        };
        let (scratch_dir, i6) = match scan_quoted(t, i5) {
            Some(p) => p,
            None => {
                return None;
            },
        };
        let i7 = match take_prefix(t, i6, ",app_dir:\"") {
            Some(i) => i,
            None => {
                return None;
            },
        };
        let (app_dir, i8) = match scan_quoted(t, i7) {
            Some(p) => p,
            None => {
                return None;
            },
        };
        let i9 = match take_prefix(t, i8, ",use_relative_paths:") {
            Some(i) => i,
            None => {
                return None;
            },
        };
        let (use_relative_paths, i10) = match scan_boolean(t, i9) {
            Some(p) => p,
            None => {
                return None;
            },
        };
        let i11 = match take_prefix(t, i10, ",rebuild:") {
            Some(i) => i,
            None => {
                return None;
            },
        };
        let (rebuild, i12) = match scan_boolean(t, i11) {
            Some(p) => p,
            None => {
                return None;
            },
        };
        let i13 = match take_prefix(t, i12, ")") {
            Some(i) => i,
            None => {
                return None;
            },
        };
        if i13 != t.len() {
            proof {
                assert(t@.skip(i13 as int).len() > 0);
            }
            return None;
        }
        proof {
            assert(t@.skip(i13 as int).len() == 0);
        }
        Some(Config { name, target_dir, scratch_dir, app_dir, use_relative_paths, rebuild })
    }

    /// Where the record lives inside a cache directory.
    pub fn config_file_path(dir: &Vec<char>) -> (r: Vec<char>)
        ensures
            r@ == dir@ + "/config"@,
    {
        let mut r = clone_text(dir);
        push_str(&mut r, "/config");
        r
    }
}

/// Serializing a configuration and parsing the result gives the same record
/// back, field for field, whatever its fields hold.
#[verifier::rlimit(100)]
pub proof fn lemma_config_round_trip(v: ConfigV)
    ensures
        spec_parse_config(spec_encode_config(v)) == Some(v),
{
    let q = seq!['"'];
    let s13 = Seq::<char>::empty();
    let s12 = ")"@ + s13;
    let s11 = bool_text(v.rebuild) + s12;
    let s10 = ",rebuild:"@ + s11;
    let s9 = bool_text(v.use_relative_paths) + s10;
    let s8 = ",use_relative_paths:"@ + s9;
    let s7 = esc(v.app_dir) + q + s8;
    let s6 = ",app_dir:\""@ + s7;
    let s5 = esc(v.scratch_dir) + q + s6;
    let s4 = ",scratch_dir:\""@ + s5;
    let s3 = esc(v.target_dir) + q + s4;
    let s2 = ",target_dir:\""@ + s3;
    let s1 = esc(v.name) + q + s2;
    let t = "(name:\""@ + s1;
    assert(t =~= spec_encode_config(v));
    lemma_strip_prefix_exact("(name:\""@, s1);
    lemma_scan_esc(v.name, s2);
    lemma_strip_prefix_exact(",target_dir:\""@, s3);
    lemma_scan_esc(v.target_dir, s4);
    lemma_strip_prefix_exact(",scratch_dir:\""@, s5);
    lemma_scan_esc(v.scratch_dir, s6);
    lemma_strip_prefix_exact(",app_dir:\""@, s7);
    lemma_scan_esc(v.app_dir, s8);
    lemma_strip_prefix_exact(",use_relative_paths:"@, s9);
    lemma_scan_bool_exact(v.use_relative_paths, s10);
    lemma_strip_prefix_exact(",rebuild:"@, s11);
    lemma_scan_bool_exact(v.rebuild, s12);
    lemma_strip_prefix_exact(")"@, s13);
    assert(strip_prefix(t, "(name:\""@) == Some(s1));
    assert(scan_qstr(s1) == Some((v.name, s2)));
    assert(strip_prefix(s2, ",target_dir:\""@) == Some(s3));
    assert(scan_qstr(s3) == Some((v.target_dir, s4)));
    assert(strip_prefix(s4, ",scratch_dir:\""@) == Some(s5));
    assert(scan_qstr(s5) == Some((v.scratch_dir, s6)));
    assert(strip_prefix(s6, ",app_dir:\""@) == Some(s7));
    assert(scan_qstr(s7) == Some((v.app_dir, s8)));
    assert(strip_prefix(s8, ",use_relative_paths:"@) == Some(s9));
    assert(scan_bool(s9) == Some((v.use_relative_paths, s10)));
    assert(strip_prefix(s10, ",rebuild:"@) == Some(s11));
    assert(scan_bool(s11) == Some((v.rebuild, s12)));
    assert(strip_prefix(s12, ")"@) == Some(s13));
    assert(spec_parse_config(t) == Some(v));
}

/// The four nested segments of the wrapper's build-output directory, outermost
/// first: the workspace's shared build-output directory, then `debug`, then
/// `build`, then the wrapper's own directory.
pub fn target_dir_chain(target_directory: &Vec<char>) -> (r: Vec<Vec<char>>)
    ensures
        r@.len() == 4,
        r@[0]@ == target_directory@,
        r@[1]@ == target_directory@ + "/debug"@,
        r@[2]@ == target_directory@ + "/debug/build"@,
        r@[3]@ == target_directory@ + "/debug/build/rapp_runner"@,
{
    let mut r: Vec<Vec<char>> = Vec::new();
    let d0 = clone_text(target_directory);
    let mut d1 = clone_text(target_directory);
    push_str(&mut d1, "/debug");
    let mut d2 = clone_text(target_directory);
    push_str(&mut d2, "/debug/build");
    let mut d3 = clone_text(target_directory);
    push_str(&mut d3, "/debug/build/rapp_runner");
    r.push(d0);
    r.push(d1);
    r.push(d2);
    r.push(d3);
    r
}

/// Some qualifying package bears the name `n`.
pub open spec fn name_is_qualifying(pkgs: Seq<Package>, n: Seq<char>) -> bool {
    exists|j: int| 0 <= j < pkgs.len() && qualifies(#[trigger] pkgs[j]) && pkgs[j].name@ == n
}

/// The reported name list is sorted without duplicates and holds exactly
/// the names of the qualifying packages.
pub open spec fn ambiguous_names_ok(ns: Seq<Vec<char>>, pkgs: Seq<Package>) -> bool {
    &&& forall|x: int, y: int| 0 <= x < y < ns.len() ==> lex_lt(ns[x]@, ns[y]@)
    &&& forall|x: int| 0 <= x < ns.len() ==> name_is_qualifying(pkgs, (#[trigger] ns[x])@)
    &&& forall|j: int|
        0 <= j < pkgs.len() && qualifies(#[trigger] pkgs[j]) ==> exists|x: int|
            0 <= x < ns.len() && (#[trigger] ns[x])@ == pkgs[j].name@
}

/// With no candidate collected, no package qualifies.
pub proof fn lemma_no_qualifier(cands: Seq<Package>, pkgs: Seq<Package>)
    requires
        cands.len() == 0,
        covers(cands, pkgs, pkgs.len() as int),
    ensures
        !some_qualifier(pkgs),
{
    if some_qualifier(pkgs) {
        let j = choose|j: int| 0 <= j < pkgs.len() && qualifies(#[trigger] pkgs[j]);
        assert(exists|a: int|
            0 <= a < cands.len() && (#[trigger] cands[a]).name@ == pkgs[j].name@);
    }
}

/// With exactly one candidate collected, every qualifying package bears its
/// name, and some qualifying package exists.
pub proof fn lemma_unique_candidate(cands: Seq<Package>, pkgs: Seq<Package>)
    requires
        cands.len() == 1,
        all_from(cands, pkgs, pkgs.len() as int),
        covers(cands, pkgs, pkgs.len() as int),
    ensures
        some_qualifier(pkgs),
        exists|j: int|
            0 <= j < pkgs.len() && qualifies(#[trigger] pkgs[j]) && pkgs[j].name@
                == cands[0].name@,
        forall|j: int|
            0 <= j < pkgs.len() && qualifies(#[trigger] pkgs[j]) ==> pkgs[j].name@
                == cands[0].name@,
{
    assert(qualifies(cands[0]));
    let jj = choose|jj: int|
        0 <= jj < pkgs.len() && package_model(cands[0]) == package_model(pkgs[jj]);
    assert(qualifies(pkgs[jj]) && pkgs[jj].name@ == cands[0].name@);
    assert forall|j: int|
        0 <= j < pkgs.len() && qualifies(#[trigger] pkgs[j]) implies pkgs[j].name@
        == cands[0].name@ by {
        let a = choose|a: int|
            0 <= a < cands.len() && (#[trigger] cands[a]).name@ == pkgs[j].name@;
        assert(a == 0);
    }
}

/// With two or more candidates collected, two differently named packages
/// qualify.
pub proof fn lemma_two_candidates(cands: Seq<Package>, pkgs: Seq<Package>)
    requires
        cands.len() >= 2,
        sorted_by_name(cands),
        all_from(cands, pkgs, pkgs.len() as int),
    ensures
        two_qualifier_names(pkgs),
{
    assert(qualifies(cands[0]) && qualifies(cands[1]));
    assert(lex_lt(cands[0].name@, cands[1].name@));
    lemma_lex_lt_irrefl(cands[0].name@);
    assert(cands[0].name@ != cands[1].name@);
    let jj0 = choose|jj: int|
        0 <= jj < pkgs.len() && package_model(cands[0]) == package_model(pkgs[jj]);
    let jj1 = choose|jj: int|
        0 <= jj < pkgs.len() && package_model(cands[1]) == package_model(pkgs[jj]);
    assert(qualifies(pkgs[jj0]) && qualifies(pkgs[jj1]));
    assert(pkgs[jj0].name@ != pkgs[jj1].name@);
}

/// The collected names, in order, are exactly the qualifying names.
pub proof fn lemma_ambiguous_names(cands: Seq<Package>, ns: Seq<Vec<char>>, pkgs: Seq<Package>)
    requires
        ns.len() == cands.len(),
        forall|a: int| 0 <= a < ns.len() ==> (#[trigger] ns[a])@ == cands[a].name@,
        sorted_by_name(cands),
        all_from(cands, pkgs, pkgs.len() as int),
        covers(cands, pkgs, pkgs.len() as int),
    ensures
        ambiguous_names_ok(ns, pkgs),
{
    assert forall|x: int, y: int| 0 <= x < y < ns.len() implies lex_lt(ns[x]@, ns[y]@) by {
        assert(lex_lt(cands[x].name@, cands[y].name@));
    }
    assert forall|x: int| 0 <= x < ns.len() implies name_is_qualifying(
        pkgs,
        (#[trigger] ns[x])@,
    ) by {
        assert(qualifies(cands[x]));
        let jj = choose|jj: int|
            0 <= jj < pkgs.len() && package_model(cands[x]) == package_model(pkgs[jj]);
        assert(qualifies(pkgs[jj]) && pkgs[jj].name@ == ns[x]@);
    }
    assert forall|j: int|
        0 <= j < pkgs.len() && qualifies(#[trigger] pkgs[j]) implies exists|x: int|
        0 <= x < ns.len() && (#[trigger] ns[x])@ == pkgs[j].name@ by {
        let a = choose|a: int|
            0 <= a < cands.len() && (#[trigger] cands[a]).name@ == pkgs[j].name@;
        assert(ns[a]@ == pkgs[j].name@);
    }
}

impl Config {
    /// Builds the configuration for the current workspace from its metadata:
    /// resolves the one candidate, records the wrapper's build-output
    /// directory under the workspace's shared one, and takes the given cache
    /// directory and workspace root as they are.  With no candidate the
    /// search fails; with several differently named candidates their sorted,
    /// duplicate-free names are reported for disambiguation.  The two
    /// per-invocation flags start out unset.
    #[verifier::rlimit(100)]
    pub fn create(meta: &Metadata, cache_dir: &Vec<char>, app_dir: &Vec<char>) -> (r: Result<
        Config,
        DiscoveryError,
    >)
        ensures
            meta.workspace_members@.len() == 0 ==> r is Err && r->Err_0 is NoCandidate
                && r->Err_0->NoCandidate_0@ == cache_dir@,
            meta.workspace_members@.len() > 0 && !some_qualifier(meta.packages@) ==> r is Err
                && r->Err_0 is NoCandidate && r->Err_0->NoCandidate_0@ == cache_dir@,
            meta.workspace_members@.len() > 0 && some_qualifier(meta.packages@)
                && !two_qualifier_names(meta.packages@) ==> r is Ok && {
                let c = r->Ok_0;
                &&& name_is_qualifying(meta.packages@, c.name@)
                &&& forall|j: int|
                    0 <= j < meta.packages@.len() && qualifies(#[trigger] meta.packages@[j])
                        ==> c.name@ == meta.packages@[j].name@
                &&& c.target_dir@ == meta.target_directory@ + "/debug/build/rapp_runner"@
                &&& c.scratch_dir@ == cache_dir@
                &&& c.app_dir@ == app_dir@
                &&& c.use_relative_paths == false
                &&& c.rebuild == false
            },
            meta.workspace_members@.len() > 0 && two_qualifier_names(meta.packages@) ==> r is Err
                && r->Err_0 is AmbiguousCandidates && ambiguous_names_ok(
                r->Err_0->AmbiguousCandidates_0@,
                meta.packages@,
            ),
    {
        let cands = rapp_candidates(meta);
        if cands.len() == 0 {
            proof {
                if meta.workspace_members@.len() > 0 {
                    lemma_no_qualifier(cands@, meta.packages@);
                }
            }
            Err(DiscoveryError::NoCandidate(clone_text(cache_dir)))
        } else if cands.len() > 1 {
            let mut names: Vec<Vec<char>> = Vec::new();
            let mut x: usize = 0;
            while x < cands.len()
                invariant
                    x <= cands@.len(),
                    names@.len() == x,
                    forall|a: int| 0 <= a < x ==> (#[trigger] names@[a])@ == cands@[a].name@,
                decreases cands@.len() - x,
            {
                names.push(clone_text(&cands[x].name));
                x = x + 1;
            }
            proof {
                lemma_two_candidates(cands@, meta.packages@);
                lemma_ambiguous_names(cands@, names@, meta.packages@);
            }
            Err(DiscoveryError::AmbiguousCandidates(names))
        } else {
            let name = clone_text(&cands[0].name);
            let chain = target_dir_chain(&meta.target_directory);
            let target_dir = clone_text(&chain[3]);
            let config = Config {
                name,
                target_dir,
                scratch_dir: clone_text(cache_dir),
                app_dir: clone_text(app_dir),
                use_relative_paths: false,
                rebuild: false,
            };
            proof {
                lemma_unique_candidate(cands@, meta.packages@);
            }
            Ok(config)
        }
    }
}

} // verus!

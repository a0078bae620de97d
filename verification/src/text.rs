//! Plain-text values for the pipeline.
//!
//! The library handles every piece of text (package names, paths, file
//! contents) as a `Vec<char>`, whose view is the same `Seq<char>` that
//! `String` and `str` have.  Drivers convert to and from `String` at the
//! boundary.

use vstd::prelude::*;

verus! {

use vstd::string::StrSliceExecFns;

/// Builds the character vector holding the same characters as `s`.
pub fn text_of(s: &str) -> (v: Vec<char>)
    ensures
        v@ == s@,
{
    let n: usize = s.unicode_len();
    let mut v: Vec<char> = Vec::new();
    let mut i: usize = 0;
    while i < n
        invariant
            n == s@.len(),
            i <= n,
            v@ == s@.subrange(0, i as int),
        decreases n - i,
    {
        let c = s.get_char(i);
        v.push(c);
        i = i + 1;
        proof {
            assert(v@ =~= s@.subrange(0, i as int));
        }
    }
    proof {
        assert(v@ =~= s@);
    }
    v
}

/// Decides whether two texts hold the same characters.
pub fn text_eq(a: &Vec<char>, b: &Vec<char>) -> (r: bool)
    ensures
        r == (a@ == b@),
{
    if a.len() != b.len() {
        return false;
    }
    let mut i: usize = 0;
    while i < a.len()
        invariant
            i <= a.len(),
            a@.len() == b@.len(),
            forall|j: int| 0 <= j < i ==> a@[j] == b@[j],
        decreases a.len() - i,
    {
        if a[i] != b[i] {
            return false;
        }
        i = i + 1;
    }
    proof {
        assert(a@ =~= b@);
    }
    true
}

/// Appends all characters of `s` to `out`.
pub fn push_text(out: &mut Vec<char>, s: &Vec<char>)
    ensures
        final(out)@ == old(out)@ + s@,
{
    let mut i: usize = 0;
    while i < s.len()
        invariant
            i <= s.len(),
            out@ == old(out)@ + s@.subrange(0, i as int),
        decreases s.len() - i,
    {
        out.push(s[i]);
        i = i + 1;
        proof {
            assert(out@ =~= old(out)@ + s@.subrange(0, i as int));
        }
    }
    proof {
        assert(out@ =~= old(out)@ + s@);
    }
}

/// Appends the characters of the string slice `s` to `out`.
pub fn push_str(out: &mut Vec<char>, s: &str)
    ensures
        final(out)@ == old(out)@ + s@,
{
    let t = text_of(s);
    push_text(out, &t);
}

/// Copies a text.
pub fn clone_text(v: &Vec<char>) -> (r: Vec<char>)
    ensures
        r@ == v@,
{
    let mut r: Vec<char> = Vec::new();
    push_text(&mut r, v);
    proof {
        assert(r@ =~= v@);
    }
    r
}

/// Strict lexicographic order on texts, by Unicode scalar value.  This is
/// the order in which `str` values compare in the standard library.
pub open spec fn lex_lt(a: Seq<char>, b: Seq<char>) -> bool
    decreases a.len(),
{
    if b.len() == 0 {
        false
    } else if a.len() == 0 {
        true
    } else if a[0] != b[0] {
        a[0] < b[0]
    } else {
        lex_lt(a.drop_first(), b.drop_first())
    }
}

pub proof fn lemma_lex_lt_irrefl(a: Seq<char>)
    ensures
        !lex_lt(a, a),
    decreases a.len(),
{
    if a.len() > 0 {
        lemma_lex_lt_irrefl(a.drop_first());
    }
}

/// The order is total: two texts are related one way, the other way, or equal.
pub proof fn lemma_lex_lt_total(a: Seq<char>, b: Seq<char>)
    ensures
        lex_lt(a, b) || lex_lt(b, a) || a == b,
    decreases a.len(),
{
    if a.len() == 0 && b.len() == 0 {
        assert(a =~= b);
    } else if a.len() > 0 && b.len() > 0 {
        if a[0] == b[0] {
            lemma_lex_lt_total(a.drop_first(), b.drop_first());
            if a.drop_first() == b.drop_first() {
                assert(a.drop_first().len() == a.len() - 1);
                assert(b.drop_first().len() == b.len() - 1);
                assert(a.len() == b.len());
                assert forall|j: int| 0 <= j < a.len() implies a[j] == b[j] by {
                    if j > 0 {
                        assert(a[j] == a.drop_first()[j - 1]);
                        assert(b[j] == b.drop_first()[j - 1]);
                    }
                }
                assert(a =~= b);
            }
        }
    }
}

pub proof fn lemma_lex_lt_trans(a: Seq<char>, b: Seq<char>, c: Seq<char>)
    requires
        lex_lt(a, b),
        lex_lt(b, c),
    ensures
        lex_lt(a, c),
    decreases a.len(),
{
    if a.len() > 0 && b.len() > 0 && c.len() > 0 && a[0] == b[0] && b[0] == c[0] {
        lemma_lex_lt_trans(a.drop_first(), b.drop_first(), c.drop_first());
    }
}

/// Decides the lexicographic order from position `i` on.
fn lt_from(a: &Vec<char>, b: &Vec<char>, i: usize) -> (r: bool)
    requires
        i <= a@.len(),
        i <= b@.len(),
    ensures
        r == lex_lt(a@.skip(i as int), b@.skip(i as int)),
    decreases a@.len() - i,
{
    proof {
        assert(a@.skip(i as int).len() == a@.len() - i);
        assert(b@.skip(i as int).len() == b@.len() - i);
    }
    if i >= b.len() {
        false
    } else if i >= a.len() {
        true
    } else {
        proof {
            assert(a@.skip(i as int)[0] == a@[i as int]);
            assert(b@.skip(i as int)[0] == b@[i as int]);
        }
        if a[i] != b[i] {
            a[i] < b[i]
        } else {
            proof {
                assert(a@.skip(i as int).drop_first() =~= a@.skip(i as int + 1));
                assert(b@.skip(i as int).drop_first() =~= b@.skip(i as int + 1));
            }
            lt_from(a, b, i + 1)
        }
    }
}

/// Decides whether `a` comes strictly before `b` in lexicographic order.
pub fn text_lt(a: &Vec<char>, b: &Vec<char>) -> (r: bool)
    ensures
        r == lex_lt(a@, b@),
{
    proof {
        assert(a@.skip(0) =~= a@);
        assert(b@.skip(0) =~= b@);
    }
    lt_from(a, b, 0)
}

/// How one character is written inside a double-quoted record field: a
/// backslash or a double quote gets a backslash in front, every other
/// character stands for itself.
pub open spec fn esc_char(c: char) -> Seq<char> {
    if c == '"' || c == '\\' {
        seq!['\\', c]
    } else {
        seq![c]
    }
}

/// How a whole text is written inside a double-quoted record field.
pub open spec fn esc(s: Seq<char>) -> Seq<char>
    decreases s.len(),
{
    if s.len() == 0 {
        Seq::empty()
    } else {
        esc(s.drop_last()) + esc_char(s.last())
    }
}

/// The escaped form can also be peeled off from the front.
pub proof fn lemma_esc_head(s: Seq<char>)
    requires
        s.len() > 0,
    ensures
        esc(s) == esc_char(s[0]) + esc(s.drop_first()),
    decreases s.len(),
{
    if s.len() == 1 {
        assert(s.drop_last() =~= Seq::<char>::empty());
        assert(s.drop_first() =~= Seq::<char>::empty());
        assert(esc(s) =~= esc_char(s[0]) + esc(s.drop_first()));
    } else {
        lemma_esc_head(s.drop_last());
        assert(s.drop_last()[0] == s[0]);
        assert(s.drop_last().drop_first() =~= s.drop_first().drop_last());
        assert(s.drop_first().last() == s.last());
        assert(s.drop_first().len() > 0);
        assert(esc(s.drop_first()) == esc(s.drop_first().drop_last()) + esc_char(s.last()));
        assert(esc(s) == esc(s.drop_last()) + esc_char(s.last()));
        assert(esc(s.drop_last()) == esc_char(s[0]) + esc(s.drop_last().drop_first()));
        assert(esc(s) =~= esc_char(s[0]) + esc(s.drop_first()));
    }
}

/// Appends the escaped form of `s` to `out`.
pub fn push_escaped(out: &mut Vec<char>, s: &Vec<char>)
    ensures
        final(out)@ == old(out)@ + esc(s@),
{
    let mut i: usize = 0;
    proof {
        assert(s@.subrange(0, 0) =~= Seq::<char>::empty());
        assert(out@ =~= old(out)@ + esc(s@.subrange(0, 0)));
    }
    while i < s.len()
        invariant
            i <= s.len(),
            out@ == old(out)@ + esc(s@.subrange(0, i as int)),
        decreases s.len() - i,
    {
        let c = s[i];
        if c == '"' || c == '\\' {
            out.push('\\');
            out.push(c);
        } else {
            out.push(c);
        }
        i = i + 1;
        proof {
            let pre = s@.subrange(0, i - 1);
            let cur = s@.subrange(0, i as int);
            assert(cur.drop_last() =~= pre);
            assert(cur.last() == s@[i - 1]);
            assert(esc(cur) == esc(pre) + esc_char(s@[i - 1]));
            assert(out@ =~= old(out)@ + esc(cur));
        }
    }
    proof {
        assert(s@.subrange(0, s@.len() as int) =~= s@);
    }
}

/// Strips `tok` from the front of `t`, if `t` starts with it.
pub open spec fn strip_prefix(t: Seq<char>, tok: Seq<char>) -> Option<Seq<char>> {
    if tok.len() <= t.len() && t.take(tok.len() as int) == tok {
        Some(t.skip(tok.len() as int))
    } else {
        None
    }
}

/// Reads a double-quoted field from the front of `t` (whose opening quote has
/// already been stripped): the unescaped content up to the first unescaped
/// double quote, and what follows that quote.
pub open spec fn scan_qstr(t: Seq<char>) -> Option<(Seq<char>, Seq<char>)>
    decreases t.len(),
{
    if t.len() == 0 {
        None
    } else if t[0] == '"' {
        Some((Seq::empty(), t.drop_first()))
    } else if t[0] == '\\' {
        if t.len() >= 2 {
            match scan_qstr(t.skip(2)) {
                Some(r) => Some((seq![t[1]] + r.0, r.1)),
                None => None,
            }
        } else {
            None
        }
    } else {
        match scan_qstr(t.drop_first()) {
            Some(r) => Some((seq![t[0]] + r.0, r.1)),
            None => None,
        }
    }
}

/// Reading a field back undoes escaping: scanning `esc(s)` followed by the
/// closing quote and anything else yields exactly `s` and the rest.
pub proof fn lemma_scan_esc(s: Seq<char>, rest: Seq<char>)
    ensures
        scan_qstr(esc(s) + seq!['"'] + rest) == Some((s, rest)),
    decreases s.len(),
{
    let t = esc(s) + seq!['"'] + rest;
    if s.len() == 0 {
        assert(esc(s) =~= Seq::<char>::empty());
        assert(t[0] == '"');
        assert(t.drop_first() =~= rest);
        assert(s =~= Seq::<char>::empty());
    } else {
        lemma_esc_head(s);
        let tail = esc(s.drop_first()) + seq!['"'] + rest;
        lemma_scan_esc(s.drop_first(), rest);
        if s[0] == '"' || s[0] == '\\' {
            assert(esc_char(s[0]) == seq!['\\', s[0]]);
            assert(t.len() >= 2);
            assert(t[0] == '\\');
            assert(t[1] == s[0]);
            assert(t.skip(2) =~= tail);
            assert(scan_qstr(t) == Some((seq![t[1]] + s.drop_first(), rest)));
            assert(seq![t[1]] + s.drop_first() =~= s);
        } else {
            assert(esc_char(s[0]) == seq![s[0]]);
            assert(t[0] == s[0]);
            assert(t[0] != '"' && t[0] != '\\');
            assert(t.drop_first() =~= tail);
            assert(scan_qstr(t) == Some((seq![t[0]] + s.drop_first(), rest)));
            assert(seq![t[0]] + s.drop_first() =~= s);
        }
    }
}

/// Checks whether `tok` stands at position `i` of `t`; on success returns the
/// position right after it.
pub fn take_prefix(t: &Vec<char>, i: usize, tok: &str) -> (r: Option<usize>)
    requires
        i <= t@.len(),
    ensures
        match r {
            Some(j) => {
                &&& i <= j <= t@.len()
                &&& strip_prefix(t@.skip(i as int), tok@) == Some(t@.skip(j as int))
                &&& j == i + tok@.len()
            },
            None => strip_prefix(t@.skip(i as int), tok@) is None,
        },
{
    let tk = text_of(tok);
    let ghost rem = t@.skip(i as int);
    if tk.len() > t.len() - i {
        proof {
            assert(rem.len() == t@.len() - i);
        }
        return None;
    }
    let n: usize = t.len();
    let mut k: usize = 0;
    while k < tk.len()
        invariant
            k <= tk.len(),
            tk@ == tok@,
            i <= t@.len(),
            n == t@.len(),
            tk.len() <= n - i,
            rem == t@.skip(i as int),
            forall|j: int| 0 <= j < k ==> rem[j] == tk@[j],
        decreases tk.len() - k,
    {
        proof {
            assert(rem[k as int] == t@[i + k]);
        }
        if t[i + k] != tk[k] {
            proof {
                assert(rem.take(tok@.len() as int)[k as int] == rem[k as int]);
                assert(rem.take(tok@.len() as int) != tok@);
            }
            return None;
        }
        k = k + 1;
    }
    proof {
        assert(rem.take(tok@.len() as int) =~= tok@);
        assert(rem.skip(tok@.len() as int) =~= t@.skip(i + tok@.len()));
    }
    Some(i + tk.len())
}

/// Reads a double-quoted field starting at position `i` of `t` (right after
/// the opening quote): the unescaped content and the position after the
/// closing quote.
pub fn scan_quoted(t: &Vec<char>, i: usize) -> (r: Option<(Vec<char>, usize)>)
    requires
        i <= t@.len(),
    ensures
        match r {
            Some(p) => {
                &&& i <= p.1 <= t@.len()
                &&& scan_qstr(t@.skip(i as int)) == Some((p.0@, t@.skip(p.1 as int)))
            },
            None => scan_qstr(t@.skip(i as int)) is None,
        },
    decreases t@.len() - i,
{
    let ghost rem = t@.skip(i as int);
    proof {
        assert(rem.len() == t@.len() - i);
    }
    if i >= t.len() {
        return None;
    }
    proof {
        assert(rem[0] == t@[i as int]);
    }
    let c = t[i];
    if c == '"' {
        proof {
            assert(rem.drop_first() =~= t@.skip(i as int + 1));
        }
        Some((Vec::new(), i + 1))
    } else if c == '\\' {
        if t.len() - i >= 2 {
            proof {
                assert(rem.len() >= 2);
                assert(rem[1] == t@[i + 1]);
                assert(rem.skip(2) =~= t@.skip(i as int + 2));
            }
            match scan_quoted(t, i + 2) {
                Some((mut v, j)) => {
                    v.insert(0, t[i + 1]);
                    proof {
                        assert(v@ =~= seq![rem[1]] + v@.drop_first());
                    }
                    Some((v, j))
                },
                None => None,
            }
        } else {
            None
        }
    } else {
        proof {
            assert(rem.drop_first() =~= t@.skip(i as int + 1));
        }
        match scan_quoted(t, i + 1) {
            Some((mut v, j)) => {
                v.insert(0, c);
                proof {
                    assert(v@ =~= seq![rem[0]] + v@.drop_first());
                }
                Some((v, j))
            },
            None => None,
        }
    }
}

/// `c` occurs somewhere in `t`.
pub open spec fn has_char(t: Seq<char>, c: char) -> bool {
    exists|i: int| 0 <= i < t.len() && t[i] == c
}

/// `p` stands in `t` at position `k`.
pub open spec fn occurs_at(t: Seq<char>, p: Seq<char>, k: int) -> bool {
    0 <= k && k + p.len() <= t.len() && t.subrange(k, k + p.len()) == p
}

/// `p` stands somewhere in `t`.
pub open spec fn occurs(t: Seq<char>, p: Seq<char>) -> bool {
    exists|k: int| occurs_at(t, p, k)
}

pub proof fn lemma_has_char_add(a: Seq<char>, b: Seq<char>, c: char)
    ensures
        has_char(a + b, c) == (has_char(a, c) || has_char(b, c)),
{
    if has_char(a, c) {
        let i = choose|i: int| 0 <= i < a.len() && a[i] == c;
        assert((a + b)[i] == c);
    }
    if has_char(b, c) {
        let i = choose|i: int| 0 <= i < b.len() && b[i] == c;
        assert((a + b)[a.len() + i] == c);
    }
    if has_char(a + b, c) {
        let i = choose|i: int| 0 <= i < (a + b).len() && (a + b)[i] == c;
        if i < a.len() {
            assert(a[i] == c);
        } else {
            assert(b[i - a.len()] == c);
        }
    }
}

/// A pattern whose first character is missing from `t` stands nowhere in `t`.
pub proof fn lemma_no_marker_no_occurrence(t: Seq<char>, p: Seq<char>)
    requires
        p.len() > 0,
        !has_char(t, p[0]),
    ensures
        !occurs(t, p),
{
    assert forall|k: int| !occurs_at(t, p, k) by {
        if occurs_at(t, p, k) {
            assert(t.subrange(k, k + p.len())[0] == t[k]);
            assert(t[k] == p[0]);
        }
    }
}

/// `t` with the first occurrence of `p` replaced by `v`; `t` itself when `p`
/// stands nowhere in `t`.
pub open spec fn subst_first(t: Seq<char>, p: Seq<char>, v: Seq<char>) -> Seq<char>
    decreases t.len(),
{
    if p.len() == 0 || t.len() < p.len() {
        t
    } else if t.take(p.len() as int) == p {
        v + t.skip(p.len() as int)
    } else {
        seq![t[0]] + subst_first(t.drop_first(), p, v)
    }
}

/// Substituting into a text of the shape `pre + p + post`, where the leading
/// character of `p` is absent from `pre`, replaces exactly that marked spot.
pub proof fn lemma_subst_at_marker(pre: Seq<char>, p: Seq<char>, post: Seq<char>, v: Seq<char>)
    requires
        p.len() > 0,
        !has_char(pre, p[0]),
    ensures
        subst_first(pre + p + post, p, v) == pre + v + post,
    decreases pre.len(),
{
    let t = pre + p + post;
    if pre.len() == 0 {
        assert(t.take(p.len() as int) =~= p);
        assert(t.skip(p.len() as int) =~= post);
        assert(subst_first(t, p, v) =~= pre + v + post);
    } else {
        assert(t[0] == pre[0]);
        assert(pre[0] != p[0]);
        assert(t.take(p.len() as int)[0] == t[0]);
        assert(t.take(p.len() as int) != p);
        let pre1 = pre.drop_first();
        assert(!has_char(pre1, p[0])) by {
            if has_char(pre1, p[0]) {
                let i = choose|i: int| 0 <= i < pre1.len() && pre1[i] == p[0];
                assert(pre[i + 1] == p[0]);
            }
        }
        assert(t.drop_first() =~= pre1 + p + post);
        lemma_subst_at_marker(pre1, p, post, v);
        assert(subst_first(t, p, v) =~= pre + v + post);
    }
}

/// Checks whether the characters of `p` stand at position `i` of `t`.
fn matches_at(t: &Vec<char>, i: usize, p: &Vec<char>) -> (r: bool)
    requires
        i <= t@.len(),
    ensures
        r == (p@.len() <= t@.len() - i && t@.skip(i as int).take(p@.len() as int) == p@),
{
    let n: usize = t.len();
    if p.len() > n - i {
        return false;
    }
    let ghost piece = t@.skip(i as int).take(p@.len() as int);
    let mut k: usize = 0;
    while k < p.len()
        invariant
            k <= p.len(),
            i <= t@.len(),
            n == t@.len(),
            p.len() <= n - i,
            piece == t@.skip(i as int).take(p@.len() as int),
            forall|j: int| 0 <= j < k ==> piece[j] == p@[j],
        decreases p.len() - k,
    {
        proof {
            assert(piece[k as int] == t@[i + k]);
        }
        if t[i + k] != p[k] {
            proof {
                assert(piece[k as int] != p@[k as int]);
                assert(piece != p@);
            }
            return false;
        }
        k = k + 1;
    }
    proof {
        assert(piece =~= p@);
    }
    true
}

/// Copies the characters of `t` from position `i` on.
fn tail_of(t: &Vec<char>, i: usize) -> (out: Vec<char>)
    requires
        i <= t@.len(),
    ensures
        out@ == t@.skip(i as int),
{
    let mut out: Vec<char> = Vec::new();
    let mut k: usize = i;
    while k < t.len()
        invariant
            i <= k <= t@.len(),
            out@ == t@.subrange(i as int, k as int),
        decreases t.len() - k,
    {
        out.push(t[k]);
        k = k + 1;
        proof {
            assert(out@ =~= t@.subrange(i as int, k as int));
        }
    }
    proof {
        assert(out@ =~= t@.skip(i as int));
    }
    out
}

/// Replaces the first occurrence of `p` in `t` from position `i` on.
fn subst_from(t: &Vec<char>, i: usize, p: &Vec<char>, v: &Vec<char>) -> (out: Vec<char>)
    requires
        i <= t@.len(),
    ensures
        out@ == subst_first(t@.skip(i as int), p@, v@),
    decreases t@.len() - i,
{
    let ghost rem = t@.skip(i as int);
    proof {
        assert(rem.len() == t@.len() - i);
    }
    if p.len() == 0 || t.len() - i < p.len() {
        return tail_of(t, i);
    }
    if matches_at(t, i, p) {
        let mut out = clone_text(v);
        let rest = tail_of(t, i + p.len());
        push_text(&mut out, &rest);
        proof {
            assert(rem.skip(p@.len() as int) =~= t@.skip(i + p@.len()));
        }
        out
    } else {
        proof {
            assert(rem.drop_first() =~= t@.skip(i as int + 1));
            assert(rem[0] == t@[i as int]);
        }
        let mut rest = subst_from(t, i + 1, p, v);
        rest.insert(0, t[i]);
        proof {
            assert(rest@ =~= seq![rem[0]] + rest@.drop_first());
        }
        rest
    }
}

/// Replaces the first occurrence of `p` in `t` by `v`; returns `t` unchanged
/// when `p` stands nowhere in it.
pub fn replace_first(t: &Vec<char>, p: &Vec<char>, v: &Vec<char>) -> (out: Vec<char>)
    ensures
        out@ == subst_first(t@, p@, v@),
{
    proof {
        assert(t@.skip(0) =~= t@);
    }
    subst_from(t, 0, p, v)
}

/// A token at the front of a text strips off exactly, leaving the rest.
pub proof fn lemma_strip_prefix_exact(tok: Seq<char>, rest: Seq<char>)
    ensures
        strip_prefix(tok + rest, tok) == Some(rest),
{
    assert((tok + rest).take(tok.len() as int) =~= tok);
    assert((tok + rest).skip(tok.len() as int) =~= rest);
}

/// How a boolean is written in a record.
pub open spec fn bool_text(b: bool) -> Seq<char> {
    if b {
        "true"@
    } else {
        "false"@
    }
}

/// Appends `true` or `false` to `out`.
pub fn push_bool(out: &mut Vec<char>, b: bool)
    ensures
        final(out)@ == old(out)@ + bool_text(b),
{
    if b {
        push_str(out, "true");
    } else {
        push_str(out, "false");
    }
}

/// Reads a boolean written as `true` or `false` from the front of `t`.
pub open spec fn scan_bool(t: Seq<char>) -> Option<(bool, Seq<char>)> {
    match strip_prefix(t, "true"@) {
        Some(rest) => Some((true, rest)),
        None => match strip_prefix(t, "false"@) {
            Some(rest) => Some((false, rest)),
            None => None,
        },
    }
}

/// A written boolean at the front of a text scans back to itself.
pub proof fn lemma_scan_bool_exact(b: bool, rest: Seq<char>)
    ensures
        scan_bool(bool_text(b) + rest) == Some((b, rest)),
{
    reveal_strlit("true");
    reveal_strlit("false");
    if b {
        lemma_strip_prefix_exact("true"@, rest);
    } else {
        let t = "false"@ + rest;
        assert(t[0] == 'f');
        if "true"@.len() <= t.len() && t.take("true"@.len() as int) == "true"@ {
            assert(t.take("true"@.len() as int)[0] == t[0]);
            assert("true"@[0] == 't');
        }
        assert(strip_prefix(t, "true"@) is None);
        lemma_strip_prefix_exact("false"@, rest);
    }
}

/// Reads a boolean starting at position `i` of `t`.
pub fn scan_boolean(t: &Vec<char>, i: usize) -> (r: Option<(bool, usize)>)
    requires
        i <= t@.len(),
    ensures
        match r {
            Some(p) => {
                &&& i <= p.1 <= t@.len()
                &&& scan_bool(t@.skip(i as int)) == Some((p.0, t@.skip(p.1 as int)))
            },
            None => scan_bool(t@.skip(i as int)) is None,
        },
{
    match take_prefix(t, i, "true") {
        Some(j) => Some((true, j)),
        None => match take_prefix(t, i, "false") {
            Some(j) => Some((false, j)),
            None => None,
        },
    }
}

} // verus!

//! Paths written as strings with '/' separators: joining, and the file
//! name, stem and extension of the last component.

use vstd::prelude::*;
use vstd::string::*;
use crate::text::{cat, cat3, chars_of, owned, string_from_chars};

verus! {

/// `p` without what names no further component at its end: trailing
/// separators, and "." components that follow a separator.
pub open spec fn strip_trailing(p: Seq<char>) -> Seq<char>
    decreases p.len(),
{
    if p.len() > 0 && p.last() == '/' {
        strip_trailing(p.drop_last())
    } else if p.len() >= 2 && p.last() == '.' && p[p.len() - 2] == '/' {
        strip_trailing(p.drop_last())
    } else {
        p
    }
}

/// The position just after the last separator of `p` (0 when there is none).
pub open spec fn after_last_sep(p: Seq<char>) -> int
    decreases p.len(),
{
    if p.len() == 0 {
        0
    } else if p.last() == '/' {
        p.len() as int
    } else {
        after_last_sep(p.drop_last())
    }
}

/// The last component of a path, "." components after a separator not
/// counting; `None` for a path that ends in "..", is "." or has no component.
pub open spec fn file_name(p: Seq<char>) -> Option<Seq<char>> {
    let s = strip_trailing(p);
    let n = s.skip(after_last_sep(s));
    if n.len() == 0 || n == ".."@ || n == "."@ {
        None
    } else {
        Some(n)
    }
}

/// The position of the last '.' of `s`, or -1.
pub open spec fn last_dot(s: Seq<char>) -> int
    decreases s.len(),
{
    if s.len() == 0 {
        -1
    } else if s.last() == '.' {
        s.len() - 1
    } else {
        last_dot(s.drop_last())
    }
}

/// The extension of a file name: what follows its last '.', unless that
/// '.' is its first character.
pub open spec fn name_extension(n: Seq<char>) -> Option<Seq<char>> {
    if last_dot(n) > 0 {
        Some(n.skip(last_dot(n) + 1))
    } else {
        None
    }
}

/// The stem of a file name: what precedes its last '.', or the whole name
/// when the last '.' is its first character or there is none.
pub open spec fn name_stem(n: Seq<char>) -> Seq<char> {
    if last_dot(n) > 0 {
        n.take(last_dot(n))
    } else {
        n
    }
}

/// The extension of the last component of a path.
pub open spec fn extension(p: Seq<char>) -> Option<Seq<char>> {
    match file_name(p) {
        Some(n) => name_extension(n),
        None => None,
    }
}

/// The stem of the last component of a path.
pub open spec fn file_stem(p: Seq<char>) -> Option<Seq<char>> {
    match file_name(p) {
        Some(n) => Some(name_stem(n)),
        None => None,
    }
}

/// `rel` below `base`: `rel` itself when it is absolute or `base` is empty,
/// else the two with one separator between them.
pub open spec fn join_path(base: Seq<char>, rel: Seq<char>) -> Seq<char> {
    if rel.len() > 0 && rel[0] == '/' {
        rel
    } else if base.len() == 0 {
        rel
    } else if base.last() == '/' {
        base + rel
    } else {
        base + "/"@ + rel
    }
}

proof fn lemma_after_last_sep(p: Seq<char>, k: int)
    requires
        0 <= k <= p.len(),
        k == 0 || p[k - 1] == '/',
        forall|i: int| k <= i < p.len() ==> p[i] != '/',
    ensures
        after_last_sep(p) == k,
    decreases p.len(),
{
    if p.len() > k {
        lemma_after_last_sep(p.drop_last(), k);
    }
}

proof fn lemma_last_dot(s: Seq<char>, k: int)
    requires
        -1 <= k < s.len(),
        k == -1 || s[k] == '.',
        forall|i: int| k < i < s.len() ==> s[i] != '.',
    ensures
        last_dot(s) == k,
    decreases s.len(),
{
    if s.len() > k + 1 {
        lemma_last_dot(s.drop_last(), k);
    }
}

/// Where the last '.' of `s` stands: a '.' with none after it.
pub proof fn lemma_last_dot_facts(s: Seq<char>)
    ensures
        -1 <= last_dot(s) < s.len(),
        last_dot(s) >= 0 ==> s[last_dot(s)] == '.',
        forall|i: int| last_dot(s) < i < s.len() ==> s[i] != '.',
    decreases s.len(),
{
    if s.len() > 0 && s.last() != '.' {
        lemma_last_dot_facts(s.drop_last());
        assert forall|i: int| last_dot(s) < i < s.len() implies s[i] != '.' by {
            if i < s.len() - 1 {
                assert(s[i] == s.drop_last()[i]);
            }
        }
    }
}

proof fn lemma_after_last_sep_bounds(p: Seq<char>)
    ensures
        0 <= after_last_sep(p) <= p.len(),
    decreases p.len(),
{
    if p.len() > 0 {
        lemma_after_last_sep_bounds(p.drop_last());
    }
}

proof fn lemma_after_last_sep_append(p: Seq<char>, t: Seq<char>)
    requires
        forall|i: int| 0 <= i < t.len() ==> t[i] != '/',
    ensures
        after_last_sep(p + t) == after_last_sep(p),
    decreases t.len(),
{
    if t.len() == 0 {
        assert(p + t =~= p);
    } else {
        assert((p + t).drop_last() =~= p + t.drop_last());
        lemma_after_last_sep_append(p, t.drop_last());
    }
}

/// A file name with its extension: when `p` names a file directly (no
/// trailing separator or "." component), writing "." and an extension
/// after it names a file whose extension that is and whose stem is the
/// whole former name.
pub proof fn lemma_with_extension(p: Seq<char>, ext: Seq<char>)
    requires
        strip_trailing(p) == p,
        file_name(p) is Some,
        ext.len() > 0,
        forall|i: int| 0 <= i < ext.len() ==> ext[i] != '/' && ext[i] != '.',
    ensures
        file_name(p + "."@ + ext) == Some(file_name(p)->0 + "."@ + ext),
        extension(p + "."@ + ext) == Some(ext),
        file_stem(p + "."@ + ext) == Some(file_name(p)->0),
{
    reveal_strlit(".");
    reveal_strlit("..");
    let q = p + "."@ + ext;
    let t = "."@ + ext;
    assert(q =~= p + t);
    assert(q.last() == ext.last());
    assert(strip_trailing(q) == q);
    assert forall|i: int| 0 <= i < t.len() implies t[i] != '/' by {
        if i > 0 {
            assert(t[i] == ext[i - 1]);
        }
    }
    lemma_after_last_sep_append(p, t);
    let k = after_last_sep(p);
    lemma_after_last_sep_bounds(p);
    let n = file_name(p)->0;
    assert(n == p.skip(k));
    let m = q.skip(k);
    assert(m =~= n + "."@ + ext);
    assert(m.len() >= 3);
    assert(m != ".."@ && m != "."@);
    assert(file_name(q) == Some(m));
    assert(m[n.len() as int] == '.');
    assert forall|i: int| n.len() < i < m.len() implies m[i] != '.' by {
        assert(m[i] == ext[i - n.len() - 1]);
    }
    lemma_last_dot(m, n.len() as int);
    assert(n.len() > 0);
    assert(m.skip(n.len() as int + 1) =~= ext);
    assert(m.take(n.len() as int) =~= n);
}

/// The last component of `path`, as characters.
fn file_name_chars(path: &str) -> (r: Option<Vec<char>>)
    ensures
        match r {
            Some(v) => file_name(path@) == Some(v@),
            None => file_name(path@) is None,
        },
{
    let v = chars_of(path);
    let mut n = v.len();
    proof {
        assert(v@.take(n as int) =~= v@);
    }
    while n > 0 && (v[n - 1] == '/' || (n >= 2 && v[n - 1] == '.' && v[n - 2] == '/'))
        invariant
            v@ == path@,
            n <= v@.len(),
            strip_trailing(v@.take(n as int)) == strip_trailing(v@),
        decreases n,
    {
        proof {
            assert(v@.take(n as int).drop_last() =~= v@.take(n - 1));
        }
        n = n - 1;
    }
    let mut k = n;
    while k > 0 && v[k - 1] != '/'
        invariant
            n <= v@.len(),
            k <= n,
            forall|i: int| k <= i < n ==> v@[i] != '/',
        decreases k,
    {
        k = k - 1;
    }
    let ghost s = v@.take(n as int);
    proof {
        assert(strip_trailing(s) == s);
        lemma_after_last_sep(s, k as int);
    }
    let mut out: Vec<char> = Vec::new();
    let mut i = k;
    while i < n
        invariant
            k <= i <= n,
            n <= v@.len(),
            out@ == v@.subrange(k as int, i as int),
        decreases n - i,
    {
        out.push(v[i]);
        i = i + 1;
        assert(out@ =~= v@.subrange(k as int, i as int));
    }
    assert(out@ =~= s.skip(k as int));
    if out.len() == 0 || (out.len() == 2 && out[0] == '.' && out[1] == '.') || (out.len() == 1 && out[0] == '.') {
        proof {
            reveal_strlit("..");
            reveal_strlit(".");
            if out@.len() == 2 {
                assert(out@ =~= ".."@);
            }
            if out@.len() == 1 {
                assert(out@ =~= "."@);
            }
        }
        None
    } else {
        proof {
            reveal_strlit("..");
            reveal_strlit(".");
            if out@ == ".."@ {
                assert(out@.len() == 2 && out@[0] == '.' && out@[1] == '.');
            }
            if out@ == "."@ {
                assert(out@.len() == 1 && out@[0] == '.');
            }
        }
        Some(out)
    }
}

/// The characters of `v` from `a` to `b`.
fn chars_range(v: &Vec<char>, a: usize, b: usize) -> (r: Vec<char>)
    requires
        a <= b <= v@.len(),
    ensures
        r@ == v@.subrange(a as int, b as int),
{
    let mut out: Vec<char> = Vec::new();
    let mut i = a;
    while i < b
        invariant
            a <= i <= b,
            b <= v@.len(),
            out@ == v@.subrange(a as int, i as int),
        decreases b - i,
    {
        out.push(v[i]);
        i = i + 1;
        assert(out@ =~= v@.subrange(a as int, i as int));
    }
    out
}

/// The position of the last '.' of `v`, if any.
fn find_last_dot(v: &Vec<char>) -> (r: Option<usize>)
    ensures
        match r {
            Some(d) => d < v@.len() && last_dot(v@) == d as int,
            None => last_dot(v@) == -1,
        },
{
    let mut k = v.len();
    while k > 0 && v[k - 1] != '.'
        invariant
            k <= v@.len(),
            forall|i: int| k <= i < v@.len() ==> v@[i] != '.',
        decreases k,
    {
        k = k - 1;
    }
    if k == 0 {
        proof {
            lemma_last_dot(v@, -1);
        }
        None
    } else {
        proof {
            lemma_last_dot(v@, k - 1);
        }
        Some(k - 1)
    }
}

/// The extension of the last component of `path` (`Path::extension`).
pub fn path_extension(path: &str) -> (r: Option<String>)
    ensures
        match r {
            Some(e) => extension(path@) == Some(e@),
            None => extension(path@) is None,
        },
{
    match file_name_chars(path) {
        None => None,
        Some(name) => match find_last_dot(&name) {
            Some(d) => {
                if d > 0 {
                    let nl = name.len();
                    let tail = chars_range(&name, d + 1, nl);
                    assert(tail@ =~= name@.skip(d + 1));
                    Some(string_from_chars(tail.as_slice()))
                } else {
                    None
                }
            },
            None => None,
        },
    }
}

/// The stem of the last component of `path` (`Path::file_stem`).
pub fn path_stem(path: &str) -> (r: Option<String>)
    ensures
        match r {
            Some(e) => file_stem(path@) == Some(e@),
            None => file_stem(path@) is None,
        },
{
    match file_name_chars(path) {
        None => None,
        Some(name) => match find_last_dot(&name) {
            Some(d) => {
                if d > 0 {
                    let head = chars_range(&name, 0, d);
                    assert(head@ =~= name@.take(d as int));
                    Some(string_from_chars(head.as_slice()))
                } else {
                    Some(string_from_chars(name.as_slice()))
                }
            },
            None => Some(string_from_chars(name.as_slice())),
        },
    }
}

/// `rel` below `base` (`Path::join`, with '/' separators).
pub fn join(base: &str, rel: &str) -> (r: String)
    ensures
        r@ == join_path(base@, rel@),
{
    let nr = rel.unicode_len();
    if nr > 0 && rel.get_char(0) == '/' {
        return owned(rel);
    }
    let nb = base.unicode_len();
    if nb == 0 {
        owned(rel)
    } else if base.get_char(nb - 1) == '/' {
        cat(base, rel)
    } else {
        cat3(base, "/", rel)
    }
}

/// The last component of `path` (`Path::file_name`).
pub fn path_file_name(path: &str) -> (r: Option<String>)
    ensures
        match r {
            Some(n) => file_name(path@) == Some(n@),
            None => file_name(path@) is None,
        },
{
    match file_name_chars(path) {
        Some(v) => Some(string_from_chars(v.as_slice())),
        None => None,
    }
}

} // verus!

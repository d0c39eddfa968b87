//! YAML values as plain trees, and the layering of one tree over another:
//! an override layer's tree is laid over a configuration section's tree,
//! mapping by mapping, its other values replacing what they meet.

use vstd::prelude::*;
use crate::text::str_eq;

verus! {

/// A YAML value: scalars keep their text, sequences and mappings their
/// entries in order. Keys of mappings are matched by their plain form
/// (`tree_view`): two numbers match when their texts do, two mappings when
/// their entries agree in order.
#[derive(Debug)]
pub enum YamlTree {
    Null,
    Bool(bool),
    /// A number, by its text.
    Number(String),
    Text(String),
    Sequence(Vec<YamlTree>),
    /// Key and value pairs, in order.
    Mapping(Vec<(YamlTree, YamlTree)>),
    /// A tagged value: the tag and the value.
    Tagged(String, Box<YamlTree>),
}

/// A YAML value as plain data (see `YamlTree`).
pub enum TreeView {
    Null,
    Bool(bool),
    Number(Seq<char>),
    Text(Seq<char>),
    Sequence(Seq<TreeView>),
    Mapping(Seq<(TreeView, TreeView)>),
    Tagged(Seq<char>, Box<TreeView>),
}

/// The plain form of a tree.
pub open spec fn tree_view(t: YamlTree) -> TreeView
    decreases t,
{
    match t {
        YamlTree::Null => TreeView::Null,
        YamlTree::Bool(b) => TreeView::Bool(b),
        YamlTree::Number(n) => TreeView::Number(n@),
        YamlTree::Text(s) => TreeView::Text(s@),
        YamlTree::Sequence(v) => TreeView::Sequence(
            Seq::new(v@.len(), |i: int| if 0 <= i < v@.len() { tree_view(v@[i]) } else { TreeView::Null }),
        ),
        YamlTree::Mapping(m) => TreeView::Mapping(
            Seq::new(
                m@.len(),
                |i: int|
                    if 0 <= i < m@.len() {
                        (tree_view(m@[i].0), tree_view(m@[i].1))
                    } else {
                        (TreeView::Null, TreeView::Null)
                    },
            ),
        ),
        YamlTree::Tagged(tag, v) => TreeView::Tagged(tag@, Box::new(tree_view(*v))),
    }
}


/// The first position of an entry whose key is `k`, if there is one.
pub open spec fn key_position(entries: Seq<(TreeView, TreeView)>, k: TreeView) -> Option<int>
    decreases entries.len(),
{
    if entries.len() == 0 {
        None
    } else if entries[0].0 == k {
        Some(0)
    } else {
        match key_position(entries.drop_first(), k) {
            Some(i) => Some(i + 1),
            None => None,
        }
    }
}

/// `o` laid over `t`: where both are mappings, the mapping of
/// `merge_entries`; otherwise `o`, whatever `t` is (a sequence or scalar
/// of `o` replaces `t` whole).
pub open spec fn merged(t: TreeView, o: TreeView) -> TreeView
    decreases o, 1int,
{
    match t {
        TreeView::Mapping(tm) => match o {
            TreeView::Mapping(om) => TreeView::Mapping(merge_entries(tm, om)),
            _ => o,
        },
        _ => o,
    }
}

/// The entries `om` laid over the entries `tm`, in the order of `om`: an
/// entry whose key `tm` already holds (at its first such position) has its
/// value there replaced by the override's laid over it; any other entry is
/// added at the end.
pub open spec fn merge_entries(tm: Seq<(TreeView, TreeView)>, om: Seq<(TreeView, TreeView)>) -> Seq<(TreeView, TreeView)>
    decreases om, 0int,
{
    if om.len() == 0 {
        tm
    } else {
        let acc = merge_entries(tm, om.drop_last());
        let k = om.last().0;
        let v = om.last().1;
        match key_position(acc, k) {
            Some(i) => acc.update(i, (acc[i].0, merged(acc[i].1, v))),
            None => acc.push((k, v)),
        }
    }
}


/// The plain forms of key and value pairs.
pub open spec fn entries_view(m: Seq<(YamlTree, YamlTree)>) -> Seq<(TreeView, TreeView)> {
    Seq::new(
        m.len(),
        |i: int| if 0 <= i < m.len() { (tree_view(m[i].0), tree_view(m[i].1)) } else { (TreeView::Null, TreeView::Null) },
    )
}

/// The plain forms of values.
pub open spec fn items_view(v: Seq<YamlTree>) -> Seq<TreeView> {
    Seq::new(v.len(), |i: int| if 0 <= i < v.len() { tree_view(v[i]) } else { TreeView::Null })
}

proof fn lemma_view_parts(t: YamlTree)
    ensures
        t matches YamlTree::Mapping(m) ==> tree_view(t) == TreeView::Mapping(entries_view(m@)),
        t matches YamlTree::Sequence(v) ==> tree_view(t) == TreeView::Sequence(items_view(v@)),
{
    match t {
        YamlTree::Mapping(m) => {
            assert(tree_view(t)->Mapping_0 =~= entries_view(m@));
        },
        YamlTree::Sequence(v) => {
            assert(tree_view(t)->Sequence_0 =~= items_view(v@));
        },
        _ => {},
    }
}

proof fn lemma_key_position(es: Seq<(TreeView, TreeView)>, k: TreeView, p: int)
    requires
        0 <= p <= es.len(),
        forall|q: int| 0 <= q < p ==> (#[trigger] es[q]).0 != k,
        p < es.len() ==> es[p].0 == k,
    ensures
        key_position(es, k) == if p < es.len() {
            Some(p)
        } else {
            None::<int>
        },
    decreases p,
{
    if p > 0 {
        let t = es.drop_first();
        assert forall|q: int| 0 <= q < p - 1 implies (#[trigger] t[q]).0 != k by {
            assert(t[q] == es[q + 1]);
        }
        if p < es.len() {
            assert(t[p - 1] == es[p]);
        }
        assert(es[0].0 != k);
        lemma_key_position(t, k, p - 1);
    }
}

/// A copy of a tree.
pub fn copy_tree(t: &YamlTree) -> (r: YamlTree)
    ensures
        tree_view(r) == tree_view(*t),
    decreases t,
{
    match t {
        YamlTree::Null => YamlTree::Null,
        YamlTree::Bool(b) => YamlTree::Bool(*b),
        YamlTree::Number(n) => YamlTree::Number(n.clone()),
        YamlTree::Text(x) => YamlTree::Text(x.clone()),
        YamlTree::Sequence(v) => {
            let mut out: Vec<YamlTree> = Vec::new();
            let mut i: usize = 0;
            while i < v.len()
                invariant
                    *t is Sequence,
                    (*t)->Sequence_0 == *v,
                    i <= v@.len(),
                    out@.len() == i,
                    forall|j: int| 0 <= j < i ==> tree_view(#[trigger] out@[j]) == tree_view(v@[j]),
                decreases v@.len() - i,
            {
                proof {
                    assert(decreases_to!(*t => (*t)->Sequence_0));
                    assert(decreases_to!(*v => v@));
                    assert(decreases_to!(v@ => v@[i as int]));
                }
                let c = copy_tree(&v[i]);
                out.push(c);
                i = i + 1;
            }
            let r = YamlTree::Sequence(out);
            proof {
                lemma_view_parts(r);
                lemma_view_parts(*t);
                assert(items_view(out@) =~= items_view(v@));
            }
            r
        },
        YamlTree::Mapping(m) => {
            let mut out: Vec<(YamlTree, YamlTree)> = Vec::new();
            let mut i: usize = 0;
            while i < m.len()
                invariant
                    *t is Mapping,
                    (*t)->Mapping_0 == *m,
                    i <= m@.len(),
                    out@.len() == i,
                    forall|j: int|
                        0 <= j < i ==> tree_view((#[trigger] out@[j]).0) == tree_view(m@[j].0) && tree_view(out@[j].1)
                            == tree_view(m@[j].1),
                decreases m@.len() - i,
            {
                proof {
                    assert(decreases_to!(*t => (*t)->Mapping_0));
                    assert(decreases_to!(*m => m@));
                    assert(decreases_to!(m@ => m@[i as int]));
                    assert(decreases_to!(m@[i as int] => m@[i as int].0));
                    assert(decreases_to!(m@[i as int] => m@[i as int].1));
                }
                let k = copy_tree(&m[i].0);
                let v = copy_tree(&m[i].1);
                out.push((k, v));
                i = i + 1;
            }
            let r = YamlTree::Mapping(out);
            proof {
                lemma_view_parts(r);
                lemma_view_parts(*t);
                assert(entries_view(out@) =~= entries_view(m@));
            }
            r
        },
        YamlTree::Tagged(tag, v) => {
            let c = copy_tree(&**v);
            YamlTree::Tagged(tag.clone(), Box::new(c))
        },
    }
}


/// Whether two trees have the same plain form.
pub fn same_tree(a: &YamlTree, b: &YamlTree) -> (r: bool)
    ensures
        r == (tree_view(*a) == tree_view(*b)),
    decreases a,
{
    proof {
        lemma_view_parts(*a);
        lemma_view_parts(*b);
    }
    match a {
        YamlTree::Null => match b {
            YamlTree::Null => true,
            _ => false,
        },
        YamlTree::Bool(x) => match b {
            YamlTree::Bool(y) => *x == *y,
            _ => false,
        },
        YamlTree::Number(x) => match b {
            YamlTree::Number(y) => str_eq(x.as_str(), y.as_str()),
            _ => false,
        },
        YamlTree::Text(x) => match b {
            YamlTree::Text(y) => str_eq(x.as_str(), y.as_str()),
            _ => false,
        },
        YamlTree::Sequence(x) => match b {
            YamlTree::Sequence(y) => {
                if x.len() != y.len() {
                    assert(items_view(x@).len() != items_view(y@).len());
                    return false;
                }
                let mut i: usize = 0;
                while i < x.len()
                    invariant
                        *a is Sequence,
                        (*a)->Sequence_0 == *x,
                        tree_view(*a) == TreeView::Sequence(items_view(x@)),
                        tree_view(*b) == TreeView::Sequence(items_view(y@)),
                        x@.len() == y@.len(),
                        i <= x@.len(),
                        forall|j: int| 0 <= j < i ==> tree_view(#[trigger] x@[j]) == tree_view(y@[j]),
                    decreases x@.len() - i,
                {
                    proof {
                        assert(decreases_to!(*a => (*a)->Sequence_0));
                        assert(decreases_to!(*x => x@));
                        assert(decreases_to!(x@ => x@[i as int]));
                    }
                    if !same_tree(&x[i], &y[i]) {
                        assert(items_view(x@)[i as int] != items_view(y@)[i as int]);
                        return false;
                    }
                    i = i + 1;
                }
                assert(items_view(x@) =~= items_view(y@));
                true
            },
            _ => false,
        },
        YamlTree::Mapping(x) => match b {
            YamlTree::Mapping(y) => {
                if x.len() != y.len() {
                    assert(entries_view(x@).len() != entries_view(y@).len());
                    return false;
                }
                let mut i: usize = 0;
                while i < x.len()
                    invariant
                        *a is Mapping,
                        (*a)->Mapping_0 == *x,
                        tree_view(*a) == TreeView::Mapping(entries_view(x@)),
                        tree_view(*b) == TreeView::Mapping(entries_view(y@)),
                        x@.len() == y@.len(),
                        i <= x@.len(),
                        forall|j: int|
                            0 <= j < i ==> tree_view((#[trigger] x@[j]).0) == tree_view(y@[j].0) && tree_view(x@[j].1)
                                == tree_view(y@[j].1),
                    decreases x@.len() - i,
                {
                    proof {
                        assert(decreases_to!(*a => (*a)->Mapping_0));
                        assert(decreases_to!(*x => x@));
                        assert(decreases_to!(x@ => x@[i as int]));
                        assert(decreases_to!(x@[i as int] => x@[i as int].0));
                        assert(decreases_to!(x@[i as int] => x@[i as int].1));
                    }
                    if !same_tree(&x[i].0, &y[i].0) || !same_tree(&x[i].1, &y[i].1) {
                        assert(entries_view(x@)[i as int] != entries_view(y@)[i as int]);
                        return false;
                    }
                    i = i + 1;
                }
                assert(entries_view(x@) =~= entries_view(y@));
                true
            },
            _ => false,
        },
        YamlTree::Tagged(ta, va) => match b {
            YamlTree::Tagged(tb, vb) => str_eq(ta.as_str(), tb.as_str()) && same_tree(&**va, &**vb),
            _ => false,
        },
    }
}


/// Lays `override_value` over `target` (see `merged`): mappings are merged
/// key by key, anything else in the override replaces the target.
pub fn merge_yaml_values(target: &mut YamlTree, override_value: &YamlTree)
    ensures
        tree_view(*final(target)) == merged(tree_view(*old(target)), tree_view(*override_value)),
    decreases override_value,
{
    proof {
        lemma_view_parts(*old(target));
        lemma_view_parts(*override_value);
    }
    match override_value {
        YamlTree::Mapping(om) => {
            let mut t = YamlTree::Null;
            core::mem::swap(&mut t, target);
            match t {
                YamlTree::Mapping(mut tm) => {
                    let ghost tm0 = entries_view(tm@);
                    let ghost omv = entries_view(om@);
                    let mut j: usize = 0;
                    assert(omv.take(0) =~= Seq::<(TreeView, TreeView)>::empty());
                    while j < om.len()
                        invariant
                            *override_value is Mapping,
                            (*override_value)->Mapping_0 == *om,
                            omv == entries_view(om@),
                            j <= om@.len(),
                            entries_view(tm@) == merge_entries(tm0, omv.take(j as int)),
                        decreases om@.len() - j,
                    {
                        let ghost before = entries_view(tm@);
                        let ghost k = tree_view(om@[j as int].0);
                        let mut p: usize = 0;
                        while p < tm.len() && !same_tree(&tm[p].0, &om[j].0)
                            invariant
                                j < om@.len(),
                                k == tree_view(om@[j as int].0),
                                before == entries_view(tm@),
                                p <= tm@.len(),
                                forall|q: int| 0 <= q < p ==> (#[trigger] before[q]).0 != k,
                            decreases tm@.len() - p,
                        {
                            p = p + 1;
                        }
                        proof {
                            assert(omv[j as int].0 == k);
                            lemma_key_position(before, k, p as int);
                            assert(omv.take(j + 1).drop_last() =~= omv.take(j as int));
                            assert(omv.take(j + 1).last() == omv[j as int]);
                        }
                        if p < tm.len() {
                            let mut entry = (YamlTree::Null, YamlTree::Null);
                            tm.set_and_swap(p, &mut entry);
                            let (key, mut value) = entry;
                            proof {
                                assert(decreases_to!(*override_value => (*override_value)->Mapping_0));
                                assert(decreases_to!(*om => om@));
                                assert(decreases_to!(om@ => om@[j as int]));
                                assert(decreases_to!(om@[j as int] => om@[j as int].1));
                            }
                            merge_yaml_values(&mut value, &om[j].1);
                            tm.set(p, (key, value));
                            proof {
                                assert(entries_view(tm@) =~= before.update(
                                    p as int,
                                    (before[p as int].0, merged(before[p as int].1, omv[j as int].1)),
                                ));
                            }
                        } else {
                            let key = copy_tree(&om[j].0);
                            let value = copy_tree(&om[j].1);
                            tm.push((key, value));
                            proof {
                                assert(entries_view(tm@) =~= before.push(omv[j as int]));
                            }
                        }
                        j = j + 1;
                    }
                    proof {
                        assert(omv.take(om@.len() as int) =~= omv);
                    }
                    *target = YamlTree::Mapping(tm);
                    proof {
                        lemma_view_parts(*target);
                    }
                },
                _ => {
                    *target = copy_tree(override_value);
                },
            }
        },
        _ => {
            *target = copy_tree(override_value);
        },
    }
}


/// The value under the key `k`, at its first position.
pub open spec fn lookup(entries: Seq<(TreeView, TreeView)>, k: TreeView) -> Option<TreeView> {
    match key_position(entries, k) {
        Some(i) => Some(entries[i].1),
        None => None,
    }
}

/// No key occurs twice.
pub open spec fn distinct_keys(entries: Seq<(TreeView, TreeView)>) -> bool {
    forall|i: int, j: int| 0 <= i < j < entries.len() ==> (#[trigger] entries[i]).0 != (#[trigger] entries[j]).0
}

proof fn lemma_key_position_valid(es: Seq<(TreeView, TreeView)>, k: TreeView)
    ensures
        key_position(es, k) matches Some(i) ==> 0 <= i < es.len() && es[i].0 == k && forall|q: int|
            0 <= q < i ==> (#[trigger] es[q]).0 != k,
        key_position(es, k) is None ==> forall|q: int| 0 <= q < es.len() ==> (#[trigger] es[q]).0 != k,
    decreases es.len(),
{
    if es.len() > 0 && es[0].0 != k {
        let t = es.drop_first();
        lemma_key_position_valid(t, k);
        assert forall|q: int| 0 < q < es.len() implies es[q] == #[trigger] t[q - 1] by {}
        if let Some(i) = key_position(t, k) {
            assert forall|q: int| 0 <= q < i + 1 implies (#[trigger] es[q]).0 != k by {
                if q > 0 {
                    assert(es[q] == t[q - 1]);
                }
            }
        } else {
            assert forall|q: int| 0 <= q < es.len() implies (#[trigger] es[q]).0 != k by {
                if q > 0 {
                    assert(es[q] == t[q - 1]);
                }
            }
        }
    }
}

proof fn lemma_key_position_push(es: Seq<(TreeView, TreeView)>, x: (TreeView, TreeView), k: TreeView)
    ensures
        key_position(es.push(x), k) == match key_position(es, k) {
            Some(i) => Some(i),
            None => if x.0 == k {
                Some(es.len() as int)
            } else {
                None::<int>
            },
        },
{
    let s = es.push(x);
    lemma_key_position_valid(es, k);
    match key_position(es, k) {
        Some(i) => {
            assert forall|q: int| 0 <= q < i implies (#[trigger] s[q]).0 != k by {
                assert(s[q] == es[q]);
            }
            assert(s[i] == es[i]);
            lemma_key_position(s, k, i);
        },
        None => {
            assert forall|q: int| 0 <= q < es.len() implies (#[trigger] s[q]).0 != k by {
                assert(s[q] == es[q]);
            }
            if x.0 == k {
                lemma_key_position(s, k, es.len() as int);
            } else {
                lemma_key_position(s, k, s.len() as int);
            }
        },
    }
}

proof fn lemma_key_position_same_keys(a: Seq<(TreeView, TreeView)>, b: Seq<(TreeView, TreeView)>, k: TreeView)
    requires
        a.len() == b.len(),
        forall|i: int| 0 <= i < a.len() ==> (#[trigger] a[i]).0 == b[i].0,
    ensures
        key_position(a, k) == key_position(b, k),
{
    lemma_key_position_valid(a, k);
    match key_position(a, k) {
        Some(i) => {
            assert forall|q: int| 0 <= q < i implies (#[trigger] b[q]).0 != k by {
                assert(a[q].0 == b[q].0);
            }
            assert(a[i].0 == b[i].0);
            lemma_key_position(b, k, i);
        },
        None => {
            assert forall|q: int| 0 <= q < b.len() implies (#[trigger] b[q]).0 != k by {
                assert(a[q].0 == b[q].0);
            }
            lemma_key_position(b, k, b.len() as int);
        },
    }
}

/// Laying entries over others, with no key twice among the overriding
/// ones: the value under a key is the overriding value laid over the
/// original one where both hold the key, the overriding value where only
/// the override holds it, and the original value where only the original
/// holds it.
pub proof fn lemma_merge_entries_lookup(tm: Seq<(TreeView, TreeView)>, om: Seq<(TreeView, TreeView)>, k: TreeView)
    requires
        distinct_keys(om),
    ensures
        lookup(merge_entries(tm, om), k) == match lookup(om, k) {
            Some(b) => match lookup(tm, k) {
                Some(a) => Some(merged(a, b)),
                None => Some(b),
            },
            None => lookup(tm, k),
        },
    decreases om.len(),
{
    if om.len() > 0 {
        let rest = om.drop_last();
        let x = om.last();
        assert(distinct_keys(rest)) by {
            assert forall|i: int, j: int| 0 <= i < j < rest.len() implies (#[trigger] rest[i]).0 != (#[trigger] rest[j]).0 by {
                assert(rest[i] == om[i] && rest[j] == om[j]);
            }
        }
        lemma_merge_entries_lookup(tm, rest, k);
        let acc = merge_entries(tm, rest);
        assert(om =~= rest.push(x));
        lemma_key_position_push(rest, x, k);
        lemma_key_position_valid(rest, x.0);
        if key_position(rest, x.0) is Some {
            let i = key_position(rest, x.0)->0;
            assert(rest[i] == om[i]);
            assert(om[i].0 != om[om.len() - 1].0);
        }
        lemma_key_position_valid(acc, x.0);
        lemma_key_position_valid(acc, k);
        assert(merge_entries(tm, om) == match key_position(acc, x.0) {
            Some(i) => acc.update(i, (acc[i].0, merged(acc[i].1, x.1))),
            None => acc.push(x),
        });
        if k == x.0 {
            assert(lookup(om, k) == Some(x.1));
            assert(lookup(rest, k) is None);
        } else {
            lemma_key_position_valid(rest, k);
            if let Some(i) = key_position(rest, k) {
                assert(om[i] == rest[i]);
            }
            assert(lookup(om, k) == lookup(rest, k));
        }
        match key_position(acc, x.0) {
            Some(i) => {
                let upd = acc.update(i, (acc[i].0, merged(acc[i].1, x.1)));
                lemma_key_position_same_keys(upd, acc, k);
                if k == x.0 {
                    assert(upd[i] == (acc[i].0, merged(acc[i].1, x.1)));
                } else {
                    if let Some(p) = key_position(acc, k) {
                        assert(p != i);
                        assert(upd[p] == acc[p]);
                    }
                }
            },
            None => {
                lemma_key_position_push(acc, x, k);
                let pushed = acc.push(x);
                if let Some(p) = key_position(acc, k) {
                    assert(pushed[p] == acc[p]);
                }
                assert(pushed[acc.len() as int] == x);
            },
        }
    }
}

/// Laying one mapping over another (see `lemma_merge_entries_lookup`).
pub proof fn lemma_merged_lookup(t: TreeView, o: TreeView, k: TreeView)
    requires
        t is Mapping,
        o is Mapping,
        distinct_keys(o->Mapping_0),
    ensures
        merged(t, o) is Mapping,
        lookup(merged(t, o)->Mapping_0, k) == match lookup(o->Mapping_0, k) {
            Some(b) => match lookup(t->Mapping_0, k) {
                Some(a) => Some(merged(a, b)),
                None => Some(b),
            },
            None => lookup(t->Mapping_0, k),
        },
{
    lemma_merge_entries_lookup(t->Mapping_0, o->Mapping_0, k);
}

/// A value that is no mapping, or laid over a value that is no mapping,
/// replaces it whole.
pub proof fn lemma_merged_replaces(t: TreeView, o: TreeView)
    requires
        !(t is Mapping && o is Mapping),
    ensures
        merged(t, o) == o,
{
}


/// No mapping within the value holds a key twice.
pub open spec fn wf_tree(t: TreeView) -> bool
    decreases t,
{
    match t {
        TreeView::Mapping(es) => distinct_keys(es) && forall|i: int| 0 <= i < es.len() ==> wf_tree(#[trigger] es[i].1),
        _ => true,
    }
}

proof fn lemma_self_entries(es: Seq<(TreeView, TreeView)>, n: int)
    requires
        0 <= n <= es.len(),
        distinct_keys(es),
        forall|i: int| 0 <= i < es.len() ==> merged(#[trigger] es[i].1, es[i].1) == es[i].1,
    ensures
        merge_entries(es, es.take(n)) == es,
    decreases n,
{
    if n == 0 {
        assert(es.take(0) =~= Seq::<(TreeView, TreeView)>::empty());
    } else {
        lemma_self_entries(es, n - 1);
        let m = es.take(n);
        assert(m.drop_last() =~= es.take(n - 1));
        assert(m.last() == es[n - 1]);
        assert forall|q: int| 0 <= q < n - 1 implies (#[trigger] es[q]).0 != es[n - 1].0 by {}
        lemma_key_position(es, es[n - 1].0, n - 1);
        assert(es.update(n - 1, (es[n - 1].0, merged(es[n - 1].1, es[n - 1].1))) =~= es);
    }
}

/// A value laid over itself is itself, where no mapping within it holds a
/// key twice.
pub proof fn lemma_merged_self(v: TreeView)
    requires
        wf_tree(v),
    ensures
        merged(v, v) == v,
    decreases v,
{
    if let TreeView::Mapping(es) = v {
        assert forall|i: int| 0 <= i < es.len() implies merged(#[trigger] es[i].1, es[i].1) == es[i].1 by {
            assert(decreases_to!(v => v->Mapping_0));
            assert(decreases_to!(es => es[i]));
            assert(decreases_to!(es[i] => es[i].1));
            lemma_merged_self(es[i].1);
        }
        lemma_self_entries(es, es.len() as int);
        assert(es.take(es.len() as int) =~= es);
    }
}

proof fn lemma_idem_entries(tm: Seq<(TreeView, TreeView)>, om: Seq<(TreeView, TreeView)>, n: int)
    requires
        0 <= n <= om.len(),
        distinct_keys(om),
        forall|i: int| 0 <= i < om.len() ==> merged(#[trigger] om[i].1, om[i].1) == om[i].1,
        forall|i: int, a: TreeView|
            0 <= i < om.len() ==> merged(#[trigger] merged(a, om[i].1), om[i].1) == merged(a, om[i].1),
    ensures
        merge_entries(merge_entries(tm, om), om.take(n)) == merge_entries(tm, om),
    decreases n,
{
    let r = merge_entries(tm, om);
    if n == 0 {
        assert(om.take(0) =~= Seq::<(TreeView, TreeView)>::empty());
    } else {
        lemma_idem_entries(tm, om, n - 1);
        let m = om.take(n);
        assert(m.drop_last() =~= om.take(n - 1));
        assert(m.last() == om[n - 1]);
        let k = om[n - 1].0;
        let v = om[n - 1].1;
        assert forall|q: int| 0 <= q < n - 1 implies (#[trigger] om[q]).0 != k by {}
        lemma_key_position(om, k, n - 1);
        assert(lookup(om, k) == Some(v));
        lemma_merge_entries_lookup(tm, om, k);
        lemma_key_position_valid(r, k);
        let p = key_position(r, k)->0;
        assert(r.update(p, (r[p].0, merged(r[p].1, v))) =~= r);
    }
}

/// Laying the same value twice is laying it once, where no mapping within
/// it holds a key twice.
pub proof fn lemma_merged_idempotent(t: TreeView, o: TreeView)
    requires
        wf_tree(o),
    ensures
        merged(merged(t, o), o) == merged(t, o),
    decreases o,
{
    lemma_merged_self(o);
    if let TreeView::Mapping(om) = o {
        if let TreeView::Mapping(tm) = t {
            assert forall|i: int| 0 <= i < om.len() implies merged(#[trigger] om[i].1, om[i].1) == om[i].1 by {
                lemma_merged_self(om[i].1);
            }
            assert forall|i: int, a: TreeView| 0 <= i < om.len() implies merged(#[trigger] merged(a, om[i].1), om[i].1)
                == merged(a, om[i].1) by {
                assert(decreases_to!(o => o->Mapping_0));
                assert(decreases_to!(om => om[i]));
                assert(decreases_to!(om[i] => om[i].1));
                lemma_merged_idempotent(a, om[i].1);
            }
            lemma_idem_entries(tm, om, om.len() as int);
            assert(om.take(om.len() as int) =~= om);
        }
    }
}


/// Layers laid one after the other over a mapping: a key whose value in
/// the last layer is no mapping ends with that value, whatever the earlier
/// layers held (the last layer wins).
pub proof fn lemma_last_layer_wins(t: TreeView, o1: TreeView, o2: TreeView, k: TreeView, b: TreeView)
    requires
        t is Mapping,
        o1 is Mapping,
        o2 is Mapping,
        distinct_keys(o1->Mapping_0),
        distinct_keys(o2->Mapping_0),
        lookup(o2->Mapping_0, k) == Some(b),
        !(b is Mapping),
    ensures
        merged(merged(t, o1), o2) is Mapping,
        lookup(merged(merged(t, o1), o2)->Mapping_0, k) == Some(b),
{
    lemma_merged_lookup(t, o1, k);
    lemma_merged_lookup(merged(t, o1), o2, k);
}

} // verus!

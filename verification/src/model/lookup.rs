//! Lookup tables: codes mapped to descriptions, with an optional parent code
//! per entry that arranges the entries in a hierarchy.

use vstd::prelude::*;
use crate::model::CommonMetadata;
use crate::order::{sort_strings, sorted};
use crate::strmap::StrMap;
use crate::text::{cat3, contains_str, has_sub, lower_of, owned, to_lower, views};

verus! {

/// One entry of a lookup table.
#[derive(Debug)]
pub struct LookupEntry {
    /// Entry code.
    pub code: String,
    /// Human-readable description.
    pub description: String,
    /// Parent entry code, for hierarchical lookups.
    pub parent_code: Option<String>,
    /// Whether the entry is active.
    pub active: bool,
    /// Sort order for display.
    pub sort_order: Option<u32>,
    /// Additional attributes.
    pub attributes: StrMap<String>,
    /// Timestamps and version.
    pub common: CommonMetadata,
}

/// The parent code of an entry, as characters.
pub open spec fn parent_of(e: LookupEntry) -> Option<Seq<char>> {
    match e.parent_code {
        Some(p) => Some(p@),
        None => None,
    }
}

/// The view of an optional string argument.
pub open spec fn opt_view(p: Option<&str>) -> Option<Seq<char>> {
    match p {
        Some(s) => Some(s@),
        None => None,
    }
}

fn opt_owned(p: Option<&str>) -> (r: Option<String>)
    ensures
        match r {
            Some(s) => opt_view(p) == Some(s@),
            None => p is None,
        },
{
    match p {
        Some(s) => Some(owned(s)),
        None => None,
    }
}

impl LookupEntry {
    /// An active entry without sort order or attributes.
    pub fn new(code: &str, description: &str, parent_code: Option<&str>) -> (e: Self)
        ensures
            e.code@ == code@,
            e.description@ == description@,
            parent_of(e) == opt_view(parent_code),
            e.active,
            e.sort_order is None,
            e.attributes@ == Map::<Seq<char>, String>::empty(),
            e.common.version == 1,
    {
        LookupEntry {
            code: owned(code),
            description: owned(description),
            parent_code: opt_owned(parent_code),
            active: true,
            sort_order: None,
            attributes: StrMap::new(),
            common: CommonMetadata::new(),
        }
    }

    /// A builder for an entry with the given code and description.
    pub fn builder(code: &str, description: &str) -> (b: LookupEntryBuilder)
        ensures
            b.code@ == code@,
            b.description@ == description@,
            b.parent_code is None,
            b.active,
            b.sort_order is None,
            b.attributes@ == Map::<Seq<char>, String>::empty(),
    {
        LookupEntryBuilder::new(code, description)
    }

    /// Sets or clears the parent code.
    pub fn set_parent(&mut self, parent_code: Option<&str>)
        requires
            old(self).common.version < u32::MAX,
        ensures
            parent_of(*final(self)) == opt_view(parent_code),
            final(self).code == old(self).code,
            final(self).description == old(self).description,
            final(self).active == old(self).active,
            final(self).common.version == old(self).common.version + 1,
    {
        self.parent_code = opt_owned(parent_code);
        self.common.update();
    }

    /// Sets the active flag.
    pub fn set_active(&mut self, active: bool)
        requires
            old(self).common.version < u32::MAX,
        ensures
            final(self).active == active,
            final(self).code == old(self).code,
            final(self).parent_code == old(self).parent_code,
            final(self).common.version == old(self).common.version + 1,
    {
        self.active = active;
        self.common.update();
    }

    /// Sets the sort order.
    pub fn set_sort_order(&mut self, sort_order: u32)
        requires
            old(self).common.version < u32::MAX,
        ensures
            final(self).sort_order == Some(sort_order),
            final(self).code == old(self).code,
            final(self).parent_code == old(self).parent_code,
            final(self).common.version == old(self).common.version + 1,
    {
        self.sort_order = Some(sort_order);
        self.common.update();
    }

    /// Sets attribute `key` to `value`.
    pub fn add_attribute(&mut self, key: &str, value: &str)
        requires
            old(self).common.version < u32::MAX,
        ensures
            final(self).attributes@.contains_key(key@),
            final(self).attributes@[key@]@ == value@,
            final(self).attributes@ == old(self).attributes@.insert(key@, final(self).attributes@[key@]),
            final(self).code == old(self).code,
            final(self).common.version == old(self).common.version + 1,
    {
        let v = owned(value);
        let ghost vv = v;
        self.attributes.insert(owned(key), v);
        assert(self.attributes@[key@] == vv);
        self.common.update();
    }

    /// Removes attribute `key`, returning its value; the version goes up only
    /// when there was one.
    pub fn remove_attribute(&mut self, key: &str) -> (r: Option<String>)
        requires
            old(self).common.version < u32::MAX,
        ensures
            final(self).attributes@ == old(self).attributes@.remove(key@),
            match r {
                Some(v) => old(self).attributes@.contains_key(key@) && v == old(self).attributes@[key@]
                    && final(self).common.version == old(self).common.version + 1,
                None => !old(self).attributes@.contains_key(key@) && final(self).common.version
                    == old(self).common.version,
            },
            final(self).code == old(self).code,
    {
        let r = self.attributes.remove(key);
        if r.is_some() {
            self.common.update();
        }
        r
    }

    /// Whether attribute `key` is set.
    pub fn has_attribute(&self, key: &str) -> (b: bool)
        ensures
            b == self.attributes@.contains_key(key@),
    {
        self.attributes.contains_key(key)
    }

    /// The value of attribute `key`, if set.
    pub fn get_attribute(&self, key: &str) -> (r: Option<&String>)
        ensures
            match r {
                Some(v) => self.attributes@.contains_key(key@) && *v == self.attributes@[key@],
                None => !self.attributes@.contains_key(key@),
            },
    {
        self.attributes.get(key)
    }
}

/// Builder for a lookup entry.
pub struct LookupEntryBuilder {
    /// Entry code.
    pub code: String,
    /// Description.
    pub description: String,
    /// Parent code.
    pub parent_code: Option<String>,
    /// Active flag.
    pub active: bool,
    /// Sort order.
    pub sort_order: Option<u32>,
    /// Attributes.
    pub attributes: StrMap<String>,
}

impl LookupEntryBuilder {
    /// A builder for an active entry without parent, sort order or attributes.
    pub fn new(code: &str, description: &str) -> (b: Self)
        ensures
            b.code@ == code@,
            b.description@ == description@,
            b.parent_code is None,
            b.active,
            b.sort_order is None,
            b.attributes@ == Map::<Seq<char>, String>::empty(),
    {
        LookupEntryBuilder {
            code: owned(code),
            description: owned(description),
            parent_code: None,
            active: true,
            sort_order: None,
            attributes: StrMap::new(),
        }
    }

    /// Sets the parent code.
    pub fn parent(self, parent_code: &str) -> (b: Self)
        ensures
            b.parent_code matches Some(p) && p@ == parent_code@,
            b.code == self.code,
            b.description == self.description,
            b.active == self.active,
            b.sort_order == self.sort_order,
            b.attributes == self.attributes,
    {
        let mut b = self;
        b.parent_code = Some(owned(parent_code));
        b
    }

    /// Sets the active flag.
    pub fn active(self, active: bool) -> (b: Self)
        ensures
            b.active == active,
            b.code == self.code,
            b.description == self.description,
            b.parent_code == self.parent_code,
            b.sort_order == self.sort_order,
            b.attributes == self.attributes,
    {
        let mut b = self;
        b.active = active;
        b
    }

    /// Sets the sort order.
    pub fn sort_order(self, sort_order: u32) -> (b: Self)
        ensures
            b.sort_order == Some(sort_order),
            b.code == self.code,
            b.description == self.description,
            b.parent_code == self.parent_code,
            b.active == self.active,
            b.attributes == self.attributes,
    {
        let mut b = self;
        b.sort_order = Some(sort_order);
        b
    }

    /// Sets attribute `key` to `value`.
    pub fn attribute(self, key: &str, value: &str) -> (b: Self)
        ensures
            b.attributes@.contains_key(key@),
            b.attributes@[key@]@ == value@,
            b.attributes@ == self.attributes@.insert(key@, b.attributes@[key@]),
            b.code == self.code,
            b.description == self.description,
            b.parent_code == self.parent_code,
            b.active == self.active,
            b.sort_order == self.sort_order,
    {
        let mut b = self;
        let v = owned(value);
        let ghost vv = v;
        b.attributes.insert(owned(key), v);
        assert(b.attributes@[key@] == vv);
        b
    }

    /// The entry, with fresh metadata.
    pub fn build(self) -> (e: LookupEntry)
        ensures
            e.code == self.code,
            e.description == self.description,
            e.parent_code == self.parent_code,
            e.active == self.active,
            e.sort_order == self.sort_order,
            e.attributes == self.attributes,
            e.common.version == 1,
    {
        LookupEntry {
            code: self.code,
            description: self.description,
            parent_code: self.parent_code,
            active: self.active,
            sort_order: self.sort_order,
            attributes: self.attributes,
            common: CommonMetadata::new(),
        }
    }
}

/// Statistics about a lookup table.
#[derive(Debug, Clone, Copy, PartialEq, Eq)]
pub struct LookupStatistics {
    /// Total number of entries.
    pub total_entries: usize,
    /// Number of entries without a parent.
    pub root_entries: usize,
    /// Length of the longest hierarchy path.
    pub max_depth: usize,
    /// Number of entries that some entry names as its parent.
    pub entries_with_children: usize,
}

/// A lookup table.
#[derive(Debug)]
pub struct Lookup {
    /// Table identifier, such as "area", "item" or "industry".
    pub table_id: String,
    /// Human-readable table name.
    pub table_name: String,
    /// Survey code the table belongs to.
    pub survey_code: String,
    /// Entries, indexed by code.
    pub entries: StrMap<LookupEntry>,
    /// Timestamps and version.
    pub common: CommonMetadata,
}

/// The codes from the top of the hierarchy down to `code`, following parent
/// codes for at most `fuel` entries; the walk stops at an entry without a
/// parent or at a parent code that is not in the table.
pub open spec fn hierarchy(m: Map<Seq<char>, LookupEntry>, code: Seq<char>, fuel: nat) -> Seq<
    Seq<char>,
>
    decreases fuel,
{
    if fuel == 0 || !m.contains_key(code) {
        Seq::empty()
    } else {
        match parent_of(m[code]) {
            Some(p) => hierarchy(m, p, (fuel - 1) as nat).push(code),
            None => seq![code],
        }
    }
}

/// Following parent codes from `cur` for at most `fuel` steps reaches `start`.
pub open spec fn reaches(m: Map<Seq<char>, LookupEntry>, start: Seq<char>, cur: Seq<char>, fuel: nat) -> bool
    decreases fuel,
{
    if start == cur {
        true
    } else if fuel == 0 {
        false
    } else if m.contains_key(cur) {
        match parent_of(m[cur]) {
            Some(p) => reaches(m, start, p, (fuel - 1) as nat),
            None => false,
        }
    } else {
        false
    }
}

/// The entry under `k` leads back to itself through its parents.
pub open spec fn cyclic_at(m: Map<Seq<char>, LookupEntry>, k: Seq<char>, fuel: nat) -> bool {
    match parent_of(m[k]) {
        Some(p) => reaches(m, k, p, fuel),
        None => false,
    }
}

/// The code reached from `cur` after `steps` steps along parent codes, if
/// the walk gets that far.
pub open spec fn ancestor(m: Map<Seq<char>, LookupEntry>, cur: Seq<char>, steps: nat) -> Option<Seq<char>>
    decreases steps,
{
    if steps == 0 {
        Some(cur)
    } else if m.contains_key(cur) {
        match parent_of(m[cur]) {
            Some(p) => ancestor(m, p, (steps - 1) as nat),
            None => None,
        }
    } else {
        None
    }
}

proof fn lemma_reaches_ancestor(m: Map<Seq<char>, LookupEntry>, start: Seq<char>, cur: Seq<char>, fuel: nat)
    requires
        reaches(m, start, cur, fuel),
    ensures
        exists|j: nat| j <= fuel && #[trigger] ancestor(m, cur, j) == Some(start),
    decreases fuel,
{
    if start == cur {
        assert(ancestor(m, cur, 0) == Some(start));
    } else {
        let p = parent_of(m[cur])->0;
        lemma_reaches_ancestor(m, start, p, (fuel - 1) as nat);
        let j = choose|j: nat| j <= fuel - 1 && #[trigger] ancestor(m, p, j) == Some(start);
        assert(ancestor(m, cur, j + 1) == Some(start));
    }
}

proof fn lemma_ancestor_reaches(m: Map<Seq<char>, LookupEntry>, start: Seq<char>, cur: Seq<char>, j: nat, fuel: nat)
    requires
        ancestor(m, cur, j) == Some(start),
        j <= fuel,
    ensures
        reaches(m, start, cur, fuel),
    decreases j,
{
    if j > 0 && start != cur {
        let p = parent_of(m[cur])->0;
        lemma_ancestor_reaches(m, start, p, (j - 1) as nat, (fuel - 1) as nat);
    }
}

proof fn lemma_ancestor_split(m: Map<Seq<char>, LookupEntry>, cur: Seq<char>, a: nat, t: nat)
    ensures
        ancestor(m, cur, a + t) == match ancestor(m, cur, a) {
            Some(x) => ancestor(m, x, t),
            None => None,
        },
    decreases a,
{
    if a > 0 && m.contains_key(cur) {
        if let Some(p) = parent_of(m[cur]) {
            lemma_ancestor_split(m, p, (a - 1) as nat, t);
            assert((a - 1) as nat + t == (a + t - 1) as nat);
        }
    }
}

proof fn lemma_ancestor_before(m: Map<Seq<char>, LookupEntry>, cur: Seq<char>, i: nat, j: nat)
    requires
        i < j,
        ancestor(m, cur, j) is Some,
    ensures
        ancestor(m, cur, i) matches Some(x) && m.contains_key(x),
{
    lemma_ancestor_split(m, cur, i, (j - i) as nat);
    assert(i + (j - i) as nat == j);
}

proof fn lemma_ancestor_within_keys(
    m: Map<Seq<char>, LookupEntry>,
    keys: Seq<Seq<char>>,
    start: Seq<char>,
    cur: Seq<char>,
    j: nat,
)
    requires
        forall|c: Seq<char>| #[trigger] m.contains_key(c) ==> keys.contains(c),
        ancestor(m, cur, j) == Some(start),
    ensures
        exists|k: nat| k <= keys.len() && #[trigger] ancestor(m, cur, k) == Some(start),
    decreases j,
{
    if j <= keys.len() {
        return;
    }
    let xs = Seq::new(j, |i: int| ancestor(m, cur, i as nat)->0);
    assert forall|i: int| 0 <= i < j implies keys.to_set().contains(#[trigger] xs[i]) by {
        lemma_ancestor_before(m, cur, i as nat, j);
        assert(m.contains_key(xs[i]));
    }
    if xs.no_duplicates() {
        xs.unique_seq_to_set();
        keys.lemma_cardinality_of_set();
        vstd::seq_lib::seq_to_set_is_finite(keys);
        assert(xs.to_set().subset_of(keys.to_set()));
        vstd::set_lib::lemma_len_subset(xs.to_set(), keys.to_set());
        assert(false);
    } else {
        let (a, b) = choose|a: int, b: int| 0 <= a < xs.len() && 0 <= b < xs.len() && a != b && xs[a] == xs[b];
        let (lo, hi) = if a < b { (a, b) } else { (b, a) };
        lemma_ancestor_before(m, cur, lo as nat, j);
        lemma_ancestor_before(m, cur, hi as nat, j);
        let rest = (j - hi) as nat;
        lemma_ancestor_split(m, cur, hi as nat, rest);
        lemma_ancestor_split(m, cur, lo as nat, rest);
        assert(hi as nat + rest == j);
        let shorter = (lo + rest) as nat;
        assert(ancestor(m, cur, shorter) == Some(start));
        lemma_ancestor_within_keys(m, keys, start, cur, shorter);
    }
}

/// A walk along parent codes that leads back to an entry needs no more
/// steps than the table has keys: whatever the number of steps allowed,
/// an entry that is circular with them is circular with that many.
pub proof fn lemma_cycle_within_keys(m: Map<Seq<char>, LookupEntry>, keys: Seq<Seq<char>>, k: Seq<char>, fuel: nat)
    requires
        forall|c: Seq<char>| #[trigger] m.contains_key(c) ==> keys.contains(c),
        cyclic_at(m, k, fuel),
    ensures
        cyclic_at(m, k, keys.len()),
{
    let p = parent_of(m[k])->0;
    lemma_reaches_ancestor(m, k, p, fuel);
    let j = choose|j: nat| j <= fuel && #[trigger] ancestor(m, p, j) == Some(k);
    lemma_ancestor_within_keys(m, keys, k, p, j);
    let j2 = choose|j2: nat| j2 <= keys.len() && #[trigger] ancestor(m, p, j2) == Some(k);
    lemma_ancestor_reaches(m, k, p, j2, keys.len());
}

/// The entry under `k` names a parent that is not in the table.
pub open spec fn orphan_at(m: Map<Seq<char>, LookupEntry>, k: Seq<char>) -> bool {
    match parent_of(m[k]) {
        Some(p) => !m.contains_key(p),
        None => false,
    }
}

/// The message for an entry that leads back to itself.
pub open spec fn circular_message(code: Seq<char>) -> Seq<char> {
    "Circular reference detected for entry '"@ + code + "'"@
}

/// The message for an entry whose parent is missing.
pub open spec fn orphan_message(code: Seq<char>, parent: Seq<char>) -> Seq<char> {
    "Entry '"@ + code + "' references non-existent parent '"@ + parent + "'"@
}

/// `e` names `p` as its parent.
pub open spec fn is_child_of(e: LookupEntry, p: Seq<char>) -> bool {
    parent_of(e) == Some(p)
}

/// Some entry of `vl` names `k` as its parent.
pub open spec fn has_child_in(vl: Seq<LookupEntry>, k: Seq<char>) -> bool {
    exists|j: int| 0 <= j < vl.len() && is_child_of(#[trigger] vl[j], k)
}

/// The longest hierarchy path among the codes `keys`.
pub open spec fn max_depth_of(m: Map<Seq<char>, LookupEntry>, keys: Seq<Seq<char>>, fuel: nat) -> nat
    decreases keys.len(),
{
    if keys.len() == 0 {
        0
    } else {
        let rest = max_depth_of(m, keys.drop_last(), fuel);
        let d = hierarchy(m, keys.last(), fuel).len();
        if d > rest {
            d
        } else {
            rest
        }
    }
}

/// Every code on a hierarchy path is in the table, the path ends at `code`
/// when `code` is in the table, and each code's parent is the one before it.
pub proof fn lemma_hierarchy_links(m: Map<Seq<char>, LookupEntry>, code: Seq<char>, fuel: nat)
    ensures
        ({
            let p = hierarchy(m, code, fuel);
            &&& p.len() <= fuel
            &&& forall|i: int| 0 <= i < p.len() ==> m.contains_key(#[trigger] p[i])
            &&& (fuel > 0 && m.contains_key(code)) ==> p.len() > 0 && p.last() == code
            &&& forall|i: int| 0 < i < p.len() ==> parent_of(m[#[trigger] p[i]]) == Some(p[i - 1])
            &&& p.len() > 0 ==> (parent_of(m[p[0]]) is None || !m.contains_key(parent_of(m[p[0]])->0)
                || p.len() == fuel)
        }),
    decreases fuel,
{
    if fuel > 0 && m.contains_key(code) {
        match parent_of(m[code]) {
            Some(q) => {
                lemma_hierarchy_links(m, q, (fuel - 1) as nat);
                let r = hierarchy(m, q, (fuel - 1) as nat);
                let p = hierarchy(m, code, fuel);
                assert(p == r.push(code));
                assert forall|i: int| 0 <= i < p.len() implies m.contains_key(#[trigger] p[i]) by {
                    if i < r.len() {
                        assert(p[i] == r[i]);
                    }
                }
                assert forall|i: int| 0 < i < p.len() implies parent_of(m[#[trigger] p[i]]) == Some(
                    p[i - 1],
                ) by {
                    if i < r.len() {
                        assert(p[i] == r[i]);
                        assert(p[i - 1] == r[i - 1]);
                    } else {
                        assert(r.len() > 0);
                        assert(r.last() == q);
                    }
                }
                if r.len() > 0 {
                    assert(p[0] == r[0]);
                }
            },
            None => {},
        }
    }
}

impl Lookup {
    /// The number of entries, the bound on every walk along parent codes: a
    /// longer walk would pass some entry twice.
    pub open spec fn fuel(&self) -> nat {
        self.entries.key_list().len()
    }

    /// An empty table for survey "XX".
    pub fn new(table_id: &str, table_name: &str) -> (l: Self)
        ensures
            l.table_id@ == table_id@,
            l.table_name@ == table_name@,
            l.survey_code@ == "XX"@,
            l.entries@ == Map::<Seq<char>, LookupEntry>::empty(),
            l.entries.key_list().len() == 0,
            l.common.version == 1,
    {
        Lookup {
            table_id: owned(table_id),
            table_name: owned(table_name),
            survey_code: owned("XX"),
            entries: StrMap::new(),
            common: CommonMetadata::new(),
        }
    }

    /// An empty table for a survey, its code upper-cased.
    pub fn for_survey(table_id: &str, table_name: &str, survey_code: &str) -> (l: Self)
        ensures
            l.table_id@ == table_id@,
            l.table_name@ == table_name@,
            l.survey_code@ == crate::text::upper_of(survey_code@),
            l.entries@ == Map::<Seq<char>, LookupEntry>::empty(),
            l.entries.key_list().len() == 0,
            l.common.version == 1,
    {
        Lookup {
            table_id: owned(table_id),
            table_name: owned(table_name),
            survey_code: crate::text::to_upper(survey_code),
            entries: StrMap::new(),
            common: CommonMetadata::new(),
        }
    }

    /// Adds an entry under `code`, replacing any entry there.
    pub fn add_entry(&mut self, code: &str, description: &str, parent_code: Option<&str>)
        requires
            old(self).common.version < u32::MAX,
        ensures
            final(self).entries@.contains_key(code@),
            final(self).entries@ == old(self).entries@.insert(code@, final(self).entries@[code@]),
            final(self).entries@[code@].code@ == code@,
            final(self).entries@[code@].description@ == description@,
            parent_of(final(self).entries@[code@]) == opt_view(parent_code),
            final(self).entries@[code@].active,
            final(self).common.version == old(self).common.version + 1,
            final(self).table_id == old(self).table_id,
    {
        let entry = LookupEntry::new(code, description, parent_code);
        let ghost e = entry;
        self.entries.insert(owned(code), entry);
        assert(self.entries@[code@] == e);
        self.common.update();
    }

    /// Adds an entry under its own code, replacing any entry there.
    pub fn add_lookup_entry(&mut self, entry: LookupEntry)
        requires
            old(self).common.version < u32::MAX,
        ensures
            final(self).entries@ == old(self).entries@.insert(entry.code@, entry),
            final(self).common.version == old(self).common.version + 1,
    {
        let code = entry.code.clone();
        self.entries.insert(code, entry);
        self.common.update();
    }

    /// The entry under `code`.
    pub fn get_entry(&self, code: &str) -> (r: Option<&LookupEntry>)
        ensures
            match r {
                Some(e) => self.entries@.contains_key(code@) && *e == self.entries@[code@],
                None => !self.entries@.contains_key(code@),
            },
    {
        self.entries.get(code)
    }

    /// Removes the entry under `code`; the version goes up only when there was one.
    pub fn remove_entry(&mut self, code: &str) -> (r: Option<LookupEntry>)
        requires
            old(self).common.version < u32::MAX,
        ensures
            final(self).entries@ == old(self).entries@.remove(code@),
            match r {
                Some(e) => old(self).entries@.contains_key(code@) && e == old(self).entries@[code@]
                    && final(self).common.version == old(self).common.version + 1,
                None => !old(self).entries@.contains_key(code@) && final(self).common.version
                    == old(self).common.version,
            },
    {
        let r = self.entries.remove(code);
        if r.is_some() {
            self.common.update();
        }
        r
    }

    /// Whether there is an entry under `code`.
    pub fn contains_entry(&self, code: &str) -> (b: bool)
        ensures
            b == self.entries@.contains_key(code@),
    {
        self.entries.contains_key(code)
    }

    /// All entry codes, sorted.
    pub fn get_codes(&self) -> (r: Vec<String>)
        ensures
            sorted(views(r@)),
            views(r@).to_multiset() == self.entries.key_list().to_multiset(),
    {
        sort_strings(self.entries.keys())
    }

    /// The entries whose parent is `parent_code`, in insertion order.
    pub fn get_children(&self, parent_code: &str) -> (r: Vec<&LookupEntry>)
        ensures
            r@.map_values(|e: &LookupEntry| *e) == self.entries.value_list().filter(
                |e: LookupEntry| is_child_of(e, parent_code@),
            ),
    {
        let ghost pred = |e: LookupEntry| is_child_of(e, parent_code@);
        let mut r: Vec<&LookupEntry> = Vec::new();
        let n = self.entries.len();
        let mut i: usize = 0;
        while i < n
            invariant
                pred == (|e: LookupEntry| is_child_of(e, parent_code@)),
                n == self.entries.key_list().len(),
                n == self.entries.value_list().len(),
                i <= n,
                r@.map_values(|e: &LookupEntry| *e) == self.entries.value_list().take(i as int).filter(pred),
            decreases n - i,
        {
            let (_, e) = self.entries.entry_at(i);
            let ghost before = r@;
            let is_child = match &e.parent_code {
                Some(p) => crate::text::str_eq(p.as_str(), parent_code),
                None => false,
            };
            if is_child {
                r.push(e);
            }
            proof {
                let vl = self.entries.value_list();
                assert(vl.take(i + 1) =~= vl.take(i as int).push(*e));
                assert(pred(*e) == is_child);
                vl.take(i as int).lemma_filter_push(*e, pred);
                if is_child {
                    assert(r@.map_values(|e: &LookupEntry| *e) =~= before.map_values(|e: &LookupEntry| *e).push(*e));
                } else {
                    assert(r@ == before);
                }
            }
            i = i + 1;
        }
        proof {
            assert(self.entries.value_list().take(n as int) =~= self.entries.value_list());
        }
        r
    }

    /// The entries without a parent, in insertion order.
    pub fn get_roots(&self) -> (r: Vec<&LookupEntry>)
        ensures
            r@.map_values(|e: &LookupEntry| *e) == self.entries.value_list().filter(
                |e: LookupEntry| e.parent_code is None,
            ),
    {
        let ghost pred = |e: LookupEntry| e.parent_code is None;
        let mut r: Vec<&LookupEntry> = Vec::new();
        let n = self.entries.len();
        let mut i: usize = 0;
        while i < n
            invariant
                pred == (|e: LookupEntry| e.parent_code is None),
                n == self.entries.key_list().len(),
                n == self.entries.value_list().len(),
                i <= n,
                r@.map_values(|e: &LookupEntry| *e) == self.entries.value_list().take(i as int).filter(pred),
            decreases n - i,
        {
            let (_, e) = self.entries.entry_at(i);
            let ghost before = r@;
            let is_root = e.parent_code.is_none();
            if is_root {
                r.push(e);
            }
            proof {
                let vl = self.entries.value_list();
                assert(vl.take(i + 1) =~= vl.take(i as int).push(*e));
                assert(pred(*e) == is_root);
                vl.take(i as int).lemma_filter_push(*e, pred);
                if is_root {
                    assert(r@.map_values(|e: &LookupEntry| *e) =~= before.map_values(|e: &LookupEntry| *e).push(*e));
                } else {
                    assert(r@ == before);
                }
            }
            i = i + 1;
        }
        proof {
            assert(self.entries.value_list().take(n as int) =~= self.entries.value_list());
        }
        r
    }

    fn path_from(&self, code: &str, fuel: usize) -> (r: Vec<String>)
        ensures
            views(r@) == hierarchy(self.entries@, code@, fuel as nat),
        decreases fuel,
    {
        if fuel == 0 {
            let r: Vec<String> = Vec::new();
            assert(views(r@) =~= Seq::<Seq<char>>::empty());
            return r;
        }
        match self.entries.get(code) {
            None => {
                let r: Vec<String> = Vec::new();
                assert(views(r@) =~= Seq::<Seq<char>>::empty());
                r
            },
            Some(e) => {
                let mut v = match &e.parent_code {
                    Some(p) => self.path_from(p.as_str(), fuel - 1),
                    None => Vec::new(),
                };
                let ghost before = v@;
                v.push(owned(code));
                assert(views(v@) =~= views(before).push(code@));
                v
            },
        }
    }

    /// The codes from the top of the hierarchy down to `code`; empty when
    /// `code` is not in the table.
    pub fn get_hierarchy_path(&self, code: &str) -> (r: Vec<String>)
        ensures
            views(r@) == hierarchy(self.entries@, code@, self.fuel()),
    {
        self.path_from(code, self.entries.len())
    }

    /// The descriptions along the hierarchy path of `code`.
    pub fn get_description_path(&self, code: &str) -> (r: Vec<String>)
        ensures
            r@.len() == hierarchy(self.entries@, code@, self.fuel()).len(),
            forall|i: int|
                0 <= i < r@.len() ==> (#[trigger] r@[i])@ == self.entries@[hierarchy(
                    self.entries@,
                    code@,
                    self.fuel(),
                )[i]].description@,
    {
        let path = self.get_hierarchy_path(code);
        proof {
            lemma_hierarchy_links(self.entries@, code@, self.fuel());
        }
        let ghost h = hierarchy(self.entries@, code@, self.fuel());
        let mut r: Vec<String> = Vec::new();
        let mut i: usize = 0;
        while i < path.len()
            invariant
                views(path@) == h,
                forall|j: int| 0 <= j < h.len() ==> self.entries@.contains_key(#[trigger] h[j]),
                i <= path@.len(),
                r@.len() == i,
                forall|j: int| 0 <= j < i ==> (#[trigger] r@[j])@ == self.entries@[h[j]].description@,
            decreases path@.len() - i,
        {
            assert(path@[i as int]@ == h[i as int]);
            match self.entries.get(path[i].as_str()) {
                Some(e) => {
                    r.push(owned(e.description.as_str()));
                },
                None => {
                    assert(false);
                },
            }
            i = i + 1;
        }
        r
    }

    /// The entries whose description contains `query`, both lower-cased.
    pub fn search_by_description(&self, query: &str) -> (r: Vec<&LookupEntry>)
        ensures
            r@.map_values(|e: &LookupEntry| *e) == self.entries.value_list().filter(
                |e: LookupEntry| has_sub(lower_of(e.description@), lower_of(query@)),
            ),
    {
        let ghost pred = |e: LookupEntry| has_sub(lower_of(e.description@), lower_of(query@));
        let q = to_lower(query);
        let mut r: Vec<&LookupEntry> = Vec::new();
        let n = self.entries.len();
        let mut i: usize = 0;
        while i < n
            invariant
                pred == (|e: LookupEntry| has_sub(lower_of(e.description@), lower_of(query@))),
                n == self.entries.key_list().len(),
                n == self.entries.value_list().len(),
                i <= n,
                q@ == lower_of(query@),
                r@.map_values(|e: &LookupEntry| *e) == self.entries.value_list().take(i as int).filter(pred),
            decreases n - i,
        {
            let (_, e) = self.entries.entry_at(i);
            let ghost before = r@;
            let d = to_lower(e.description.as_str());
            let hit = contains_str(d.as_str(), q.as_str());
            if hit {
                r.push(e);
            }
            proof {
                let vl = self.entries.value_list();
                assert(vl.take(i + 1) =~= vl.take(i as int).push(*e));
                assert(pred(*e) == hit);
                vl.take(i as int).lemma_filter_push(*e, pred);
                if hit {
                    assert(r@.map_values(|e: &LookupEntry| *e) =~= before.map_values(|e: &LookupEntry| *e).push(*e));
                } else {
                    assert(r@ == before);
                }
            }
            i = i + 1;
        }
        proof {
            assert(self.entries.value_list().take(n as int) =~= self.entries.value_list());
        }
        r
    }

    /// The number of entries.
    pub fn entry_count(&self) -> (n: usize)
        ensures
            n == self.entries.key_list().len(),
    {
        self.entries.len()
    }

    /// Whether the table has no entry.
    pub fn is_empty(&self) -> (b: bool)
        ensures
            b == (self.entries.key_list().len() == 0),
    {
        self.entries.is_empty()
    }

    /// Removes all entries.
    pub fn clear(&mut self)
        requires
            old(self).common.version < u32::MAX,
        ensures
            final(self).entries@ == Map::<Seq<char>, LookupEntry>::empty(),
            final(self).entries.key_list().len() == 0,
            final(self).common.version == old(self).common.version + 1,
            final(self).table_id == old(self).table_id,
    {
        self.entries = StrMap::new();
        self.common.update();
    }

    fn reaches_exec(&self, start: &str, current: &str, fuel: usize) -> (b: bool)
        ensures
            b == reaches(self.entries@, start@, current@, fuel as nat),
        decreases fuel,
    {
        if crate::text::str_eq(start, current) {
            return true;
        }
        if fuel == 0 {
            return false;
        }
        match self.entries.get(current) {
            Some(e) => match &e.parent_code {
                Some(p) => self.reaches_exec(start, p.as_str(), fuel - 1),
                None => false,
            },
            None => false,
        }
    }

    /// The check of `validate_structure` walks at most as many steps as the
    /// table has entries, and that finds every cycle: when no entry is
    /// circular within that many steps, none is circular however many
    /// steps are taken.
    pub proof fn lemma_no_cycle_at_any_length(&self, k: Seq<char>, fuel: nat)
        requires
            forall|i: int|
                0 <= i < self.entries.key_list().len() ==> !cyclic_at(
                    self.entries@,
                    #[trigger] self.entries.key_list()[i],
                    self.fuel(),
                ),
            self.entries@.contains_key(k),
        ensures
            !cyclic_at(self.entries@, k, fuel),
    {
        self.entries.lemma_view_dom();
        let keys = self.entries.key_list();
        assert forall|c: Seq<char>| #[trigger] self.entries@.contains_key(c) implies keys.contains(c) by {
            let j = choose|j: int| 0 <= j < keys.len() && keys[j] == c;
            assert(keys[j] == c);
        }
        let j = choose|j: int| 0 <= j < keys.len() && keys[j] == k;
        assert(!cyclic_at(self.entries@, keys[j], self.fuel()));
        if cyclic_at(self.entries@, k, fuel) {
            lemma_cycle_within_keys(self.entries@, keys, k, fuel);
        }
    }

    /// Checks that no entry leads back to itself through its parents and that
    /// every parent code is in the table. The first offending entry, in
    /// insertion order, is reported; circular entries are reported before
    /// missing parents.
    pub fn validate_structure(&self) -> (r: Result<(), String>)
        ensures
            r is Ok <==> (forall|i: int|
                0 <= i < self.entries.key_list().len() ==> !cyclic_at(
                    self.entries@,
                    #[trigger] self.entries.key_list()[i],
                    self.fuel(),
                ) && !orphan_at(self.entries@, self.entries.key_list()[i])),
            r matches Err(msg) ==> exists|i: int|
                #![trigger self.entries.key_list()[i]]
                0 <= i < self.entries.key_list().len() && ({
                    let k = self.entries.key_list()[i];
                    ||| (cyclic_at(self.entries@, k, self.fuel()) && msg@ == circular_message(k))
                    ||| (orphan_at(self.entries@, k) && msg@ == orphan_message(
                        k,
                        parent_of(self.entries@[k])->0,
                    ))
                }),
    {
        let n = self.entries.len();
        let mut i: usize = 0;
        while i < n
            invariant
                n == self.entries.key_list().len(),
                n == self.entries.value_list().len(),
                i <= n,
                forall|j: int|
                    0 <= j < i ==> !cyclic_at(self.entries@, #[trigger] self.entries.key_list()[j], n as nat),
            decreases n - i,
        {
            let (code, e) = self.entries.entry_at(i);
            match &e.parent_code {
                Some(p) => {
                    if self.reaches_exec(code.as_str(), p.as_str(), n) {
                        let msg = cat3("Circular reference detected for entry '", code.as_str(), "'");
                        return Err(msg);
                    }
                },
                None => {},
            }
            i = i + 1;
        }
        let mut i: usize = 0;
        while i < n
            invariant
                n == self.entries.key_list().len(),
                n == self.entries.value_list().len(),
                i <= n,
                forall|j: int|
                    0 <= j < n ==> !cyclic_at(self.entries@, #[trigger] self.entries.key_list()[j], n as nat),
                forall|j: int| 0 <= j < i ==> !orphan_at(self.entries@, #[trigger] self.entries.key_list()[j]),
            decreases n - i,
        {
            let (code, e) = self.entries.entry_at(i);
            match &e.parent_code {
                Some(p) => {
                    if !self.entries.contains_key(p.as_str()) {
                        let mut msg = cat3("Entry '", code.as_str(), "' references non-existent parent '");
                        msg.append(p.as_str());
                        msg.append("'");
                        return Err(msg);
                    }
                },
                None => {},
            }
            i = i + 1;
        }
        Ok(())
    }

    /// Counts of entries, roots, the longest hierarchy path, and entries with children.
    pub fn get_statistics(&self) -> (s: LookupStatistics)
        ensures
            s.total_entries == self.entries.key_list().len(),
            s.root_entries == self.entries.value_list().filter(|e: LookupEntry| e.parent_code is None).len(),
            s.max_depth == max_depth_of(self.entries@, self.entries.key_list(), self.fuel()),
            s.entries_with_children == self.entries.key_list().filter(
                |k: Seq<char>| has_child_in(self.entries.value_list(), k),
            ).len(),
    {
        let n = self.entries.len();
        let roots = self.get_roots().len();
        let mut max_depth: usize = 0;
        let mut with_children: usize = 0;
        let ghost has_child = |k: Seq<char>| has_child_in(self.entries.value_list(), k);
        let mut i: usize = 0;
        while i < n
            invariant
                has_child == (|k: Seq<char>| has_child_in(self.entries.value_list(), k)),
                n == self.entries.key_list().len(),
                n == self.entries.value_list().len(),
                i <= n,
                max_depth == max_depth_of(self.entries@, self.entries.key_list().take(i as int), n as nat),
                with_children == self.entries.key_list().take(i as int).filter(has_child).len(),
                with_children <= i,
            decreases n - i,
        {
            let (code, _) = self.entries.entry_at(i);
            let path = self.get_hierarchy_path(code.as_str());
            proof {
                lemma_hierarchy_links(self.entries@, code@, n as nat);
                let kl = self.entries.key_list();
                assert(kl.take(i + 1).drop_last() =~= kl.take(i as int));
                assert(kl.take(i + 1).last() == code@);
            }
            let d = path.len();
            if d > max_depth {
                max_depth = d;
            }
            let children = self.get_children(code.as_str());
            proof {
                broadcast use vstd::seq_lib::group_filter_ensures;
                let vl = self.entries.value_list();
                let kl = self.entries.key_list();
                let pred = |e: LookupEntry| is_child_of(e, code@);
                let cs = vl.filter(pred);
                assert(children@.map_values(|e: &LookupEntry| *e) == cs);
                assert(children@.len() == cs.len());
                if children.len() > 0 {
                    assert(cs.contains(cs[0]));
                    vl.lemma_filter_contains_rev(pred, cs[0]);
                    let j = choose|j: int| 0 <= j < vl.len() && vl[j] == cs[0];
                    assert(pred(cs[0]));
                    assert(is_child_of(vl[j], code@));
                    assert(has_child_in(vl, code@));
                } else {
                    assert forall|j: int| 0 <= j < vl.len() implies !is_child_of(#[trigger] vl[j], code@) by {
                        if is_child_of(vl[j], code@) {
                            assert(pred(vl[j]));
                            assert(cs.contains(vl[j]));
                        }
                    }
                    assert(!has_child_in(vl, code@));
                }
                assert(kl.take(i + 1) =~= kl.take(i as int).push(code@));
                kl.take(i as int).lemma_filter_push(code@, has_child);
                kl.take(i as int).lemma_filter_len(has_child);
            }
            if children.len() > 0 {
                with_children = with_children + 1;
            }
            i = i + 1;
        }
        proof {
            assert(self.entries.key_list().take(n as int) =~= self.entries.key_list());
        }
        LookupStatistics {
            total_entries: n,
            root_entries: roots,
            max_depth,
            entries_with_children: with_children,
        }
    }
}

} // verus!

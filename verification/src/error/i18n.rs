//! Locales for localized error messages: parsing and printing locale tags,
//! fallback chains, matching against available locales, and the records
//! kept by localization.

use vstd::prelude::*;
use crate::error::types::copy_opt_text;
use crate::strmap::StrMap;
use crate::text::{ascii_no_lower, ascii_no_upper, byte_len, lemma_join_split, opt_text, cat3, join, join_seq, replace_seq, replace_str, lower_of, owned, split_char, split_seq, str_eq, to_lower, to_upper, upper_of, views};

verus! {

/// A locale: language, optional region, script and variant.
#[derive(Debug, PartialEq, Eq, Hash)]
pub struct Locale {
    pub language: String,
    pub region: Option<String>,
    pub script: Option<String>,
    pub variant: Option<String>,
}

/// A locale as plain values: language, region, script, variant.
pub type LocaleView = (Seq<char>, Option<Seq<char>>, Option<Seq<char>>, Option<Seq<char>>);


impl View for Locale {
    type V = LocaleView;

    open spec fn view(&self) -> LocaleView {
        (self.language@, opt_text(self.region), opt_text(self.script), opt_text(self.variant))
    }
}

impl Clone for Locale {
    /// An equal copy.
    fn clone(&self) -> (r: Self)
        ensures
            r == *self,
    {
        Locale {
            language: self.language.clone(),
            region: copy_opt_text(&self.region),
            script: copy_opt_text(&self.script),
            variant: copy_opt_text(&self.variant),
        }
    }
}

/// Whether `c` is an ASCII letter.
pub open spec fn ascii_alpha(c: char) -> bool {
    ('a' <= c && c <= 'z') || ('A' <= c && c <= 'Z')
}

/// Whether every character of `s` is an ASCII letter.
pub open spec fn all_ascii_alpha(s: Seq<char>) -> bool {
    forall|i: int| 0 <= i < s.len() ==> ascii_alpha(#[trigger] s[i])
}

/// Whether every character of `s` is an ASCII letter.
fn is_ascii_alpha_str(s: &str) -> (b: bool)
    ensures
        b == all_ascii_alpha(s@),
{
    let v = crate::text::chars_of(s);
    let mut i: usize = 0;
    while i < v.len()
        invariant
            v@ == s@,
            i <= v@.len(),
            forall|j: int| 0 <= j < i ==> ascii_alpha(#[trigger] v@[j]),
        decreases v@.len() - i,
    {
        let c = v[i];
        if !(('a' <= c && c <= 'z') || ('A' <= c && c <= 'Z')) {
            return false;
        }
        i = i + 1;
    }
    true
}

/// The locale after one more part of a tag: a part of two bytes of ASCII
/// letters is the region (upper-cased), of four bytes of ASCII letters the
/// script; a part of two or four bytes with another character changes
/// nothing; a part of any other length is the variant.
pub open spec fn apply_part(l: LocaleView, part: Seq<char>) -> LocaleView {
    let n = byte_len(part);
    if n == 2 {
        if all_ascii_alpha(part) {
            (l.0, Some(upper_of(part)), l.2, l.3)
        } else {
            l
        }
    } else if n == 4 {
        if all_ascii_alpha(part) {
            (l.0, l.1, Some(part), l.3)
        } else {
            l
        }
    } else {
        (l.0, l.1, l.2, Some(part))
    }
}

/// The locale after the parts `parts`, in order.
pub open spec fn apply_parts(l: LocaleView, parts: Seq<Seq<char>>) -> LocaleView
    decreases parts.len(),
{
    if parts.len() == 0 {
        l
    } else {
        apply_part(apply_parts(l, parts.drop_last()), parts.last())
    }
}

/// The locale a tag such as "en-US" names: its parts are separated by '-';
/// the first is the language, lower-cased; the others go through
/// `apply_part` in order.
pub open spec fn parse_tag(s: Seq<char>) -> LocaleView {
    let parts = split_seq(s, '-');
    apply_parts((lower_of(parts[0]), None, None, None), parts.drop_first())
}

/// The parts of a locale's tag: language, script, region, variant, those
/// present.
pub open spec fn tag_parts(l: LocaleView) -> Seq<Seq<char>> {
    let a = seq![l.0];
    let b = match l.2 {
        Some(s) => a.push(s),
        None => a,
    };
    let c = match l.1 {
        Some(r) => b.push(r),
        None => b,
    };
    match l.3 {
        Some(v) => c.push(v),
        None => c,
    }
}

/// The locale with its parts from the most specific down: itself, without
/// its variant (when it has one), without its script (when it has one),
/// the language alone (when it has a region), and English unless its
/// language is "en".
pub open spec fn fallbacks(l: LocaleView) -> Seq<LocaleView> {
    let a = seq![l];
    let b = if l.3 is Some {
        a.push((l.0, l.1, l.2, None))
    } else {
        a
    };
    let c = if l.2 is Some {
        b.push((l.0, l.1, None, None))
    } else {
        b
    };
    let d = if l.1 is Some {
        c.push((l.0, None, None, None))
    } else {
        c
    };
    if l.0 != "en"@ {
        d.push((lower_of("en"@), None, None, None))
    } else {
        d
    }
}

impl Locale {
    /// The locale of `language`, lower-cased, with nothing else.
    pub fn new(language: &str) -> (l: Self)
        ensures
            l@ == (lower_of(language@), None::<Seq<char>>, None::<Seq<char>>, None::<Seq<char>>),
            ascii_no_upper(language@) ==> l@.0 == language@,
    {
        Locale { language: to_lower(language), region: None, script: None, variant: None }
    }

    /// The locale of `language`, lower-cased, in `region`, upper-cased.
    pub fn with_region(language: &str, region: &str) -> (l: Self)
        ensures
            l@ == (lower_of(language@), Some(upper_of(region@)), None::<Seq<char>>, None::<Seq<char>>),
    {
        Locale { language: to_lower(language), region: Some(to_upper(region)), script: None, variant: None }
    }

    /// The locale a tag names (see `parse_tag`); every string is accepted.
    pub fn from_string(locale_str: &str) -> (r: Result<Self, String>)
        ensures
            r matches Ok(l) && l@ == parse_tag(locale_str@),
            forall|m: LocaleView|
                #![trigger tag_parts(m)]
                plain_locale(m) && locale_str@ == join_seq(tag_parts(m), "-"@) ==> (r matches Ok(l) && l@ == m),
    {
        let parts = split_char(locale_str, '-');
        let ghost ps = views(parts@);
        proof {
            assert(ps.len() >= 1);
        }
        let mut locale = Locale::new(parts[0].as_str());
        let mut i: usize = 1;
        proof {
            assert(ps.drop_first().take(0) =~= Seq::<Seq<char>>::empty());
        }
        while i < parts.len()
            invariant
                ps == views(parts@),
                ps == split_seq(locale_str@, '-'),
                1 <= i <= ps.len(),
                locale@ == apply_parts((lower_of(ps[0]), None, None, None), ps.drop_first().take(i - 1)),
                ascii_no_upper(ps[0]) ==> lower_of(ps[0]) == ps[0],
                forall|j: int|
                    1 <= j < i && byte_len(#[trigger] ps[j]) == 2 && all_ascii_alpha(ps[j]) && ascii_no_lower(ps[j])
                        ==> upper_of(ps[j]) == ps[j],
            decreases ps.len() - i,
        {
            let part = parts[i].as_str();
            proof {
                assert(ps.drop_first().take(i as int).drop_last() =~= ps.drop_first().take(i - 1));
                assert(ps.drop_first().take(i as int).last() == part@);
            }
            let n = part.len();
            if n == 2 {
                if is_ascii_alpha_str(part) {
                    locale.region = Some(to_upper(part));
                }
            } else if n == 4 {
                if is_ascii_alpha_str(part) {
                    locale.script = Some(owned(part));
                }
            } else {
                locale.variant = Some(owned(part));
            }
            i = i + 1;
        }
        proof {
            assert(ps.drop_first().take(ps.len() - 1) =~= ps.drop_first());
            assert forall|m: LocaleView|
                #![trigger tag_parts(m)]
                plain_locale(m) && locale_str@ == join_seq(tag_parts(m), "-"@) implies locale@ == m by {
                lemma_plain_tag_parts(m);
                let tp = tag_parts(m);
                assert(ps == tp);
                assert(tp[0] == m.0);
                if let Some(reg) = m.1 {
                    let j: int = if m.2 is Some { 2 } else { 1 };
                    assert(tp[j] == reg);
                    assert(upper_of(ps[j]) == ps[j]);
                }
                lemma_tag_round_trip(m);
            }
        }
        Ok(locale)
    }

    /// The tag of the locale: language, script, region and variant, those
    /// present, joined with '-'.
    pub fn to_string(&self) -> (r: String)
        ensures
            r@ == join_seq(tag_parts(self@), "-"@),
    {
        let mut parts: Vec<String> = Vec::new();
        parts.push(self.language.clone());
        if let Some(script) = &self.script {
            parts.push(script.clone());
        }
        if let Some(region) = &self.region {
            parts.push(region.clone());
        }
        if let Some(variant) = &self.variant {
            parts.push(variant.clone());
        }
        assert(views(parts@) =~= tag_parts(self@));
        join(&parts, "-")
    }

    /// The locales to try for this one, from the most specific down (see
    /// `fallbacks`).
    pub fn fallback_chain(&self) -> (r: Vec<Locale>)
        ensures
            r@.map_values(|l: Locale| l@) == fallbacks(self@),
    {
        let mut fallbacks: Vec<Locale> = Vec::new();
        fallbacks.push(self.clone());
        if self.variant.is_some() {
            fallbacks.push(
                Locale {
                    language: self.language.clone(),
                    region: copy_opt_text(&self.region),
                    script: copy_opt_text(&self.script),
                    variant: None,
                },
            );
        }
        if self.script.is_some() {
            fallbacks.push(
                Locale {
                    language: self.language.clone(),
                    region: copy_opt_text(&self.region),
                    script: None,
                    variant: None,
                },
            );
        }
        if self.region.is_some() {
            fallbacks.push(Locale { language: self.language.clone(), region: None, script: None, variant: None });
        }
        if !str_eq(self.language.as_str(), "en") {
            fallbacks.push(Locale::new("en"));
        }
        assert(fallbacks@.map_values(|l: Locale| l@) =~= crate::error::i18n::fallbacks(self@));
        fallbacks
    }
}

/// Whether two locales agree on every part.
fn same_locale(a: &Locale, b: &Locale) -> (r: bool)
    ensures
        r == (a@ == b@),
{
    str_eq(a.language.as_str(), b.language.as_str()) && same_opt(&a.region, &b.region) && same_opt(
        &a.script,
        &b.script,
    ) && same_opt(&a.variant, &b.variant)
}

/// Whether two optional strings are both absent or hold the same text.
fn same_opt(a: &Option<String>, b: &Option<String>) -> (r: bool)
    ensures
        r == (opt_text(*a) == opt_text(*b)),
{
    match (a, b) {
        (Some(x), Some(y)) => str_eq(x.as_str(), y.as_str()),
        (None, None) => true,
        _ => false,
    }
}

/// Whether `available` holds a locale equal to `l`.
fn holds_locale(available: &[Locale], l: &Locale) -> (r: bool)
    ensures
        r == exists|i: int| 0 <= i < available@.len() && (#[trigger] available@[i])@ == l@,
{
    let mut i: usize = 0;
    while i < available.len()
        invariant
            i <= available@.len(),
            forall|j: int| 0 <= j < i ==> (#[trigger] available@[j])@ != l@,
        decreases available@.len() - i,
    {
        if same_locale(&available[i], l) {
            return true;
        }
        i = i + 1;
    }
    false
}

/// The system's locale: none is detected.
pub fn detect_from_system() -> (r: Option<Locale>)
    ensures
        r is None,
{
    None
}

/// Whether a locale equal to `l` is among `available`.
pub open spec fn offers(available: Seq<Locale>, l: LocaleView) -> bool {
    exists|i: int| 0 <= i < available.len() && (#[trigger] available[i])@ == l
}

/// The first of `chain` that `available` offers, if any.
pub open spec fn first_offered(available: Seq<Locale>, chain: Seq<LocaleView>) -> Option<LocaleView>
    decreases chain.len(),
{
    if chain.len() == 0 {
        None
    } else if offers(available, chain[0]) {
        Some(chain[0])
    } else {
        first_offered(available, chain.drop_first())
    }
}

/// The best of `available` for `requested`: the first locale of the
/// requested one's fallback chain that is available, the requested one
/// itself first.
pub fn best_match(requested: &Locale, available: &[Locale]) -> (r: Option<Locale>)
    ensures
        match r {
            Some(l) => first_offered(available@, fallbacks(requested@)) == Some(l@),
            None => first_offered(available@, fallbacks(requested@)) is None,
        },
{
    let chain = requested.fallback_chain();
    let ghost cv = chain@.map_values(|l: Locale| l@);
    if holds_locale(available, requested) {
        return Some(requested.clone());
    }
    let mut i: usize = 0;
    proof {
        assert(cv.skip(0) =~= cv);
    }
    while i < chain.len()
        invariant
            cv == chain@.map_values(|l: Locale| l@),
            cv == fallbacks(requested@),
            i <= cv.len(),
            first_offered(available@, cv.skip(i as int)) == first_offered(available@, cv),
        decreases cv.len() - i,
    {
        proof {
            assert(cv.skip(i as int)[0] == chain@[i as int]@);
            assert(cv.skip(i as int).drop_first() =~= cv.skip(i + 1));
        }
        if holds_locale(available, &chain[i]) {
            return Some(chain[i].clone());
        }
        i = i + 1;
    }
    proof {
        assert(cv.skip(cv.len() as int) =~= Seq::<LocaleView>::empty());
    }
    None
}

/// The message adapted to the locale's tone: it is kept as it is.
pub fn adapt_tone(message: &str, _locale: &Locale) -> (r: String)
    ensures
        r@ == message@,
{
    owned(message)
}

/// Whether `locale_str` is a valid locale tag: every string is.
pub fn validate_locale(locale_str: &str) -> (b: bool)
    ensures
        b,
{
    Locale::from_string(locale_str).is_ok()
}

/// Plural rules of a language, by category.
#[derive(Debug, Clone)]
pub struct PluralRules {
    pub rules: StrMap<String>,
}

/// Counts of localization work.
#[derive(Debug, Clone)]
pub struct LocalizationStats {
    pub total_requests: u64,
    pub successful_localizations: u64,
    pub fallback_used: u64,
    /// Requests without a translation, by key.
    pub missing_translations: StrMap<u64>,
}

/// The template with each `{key}` of `params` replaced by its value, the
/// parameters applied in order.
pub open spec fn substituted(template: Seq<char>, params: Seq<(Seq<char>, Seq<char>)>) -> Seq<char>
    decreases params.len(),
{
    if params.len() == 0 {
        template
    } else {
        replace_seq(substituted(template, params.drop_last()), "{"@ + params.last().0 + "}"@, params.last().1)
    }
}

/// `template` with each `{key}` of `params` replaced by its value, the
/// parameters applied in order.
pub fn substitute_parameters(template: &str, params: &[(&str, &str)]) -> (r: String)
    ensures
        r@ == substituted(template@, params@.map_values(|p: (&str, &str)| (p.0@, p.1@))),
{
    let ghost ps = params@.map_values(|p: (&str, &str)| (p.0@, p.1@));
    let mut result = owned(template);
    let mut i: usize = 0;
    proof {
        reveal_strlit("{");
        reveal_strlit("}");
        assert(ps.take(0) =~= Seq::<(Seq<char>, Seq<char>)>::empty());
    }
    while i < params.len()
        invariant
            ps == params@.map_values(|p: (&str, &str)| (p.0@, p.1@)),
            i <= params@.len(),
            result@ == substituted(template@, ps.take(i as int)),
            "{"@.len() == 1,
        decreases params@.len() - i,
    {
        let (key, value) = params[i];
        let placeholder = cat3("{", key, "}");
        proof {
            assert(ps.take(i + 1).drop_last() =~= ps.take(i as int));
            assert(ps.take(i + 1).last() == (key@, value@));
        }
        result = replace_str(result.as_str(), placeholder.as_str(), value);
        i = i + 1;
    }
    proof {
        assert(ps.take(params@.len() as int) =~= ps);
    }
    result
}

/// A fallback chain starts with the locale itself, holds at most five
/// locales, keeps the language in all but a last English entry, and ends
/// with English unless the language is "en".
pub proof fn lemma_fallbacks_shape(l: LocaleView)
    ensures
        fallbacks(l).len() >= 1,
        fallbacks(l).len() <= 5,
        fallbacks(l)[0] == l,
        forall|i: int| 0 <= i < fallbacks(l).len() - 1 ==> (#[trigger] fallbacks(l)[i]).0 == l.0,
        l.0 != "en"@ ==> fallbacks(l).last() == (lower_of("en"@), None::<Seq<char>>, None::<Seq<char>>, None::<
            Seq<char>,
        >),
{
}

/// A fallback chain gives up one part at a time, most specific first: with
/// a variant, the locale without it comes after the locale itself; with a
/// script, the locale without script and variant but with its region comes
/// next, before the language alone; with a region, the language alone
/// comes later still.
pub proof fn lemma_fallbacks_drop_one_part(l: LocaleView)
    ensures
        l.3 is Some ==> exists|i: int|
            0 < i < fallbacks(l).len() && #[trigger] fallbacks(l)[i] == (l.0, l.1, l.2, None::<Seq<char>>),
        l.2 is Some ==> exists|i: int|
            0 < i < fallbacks(l).len() && #[trigger] fallbacks(l)[i] == (l.0, l.1, None::<Seq<char>>, None::<Seq<char>>),
        l.1 is Some ==> exists|j: int|
            0 < j < fallbacks(l).len() && #[trigger] fallbacks(l)[j] == (l.0, None::<Seq<char>>, None::<Seq<char>>, None::<Seq<char>>),
        l.1 is Some && l.2 is Some ==> exists|i: int, j: int|
            0 < i < j < fallbacks(l).len() && #[trigger] fallbacks(l)[i] == (l.0, l.1, None::<Seq<char>>, None::<Seq<char>>)
                && #[trigger] fallbacks(l)[j] == (l.0, None::<Seq<char>>, None::<Seq<char>>, None::<Seq<char>>),
{
    let f = fallbacks(l);
    let v: int = if l.3 is Some { 1 } else { 0 };
    let sc: int = if l.2 is Some { v + 1 } else { v };
    let rg: int = if l.1 is Some { sc + 1 } else { sc };
    if l.3 is Some {
        assert(f[1] == (l.0, l.1, l.2, None::<Seq<char>>));
    }
    if l.2 is Some {
        assert(f[sc] == (l.0, l.1, None::<Seq<char>>, None::<Seq<char>>));
    }
    if l.1 is Some {
        assert(f[rg] == (l.0, None::<Seq<char>>, None::<Seq<char>>, None::<Seq<char>>));
    }
}

/// The pick is the earliest offered locale of the chain: when the entry at
/// `i` is offered and none before it is, that entry is picked.
pub proof fn lemma_first_offered_earliest(available: Seq<Locale>, chain: Seq<LocaleView>, i: int)
    requires
        0 <= i < chain.len(),
        offers(available, chain[i]),
        forall|j: int| 0 <= j < i ==> !offers(available, #[trigger] chain[j]),
    ensures
        first_offered(available, chain) == Some(chain[i]),
    decreases i,
{
    if i > 0 {
        assert(!offers(available, chain[0]));
        assert forall|j: int| 0 <= j < i - 1 implies !offers(available, #[trigger] chain.drop_first()[j]) by {
            assert(chain.drop_first()[j] == chain[j + 1]);
        }
        lemma_first_offered_earliest(available, chain.drop_first(), i - 1);
    }
}

/// What `first_offered` picks is offered and lies in the chain.
pub proof fn lemma_first_offered_is_offered(available: Seq<Locale>, chain: Seq<LocaleView>)
    ensures
        first_offered(available, chain) matches Some(l) ==> offers(available, l) && chain.contains(l),
    decreases chain.len(),
{
    if chain.len() > 0 && !offers(available, chain[0]) {
        lemma_first_offered_is_offered(available, chain.drop_first());
        let r = first_offered(available, chain.drop_first());
        if r is Some {
            let l = r->0;
            let j = choose|j: int| 0 <= j < chain.drop_first().len() && chain.drop_first()[j] == l;
            assert(chain[j + 1] == l);
        }
    } else if chain.len() > 0 {
        assert(chain[0] == chain[0]);
    }
}


/// A locale that its tag gives back exactly, stated on ASCII text: an
/// ASCII language without upper-case letters or '-'; a region of two ASCII
/// letters, none lower-case; a script of four ASCII letters; a variant
/// without '-' whose length is neither 2 nor 4.
pub open spec fn plain_locale(l: LocaleView) -> bool {
    &&& ascii_no_upper(l.0)
    &&& !l.0.contains('-')
    &&& l.1 matches Some(r) ==> byte_len(r) == 2 && all_ascii_alpha(r) && ascii_no_lower(r)
    &&& l.2 matches Some(c) ==> byte_len(c) == 4 && all_ascii_alpha(c)
    &&& l.3 matches Some(v) ==> byte_len(v) != 2 && byte_len(v) != 4 && !v.contains('-')
}

/// The tag of such a locale splits at '-' into its parts again.
proof fn lemma_plain_tag_parts(l: LocaleView)
    requires
        plain_locale(l),
    ensures
        split_seq(join_seq(tag_parts(l), "-"@), '-') == tag_parts(l),
{
    reveal_strlit("-");
    let ps = tag_parts(l);
    assert forall|i: int| 0 <= i < ps.len() implies !(#[trigger] ps[i]).contains('-') by {
        if let Some(r) = l.1 {
            if r.contains('-') {
                let k = choose|k: int| 0 <= k < r.len() && r[k] == '-';
                assert(ascii_alpha(r[k]));
            }
        }
        if let Some(c) = l.2 {
            if c.contains('-') {
                let k = choose|k: int| 0 <= k < c.len() && c[k] == '-';
                assert(ascii_alpha(c[k]));
            }
        }
    }
    assert("-"@ =~= seq!['-']);
    lemma_join_split(ps, '-');
}

/// A locale whose tag reads back as itself: the language in lower case,
/// a region of two bytes of ASCII letters in upper case, a script of four
/// bytes of ASCII letters, a variant of neither two nor four bytes, and no
/// part holding '-'.
pub open spec fn well_formed_locale(l: LocaleView) -> bool {
    &&& !l.0.contains('-')
    &&& lower_of(l.0) == l.0
    &&& l.1 matches Some(r) ==> byte_len(r) == 2 && all_ascii_alpha(r) && upper_of(r) == r
    &&& l.2 matches Some(c) ==> byte_len(c) == 4 && all_ascii_alpha(c)
    &&& l.3 matches Some(v) ==> byte_len(v) != 2 && byte_len(v) != 4 && !v.contains('-')
}

/// The tag of a well-formed locale (see `well_formed_locale`) names that
/// locale again: reading back the text `to_string` gives yields the locale.
pub proof fn lemma_tag_round_trip(l: LocaleView)
    requires
        well_formed_locale(l),
    ensures
        parse_tag(join_seq(tag_parts(l), "-"@)) == l,
{
    reveal_strlit("-");
    let ps = tag_parts(l);
    assert forall|i: int| 0 <= i < ps.len() implies !(#[trigger] ps[i]).contains('-') by {
        if let Some(r) = l.1 {
            if r.contains('-') {
                let k = choose|k: int| 0 <= k < r.len() && r[k] == '-';
                assert(ascii_alpha(r[k]));
            }
        }
        if let Some(c) = l.2 {
            if c.contains('-') {
                let k = choose|k: int| 0 <= k < c.len() && c[k] == '-';
                assert(ascii_alpha(c[k]));
            }
        }
    }
    assert("-"@ =~= seq!['-']);
    lemma_join_split(ps, '-');
    let rest = ps.drop_first();
    let start = (lower_of(ps[0]), None::<Seq<char>>, None::<Seq<char>>, None::<Seq<char>>);
    assert(ps[0] == l.0);
    reveal_with_fuel(apply_parts, 4);
    match (l.1, l.2, l.3) {
        (Some(r), Some(c), Some(v)) => assert(rest =~= seq![c, r, v]),
        (Some(r), Some(c), None) => assert(rest =~= seq![c, r]),
        (Some(r), None, Some(v)) => assert(rest =~= seq![r, v]),
        (Some(r), None, None) => assert(rest =~= seq![r]),
        (None, Some(c), Some(v)) => assert(rest =~= seq![c, v]),
        (None, Some(c), None) => assert(rest =~= seq![c]),
        (None, None, Some(v)) => assert(rest =~= seq![v]),
        (None, None, None) => assert(rest =~= Seq::<Seq<char>>::empty()),
    }
}

} // verus!

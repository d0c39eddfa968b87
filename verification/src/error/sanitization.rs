//! Sanitization of error messages: sensitive text is redacted by patterns,
//! each applied from a security level on, with statistics of what was
//! redacted and an optional audit trail.

use vstd::prelude::*;
use crate::clock::now_nanos;
use crate::config::validator::{regex_error, regex_parse_failure};
use crate::error::context::{new_correlation_id, ErrorContext};
use crate::error::types::{copy_opt_text, ConfigError, DataError, Error};
use crate::strmap::StrMap;
use crate::text::{cat, cat4, contains_str, has_sub, lower_of, opt_text, owned, to_lower};

verus! {

/// Security levels, from no sanitization to the most.
#[derive(Debug, Clone, Copy, PartialEq, Eq, Structural)]
pub enum SecurityLevel {
    Off,
    Low,
    Medium,
    High,
    Maximum,
}

/// The position of a level in the order Off < Low < Medium < High < Maximum.
pub open spec fn level_rank(l: SecurityLevel) -> int {
    match l {
        SecurityLevel::Off => 0,
        SecurityLevel::Low => 1,
        SecurityLevel::Medium => 2,
        SecurityLevel::High => 3,
        SecurityLevel::Maximum => 4,
    }
}

/// A pattern of level `pattern_level` applies at `current` when it is not
/// `None` and `current` is at least as high.
pub open spec fn applies_at(pattern_level: SecurityLevel, current: SecurityLevel) -> bool {
    pattern_level != SecurityLevel::Off && level_rank(pattern_level) <= level_rank(current)
}

/// Whether a pattern of level `pattern_level` applies at `current_level`.
fn should_apply_pattern(pattern_level: &SecurityLevel, current_level: &SecurityLevel) -> (b: bool)
    ensures
        b == applies_at(*pattern_level, *current_level),
{
    match (pattern_level, current_level) {
        (SecurityLevel::Off, _) => false,
        (SecurityLevel::Low, SecurityLevel::Low | SecurityLevel::Medium | SecurityLevel::High | SecurityLevel::Maximum) => true,
        (SecurityLevel::Medium, SecurityLevel::Medium | SecurityLevel::High | SecurityLevel::Maximum) => true,
        (SecurityLevel::High, SecurityLevel::High | SecurityLevel::Maximum) => true,
        (SecurityLevel::Maximum, SecurityLevel::Maximum) => true,
        _ => false,
    }
}

/// A redaction pattern of a policy.
#[derive(Debug, Clone)]
pub struct RedactionPattern {
    pub name: String,
    /// A regular expression.
    pub pattern: String,
    /// What each match is replaced with (`$1` names a group).
    pub replacement: String,
    pub min_security_level: SecurityLevel,
    pub enabled: bool,
}

/// How messages are sanitized.
#[derive(Debug, Clone)]
pub struct SanitizationPolicy {
    /// The level used where no context policy names the context.
    pub security_level: SecurityLevel,
    pub audit_logging: bool,
    /// Patterns added to the built-in ones.
    pub custom_patterns: Vec<RedactionPattern>,
    /// Levels by sanitization context.
    pub context_policies: StrMap<SecurityLevel>,
    pub safe_error_types: Vec<String>,
    pub detailed_logging: bool,
}

impl Default for SanitizationPolicy {
    /// Medium level, audit logging on, no custom patterns or context
    /// policies, "ValidationError" and "FormatError" safe, no detailed logging.
    fn default() -> (p: Self)
        ensures
            p.security_level == SecurityLevel::Medium,
            p.audit_logging,
            p.custom_patterns@.len() == 0,
            p.context_policies@ == Map::<Seq<char>, SecurityLevel>::empty(),
            p.safe_error_types@.len() == 2,
            p.safe_error_types@[0]@ == "ValidationError"@,
            p.safe_error_types@[1]@ == "FormatError"@,
            !p.detailed_logging,
    {
        let mut safe: Vec<String> = Vec::new();
        safe.push(owned("ValidationError"));
        safe.push(owned("FormatError"));
        SanitizationPolicy {
            security_level: SecurityLevel::Medium,
            audit_logging: true,
            custom_patterns: Vec::new(),
            context_policies: StrMap::new(),
            safe_error_types: safe,
            detailed_logging: false,
        }
    }
}

/// The level at which messages of `context` are sanitized under `policy`.
pub open spec fn level_in(policy: SanitizationPolicy, context: Seq<char>) -> SecurityLevel {
    if policy.context_policies@.contains_key(context) {
        policy.context_policies@[context]
    } else {
        policy.security_level
    }
}

/// Counts of sanitization work.
#[derive(Debug, Clone)]
pub struct SanitizationStats {
    /// Messages looked at.
    pub total_operations: u64,
    /// Messages in which something was redacted.
    pub sanitized_messages: u64,
    /// Matches by pattern name.
    pub patterns_matched: StrMap<u64>,
    /// Audit entries written.
    pub audit_events: u64,
}

/// One audited redaction.
#[derive(Debug, Clone)]
pub struct AuditEntry {
    pub id: uuid::Uuid,
    /// When, in nanoseconds since the Unix epoch.
    pub timestamp: i64,
    pub event_type: String,
    pub context: String,
    pub pattern_matched: Option<String>,
    pub sensitive_data_detected: bool,
}

/// An entry recording that `pattern` redacted text in `context`.
pub open spec fn is_redaction_entry(e: AuditEntry, pattern: Seq<char>, context: Seq<char>) -> bool {
    &&& e.event_type@ == "sanitization"@
    &&& e.context@ == context
    &&& opt_text(e.pattern_matched) == Some(pattern)
    &&& e.sensitive_data_detected
}

/// The audit trail of redactions.
#[derive(Debug)]
pub struct AuditLogger {
    entries: Vec<AuditEntry>,
}

impl AuditLogger {
    /// The entries, oldest first.
    pub closed spec fn entry_seq(&self) -> Seq<AuditEntry> {
        self.entries@
    }

    /// An empty trail.
    pub fn new() -> (l: Self)
        ensures
            l.entry_seq().len() == 0,
    {
        AuditLogger { entries: Vec::new() }
    }

    /// Records that `pattern` redacted text in `context`, under a fresh id
    /// and the current time; the message itself is not kept.
    pub fn log_sanitization_event(&mut self, pattern: &str, context: &str, _original_message: &str)
        ensures
            final(self).entry_seq().len() == old(self).entry_seq().len() + 1,
            final(self).entry_seq().drop_last() == old(self).entry_seq(),
            is_redaction_entry(final(self).entry_seq().last(), pattern@, context@),
    {
        let entry = AuditEntry {
            id: new_correlation_id(),
            timestamp: now_nanos(),
            event_type: owned("sanitization"),
            context: owned(context),
            pattern_matched: Some(owned(pattern)),
            sensitive_data_detected: true,
        };
        self.entries.push(entry);
        assert(self.entries@.drop_last() =~= old(self).entries@);
    }

    /// The entries, oldest first.
    pub fn get_entries(&self) -> (r: &[AuditEntry])
        ensures
            r@ == self.entry_seq(),
    {
        self.entries.as_slice()
    }
}

/// Whether the regular expression `pattern` matches somewhere in `text`,
/// as the regex crate decides.
pub uninterp spec fn regex_matches(pattern: Seq<char>, text: Seq<char>) -> bool;

/// The text with every match of `pattern` replaced by `replacement`, as the
/// regex crate's `replace_all` computes it.
pub uninterp spec fn regex_replaced(pattern: Seq<char>, text: Seq<char>, replacement: Seq<char>) -> Seq<char>;

/// `regex::Regex::is_match` on the compiled `pattern`: whether it matches
/// anywhere in `text`, named `regex_matches`. The pattern must compile.
#[verifier::external_body]
fn regex_is_match(pattern: &str, text: &str) -> (b: bool)
    requires
        regex_error(pattern@) is None,
    ensures
        b == regex_matches(pattern@, text@),
{
    match regex::Regex::new(pattern) {
        Ok(re) => re.is_match(text),
        Err(_) => false,
    }
}

/// `regex::Regex::replace_all` on the compiled `pattern`: the result is
/// named `regex_replaced`; where nothing matches, the crate hands the text
/// back unchanged. The pattern must compile.
#[verifier::external_body]
fn regex_replace_all(pattern: &str, text: &str, replacement: &str) -> (r: String)
    requires
        regex_error(pattern@) is None,
    ensures
        r@ == regex_replaced(pattern@, text@, replacement@),
        !regex_matches(pattern@, text@) ==> r@ == text@,
{
    match regex::Regex::new(pattern) {
        Ok(re) => re.replace_all(text, replacement).into_owned(),
        Err(_) => text.to_string(),
    }
}

/// A pattern ready for use: its regular expression compiles.
#[derive(Debug, Clone)]
struct CompiledPattern {
    name: String,
    pattern: String,
    replacement: String,
    min_security_level: SecurityLevel,
}

/// A pattern as plain values: name, expression, replacement and level.
pub type PatternSpec = (Seq<char>, Seq<char>, Seq<char>, SecurityLevel);

spec fn pattern_spec(p: CompiledPattern) -> PatternSpec {
    (p.name@, p.pattern@, p.replacement@, p.min_security_level)
}

/// The built-in patterns: passwords and API keys or tokens from Low,
/// credentials in URLs and e-mail addresses from Medium, paths of
/// configuration files from High, IP addresses at Maximum.
pub open spec fn builtin_patterns() -> Seq<PatternSpec> {
    seq![
        ("password"@, "password[=:]\\s*[^\\s&]+"@, "password=[REDACTED]"@, SecurityLevel::Low),
        ("api_key"@, "(?i)(api[_-]?key|token)[=:]\\s*[a-zA-Z0-9_-]+"@, "$1=[REDACTED]"@, SecurityLevel::Low),
        ("db_credentials"@, "://[^:]+:[^@]+@"@, "://[REDACTED]@"@, SecurityLevel::Medium),
        ("config_paths"@, "/[a-zA-Z0-9_/-]+\\.(yml|yaml|json|toml|conf)"@, "/[REDACTED]"@, SecurityLevel::High),
        ("email"@, "\\b[A-Za-z0-9._%+-]+@[A-Za-z0-9.-]+\\.[A-Z|a-z]{2,}\\b"@, "[EMAIL_REDACTED]"@, SecurityLevel::Medium),
        ("ip_address"@, "\\b(?:[0-9]{1,3}\\.){3}[0-9]{1,3}\\b"@, "[IP_REDACTED]"@, SecurityLevel::Maximum),
    ]
}

/// The patterns among `ps` whose expressions compile, in order.
pub open spec fn compiling(ps: Seq<PatternSpec>) -> Seq<PatternSpec>
    decreases ps.len(),
{
    if ps.len() == 0 {
        Seq::empty()
    } else {
        let before = compiling(ps.drop_last());
        if regex_error(ps.last().1) is None {
            before.push(ps.last())
        } else {
            before
        }
    }
}

/// The enabled patterns among `ps`, as plain values, in order.
pub open spec fn enabled_specs(ps: Seq<RedactionPattern>) -> Seq<PatternSpec>
    decreases ps.len(),
{
    if ps.len() == 0 {
        Seq::empty()
    } else {
        let before = enabled_specs(ps.drop_last());
        let p = ps.last();
        if p.enabled {
            before.push((p.name@, p.pattern@, p.replacement@, p.min_security_level))
        } else {
            before
        }
    }
}

/// The text after the patterns `pats` ran over it in order at `level`, and
/// the names of the patterns that matched, in order. A pattern runs when it
/// applies at `level`; it replaces its matches in the text left by the
/// patterns before it.
pub open spec fn redact(pats: Seq<PatternSpec>, level: SecurityLevel, text: Seq<char>) -> (Seq<char>, Seq<Seq<char>>)
    decreases pats.len(),
{
    if pats.len() == 0 {
        (text, Seq::empty())
    } else {
        let (cur, names) = redact(pats.drop_last(), level, text);
        let p = pats.last();
        if applies_at(p.3, level) && regex_matches(p.1, cur) {
            (regex_replaced(p.1, cur, p.2), names.push(p.0))
        } else {
            (cur, names)
        }
    }
}

/// At level `None` no pattern runs.
proof fn lemma_redact_none(pats: Seq<PatternSpec>, text: Seq<char>)
    ensures
        redact(pats, SecurityLevel::Off, text) == (text, Seq::<Seq<char>>::empty()),
    decreases pats.len(),
{
    if pats.len() > 0 {
        lemma_redact_none(pats.drop_last(), text);
    }
}

/// At most one name per pattern.
proof fn lemma_redact_names_len(pats: Seq<PatternSpec>, level: SecurityLevel, text: Seq<char>)
    ensures
        redact(pats, level, text).1.len() <= pats.len(),
    decreases pats.len(),
{
    if pats.len() > 0 {
        lemma_redact_names_len(pats.drop_last(), level, text);
    }
}

/// How often `k` occurs in `names`.
pub open spec fn count_of(names: Seq<Seq<char>>, k: Seq<char>) -> nat
    decreases names.len(),
{
    if names.len() == 0 {
        0
    } else {
        count_of(names.drop_last(), k) + if names.last() == k {
            1nat
        } else {
            0nat
        }
    }
}

proof fn lemma_count_bound(names: Seq<Seq<char>>, k: Seq<char>)
    ensures
        count_of(names, k) <= names.len(),
        count_of(names, k) > 0 <==> names.contains(k),
    decreases names.len(),
{
    if names.len() > 0 {
        lemma_count_bound(names.drop_last(), k);
        if names.drop_last().contains(k) {
            let j = choose|j: int| 0 <= j < names.drop_last().len() && names.drop_last()[j] == k;
            assert(names[j] == k);
        }
        if names.contains(k) && names.last() != k {
            let j = choose|j: int| 0 <= j < names.len() && names[j] == k;
            assert(names.drop_last()[j] == k);
        }
    }
}

proof fn lemma_count_concat(a: Seq<Seq<char>>, b: Seq<Seq<char>>, k: Seq<char>)
    ensures
        count_of(a + b, k) == count_of(a, k) + count_of(b, k),
    decreases b.len(),
{
    if b.len() == 0 {
        assert(a + b =~= a);
    } else {
        lemma_count_concat(a, b.drop_last(), k);
        assert((a + b).drop_last() =~= a + b.drop_last());
    }
}

/// Adds the pattern to `ps` when its expression compiles.
fn push_if_compiles(
    ps: &mut Vec<CompiledPattern>,
    name: &str,
    pattern: &str,
    replacement: &str,
    level: SecurityLevel,
)
    requires
        all_compile(old(ps)@),
    ensures
        all_compile(final(ps)@),
        specs_of(final(ps)@) == if regex_error(pattern@) is None {
            specs_of(old(ps)@).push((name@, pattern@, replacement@, level))
        } else {
            specs_of(old(ps)@)
        },
{
    if regex_parse_failure(pattern).is_none() {
        ps.push(
            CompiledPattern {
                name: owned(name),
                pattern: owned(pattern),
                replacement: owned(replacement),
                min_security_level: level,
            },
        );
        assert(specs_of(ps@) =~= specs_of(old(ps)@).push((name@, pattern@, replacement@, level)));
    }
}

/// Every pattern's expression compiles.
spec fn all_compile(ps: Seq<CompiledPattern>) -> bool {
    forall|i: int| 0 <= i < ps.len() ==> regex_error((#[trigger] ps[i]).pattern@) is None
}

/// The patterns as plain values.
spec fn specs_of(ps: Seq<CompiledPattern>) -> Seq<PatternSpec> {
    ps.map_values(|p: CompiledPattern| pattern_spec(p))
}

/// The built-in patterns whose expressions compile.
fn compile_default_patterns(_policy: &SanitizationPolicy) -> (r: Vec<CompiledPattern>)
    ensures
        all_compile(r@),
        specs_of(r@) == compiling(builtin_patterns()),
{
    let ghost b = builtin_patterns();
    let mut ps: Vec<CompiledPattern> = Vec::new();
    assert(specs_of(ps@) =~= compiling(b.take(0)));
    push_if_compiles(&mut ps, "password", "password[=:]\\s*[^\\s&]+", "password=[REDACTED]", SecurityLevel::Low);
    assert(b.take(1).drop_last() =~= b.take(0));
    assert(b.take(1).last() == b[0]);
    assert(specs_of(ps@) == compiling(b.take(1)));
    push_if_compiles(
        &mut ps,
        "api_key",
        "(?i)(api[_-]?key|token)[=:]\\s*[a-zA-Z0-9_-]+",
        "$1=[REDACTED]",
        SecurityLevel::Low,
    );
    assert(b.take(2).drop_last() =~= b.take(1));
    assert(b.take(2).last() == b[1]);
    assert(specs_of(ps@) == compiling(b.take(2)));
    push_if_compiles(&mut ps, "db_credentials", "://[^:]+:[^@]+@", "://[REDACTED]@", SecurityLevel::Medium);
    assert(b.take(3).drop_last() =~= b.take(2));
    assert(b.take(3).last() == b[2]);
    assert(specs_of(ps@) == compiling(b.take(3)));
    push_if_compiles(
        &mut ps,
        "config_paths",
        "/[a-zA-Z0-9_/-]+\\.(yml|yaml|json|toml|conf)",
        "/[REDACTED]",
        SecurityLevel::High,
    );
    assert(b.take(4).drop_last() =~= b.take(3));
    assert(b.take(4).last() == b[3]);
    assert(specs_of(ps@) == compiling(b.take(4)));
    push_if_compiles(
        &mut ps,
        "email",
        "\\b[A-Za-z0-9._%+-]+@[A-Za-z0-9.-]+\\.[A-Z|a-z]{2,}\\b",
        "[EMAIL_REDACTED]",
        SecurityLevel::Medium,
    );
    assert(b.take(5).drop_last() =~= b.take(4));
    assert(b.take(5).last() == b[4]);
    assert(specs_of(ps@) == compiling(b.take(5)));
    push_if_compiles(
        &mut ps,
        "ip_address",
        "\\b(?:[0-9]{1,3}\\.){3}[0-9]{1,3}\\b",
        "[IP_REDACTED]",
        SecurityLevel::Maximum,
    );
    assert(b.take(6).drop_last() =~= b.take(5));
    assert(b.take(6).last() == b[5]);
    assert(specs_of(ps@) == compiling(b.take(6)));
    assert(b.take(6) =~= b);
    ps
}

/// The built-in patterns, then the policy's enabled custom ones, each kept
/// when its expression compiles.
fn compile_patterns(policy: &SanitizationPolicy) -> (r: Vec<CompiledPattern>)
    ensures
        all_compile(r@),
        specs_of(r@) == compiling(builtin_patterns() + enabled_specs(policy.custom_patterns@)),
{
    let mut ps = compile_default_patterns(policy);
    let ghost custom = policy.custom_patterns@;
    assert(builtin_patterns() + enabled_specs(custom.take(0)) =~= builtin_patterns());
    let mut i: usize = 0;
    while i < policy.custom_patterns.len()
        invariant
            custom == policy.custom_patterns@,
            i <= custom.len(),
            all_compile(ps@),
            specs_of(ps@) == compiling(builtin_patterns() + enabled_specs(custom.take(i as int))),
        decreases custom.len() - i,
    {
        let c = &policy.custom_patterns[i];
        assert(custom.take(i + 1).drop_last() =~= custom.take(i as int));
        if c.enabled {
            push_if_compiles(&mut ps, c.name.as_str(), c.pattern.as_str(), c.replacement.as_str(), c.min_security_level);
            assert((builtin_patterns() + enabled_specs(custom.take(i + 1))).drop_last() =~= builtin_patterns()
                + enabled_specs(custom.take(i as int)));
        } else {
            assert(enabled_specs(custom.take(i + 1)) == enabled_specs(custom.take(i as int)));
        }
        i = i + 1;
    }
    assert(custom.take(custom.len() as int) =~= custom);
    ps
}

/// Redacts sensitive text from messages and errors.
#[derive(Debug)]
pub struct ErrorSanitizer {
    policy: SanitizationPolicy,
    patterns: Vec<CompiledPattern>,
    audit_logger: Option<AuditLogger>,
    stats: SanitizationStats,
}

/// All counters at zero.
pub open spec fn zero_stats(s: SanitizationStats) -> bool {
    &&& s.total_operations == 0
    &&& s.sanitized_messages == 0
    &&& s.patterns_matched@ == Map::<Seq<char>, u64>::empty()
    &&& s.audit_events == 0
}

impl ErrorSanitizer {
    /// Every pattern in use compiles.
    pub closed spec fn wf(&self) -> bool {
        all_compile(self.patterns@)
    }

    /// The policy.
    pub closed spec fn policy_of(&self) -> SanitizationPolicy {
        self.policy
    }

    /// The patterns in use, in the order they run.
    pub closed spec fn patterns_of(&self) -> Seq<PatternSpec> {
        specs_of(self.patterns@)
    }

    /// The counters.
    pub closed spec fn stats_of(&self) -> SanitizationStats {
        self.stats
    }

    /// The audit trail's entries, when audit logging is on.
    pub closed spec fn audit_of(&self) -> Option<Seq<AuditEntry>> {
        match self.audit_logger {
            Some(l) => Some(l.entry_seq()),
            None => None,
        }
    }

    /// The level at which messages of `context` are sanitized.
    pub open spec fn level_for(&self, context: Seq<char>) -> SecurityLevel {
        level_in(self.policy_of(), context)
    }

    /// `text` sanitized in `context`.
    pub open spec fn sanitized(&self, context: Seq<char>, text: Seq<char>) -> Seq<char> {
        redact(self.patterns_of(), self.level_for(context), text).0
    }

    /// The names of the patterns that match while `text` is sanitized in
    /// `context`, in order.
    pub open spec fn matched(&self, context: Seq<char>, text: Seq<char>) -> Seq<Seq<char>> {
        redact(self.patterns_of(), self.level_for(context), text).1
    }

    /// A sanitizer with the default policy and the built-in patterns that
    /// compile, no audit trail and zero counters.
    pub fn new() -> (s: Self)
        ensures
            s.wf(),
            s.patterns_of() == compiling(builtin_patterns()),
            s.policy_of().security_level == SecurityLevel::Medium,
            s.policy_of().context_policies@ == Map::<Seq<char>, SecurityLevel>::empty(),
            s.audit_of() is None,
            zero_stats(s.stats_of()),
    {
        let policy = SanitizationPolicy::default();
        let patterns = compile_default_patterns(&policy);
        ErrorSanitizer {
            policy,
            patterns,
            audit_logger: None,
            stats: SanitizationStats {
                total_operations: 0,
                sanitized_messages: 0,
                patterns_matched: StrMap::new(),
                audit_events: 0,
            },
        }
    }

    /// The sanitizer under `policy`: the built-in patterns and the policy's
    /// enabled custom ones, those that compile; the rest is kept.
    pub fn with_policy(self, policy: SanitizationPolicy) -> (s: Self)
        ensures
            s.wf(),
            s.policy_of() == policy,
            s.patterns_of() == compiling(builtin_patterns() + enabled_specs(policy.custom_patterns@)),
            s.audit_of() == self.audit_of(),
            s.stats_of() == self.stats_of(),
    {
        let mut s = self;
        s.patterns = compile_patterns(&policy);
        s.policy = policy;
        s
    }

    /// The sanitizer with a fresh audit trail when `enabled`, without one
    /// otherwise; the rest is kept.
    pub fn with_audit_logging(self, enabled: bool) -> (s: Self)
        ensures
            self.wf() ==> s.wf(),
            s.policy_of() == self.policy_of(),
            s.patterns_of() == self.patterns_of(),
            enabled ==> s.audit_of() == Some(Seq::<AuditEntry>::empty()),
            !enabled ==> s.audit_of() is None,
            s.stats_of() == self.stats_of(),
    {
        let mut s = self;
        if enabled {
            let l = AuditLogger::new();
            assert(l.entry_seq() =~= Seq::<AuditEntry>::empty());
            s.audit_logger = Some(l);
        } else {
            s.audit_logger = None;
        }
        s
    }

    /// The counters.
    pub fn get_stats(&self) -> (r: &SanitizationStats)
        ensures
            *r == self.stats_of(),
    {
        &self.stats
    }
}

/// The names of the patterns that match while each of `texts` is sanitized
/// in `context`, text after text.
pub open spec fn names_in(s: &ErrorSanitizer, context: Seq<char>, texts: Seq<Seq<char>>) -> Seq<Seq<char>>
    decreases texts.len(),
{
    if texts.len() == 0 {
        Seq::empty()
    } else {
        names_in(s, context, texts.drop_last()) + s.matched(context, texts.last())
    }
}

/// How many of `texts` have something redacted in `context`.
pub open spec fn redacted_count(s: &ErrorSanitizer, context: Seq<char>, texts: Seq<Seq<char>>) -> nat
    decreases texts.len(),
{
    if texts.len() == 0 {
        0
    } else {
        redacted_count(s, context, texts.drop_last()) + if s.matched(context, texts.last()).len() > 0 {
            1nat
        } else {
            0nat
        }
    }
}

/// The count of pattern `k` in `stats`, zero when it never matched.
pub open spec fn prior_count(stats: SanitizationStats, k: Seq<char>) -> int {
    if stats.patterns_matched@.contains_key(k) {
        stats.patterns_matched@[k] as int
    } else {
        0
    }
}

/// `after` is `before` once `texts` were sanitized in `context`, in order:
/// policy and patterns are kept, each text is counted, each text with a
/// redaction is counted, each pattern's count grows by its matches, and when
/// the audit trail is on, each match adds an entry to it, in order.
pub open spec fn recorded(after: &ErrorSanitizer, before: &ErrorSanitizer, context: Seq<char>, texts: Seq<Seq<char>>) -> bool {
    let names = names_in(before, context, texts);
    let (s0, s1) = (before.stats_of(), after.stats_of());
    &&& after.wf() == before.wf()
    &&& after.policy_of() == before.policy_of()
    &&& after.patterns_of() == before.patterns_of()
    &&& s1.total_operations == s0.total_operations + texts.len()
    &&& s1.sanitized_messages == s0.sanitized_messages + redacted_count(before, context, texts)
    &&& forall|k: Seq<char>| #[trigger] s1.patterns_matched@.contains_key(k) <==> (
        s0.patterns_matched@.contains_key(k) || names.contains(k))
    &&& forall|k: Seq<char>| #[trigger] s1.patterns_matched@.contains_key(k) ==> s1.patterns_matched@[k]
        == prior_count(s0, k) + count_of(names, k)
    &&& match before.audit_of() {
        None => after.audit_of() is None && s1.audit_events == s0.audit_events,
        Some(es) => {
            &&& after.audit_of() is Some
            &&& after.audit_of()->0.len() == es.len() + names.len()
            &&& after.audit_of()->0.take(es.len() as int) == es
            &&& forall|j: int| 0 <= j < names.len() ==> is_redaction_entry(
                #[trigger] after.audit_of()->0[es.len() + j],
                names[j],
                context,
            )
            &&& s1.audit_events == s0.audit_events + names.len()
        },
    }
}

/// The counters can take `calls` more sanitized messages without overflow.
pub open spec fn has_room(s: &ErrorSanitizer, calls: nat) -> bool {
    let n = s.patterns_of().len();
    let st = s.stats_of();
    &&& st.total_operations + calls <= u64::MAX
    &&& st.sanitized_messages + calls <= u64::MAX
    &&& st.audit_events + calls * n <= u64::MAX
    &&& forall|k: Seq<char>| #[trigger] st.patterns_matched@.contains_key(k) ==> st.patterns_matched@[k] + calls * n
        <= u64::MAX
}

impl ErrorSanitizer {
    /// `message` with sensitive text redacted at the level of `context`: at
    /// level `Off` it is returned as it is; otherwise each pattern that
    /// applies at the level replaces its matches, in order (see `redact`).
    /// The counters and the audit trail record the work.
    pub fn sanitize_message(&mut self, message: &str, context: &str) -> (r: String)
        requires
            old(self).wf(),
            has_room(old(self), 1),
        ensures
            r@ == old(self).sanitized(context@, message@),
            recorded(final(self), old(self), context@, seq![message@]),
    {
        let ghost pats = self.patterns_of();
        let ghost names: Seq<Seq<char>> = Seq::empty();
        proof {
            lemma_redact_names_len(pats, old(self).level_for(context@), message@);
            let one = seq![message@];
            assert(one.drop_last() =~= Seq::<Seq<char>>::empty());
            assert(one.last() == message@);
            assert(names_in(old(self), context@, one.drop_last()) == Seq::<Seq<char>>::empty());
            assert(names_in(old(self), context@, one) == Seq::<Seq<char>>::empty() + old(self).matched(context@, message@));
            assert(names_in(old(self), context@, one) =~= old(self).matched(context@, message@));
            assert(redacted_count(old(self), context@, one.drop_last()) == 0);
        }
        self.stats.total_operations = self.stats.total_operations + 1;
        let level = match self.policy.context_policies.get(context) {
            Some(l) => *l,
            None => self.policy.security_level,
        };
        if level == SecurityLevel::Off {
            proof {
                lemma_redact_none(pats, message@);
                assert forall|k: Seq<char>| #[trigger] self.stats.patterns_matched@.contains_key(k) implies
                    self.stats.patterns_matched@[k] == prior_count(old(self).stats, k) + count_of(
                    Seq::empty(),
                    k,
                ) by {}
                if old(self).audit_of() is Some {
                    assert(self.audit_of()->0.take(self.audit_of()->0.len() as int) =~= self.audit_of()->0);
                }
            }
            return owned(message);
        }
        let mut sanitized = owned(message);
        let mut was_sanitized = false;
        let mut i: usize = 0;
        assert(pats.take(0) =~= Seq::<PatternSpec>::empty());
        while i < self.patterns.len()
            invariant
                self.wf(),
                self.policy == old(self).policy,
                self.patterns == old(self).patterns,
                pats == self.patterns_of(),
                i <= pats.len(),
                level == old(self).level_for(context@),
                redact(pats.take(i as int), level, message@) == (sanitized@, names),
                was_sanitized == (names.len() > 0),
                names.len() <= i,
                has_room(old(self), 1),
                self.stats.total_operations == old(self).stats.total_operations + 1,
                self.stats.sanitized_messages == old(self).stats.sanitized_messages,
                forall|k: Seq<char>| #[trigger] self.stats.patterns_matched@.contains_key(k) <==> (
                    old(self).stats.patterns_matched@.contains_key(k) || names.contains(k)),
                forall|k: Seq<char>| #[trigger] self.stats.patterns_matched@.contains_key(k)
                    ==> self.stats.patterns_matched@[k] == prior_count(old(self).stats, k) + count_of(names, k),
                match old(self).audit_of() {
                    None => self.audit_of() is None && self.stats.audit_events == old(self).stats.audit_events,
                    Some(es) => {
                        &&& self.audit_of() is Some
                        &&& self.audit_of()->0.len() == es.len() + names.len()
                        &&& self.audit_of()->0.take(es.len() as int) == es
                        &&& forall|j: int| 0 <= j < names.len() ==> is_redaction_entry(
                            #[trigger] self.audit_of()->0[es.len() + j],
                            names[j],
                            context@,
                        )
                        &&& self.stats.audit_events == old(self).stats.audit_events + names.len()
                    },
                },
            decreases pats.len() - i,
        {
            proof {
                assert(pats.take(i + 1).drop_last() =~= pats.take(i as int));
            }
            let p = &self.patterns[i];
            if should_apply_pattern(&p.min_security_level, &level) {
                if regex_is_match(p.pattern.as_str(), sanitized.as_str()) {
                    sanitized = regex_replace_all(p.pattern.as_str(), sanitized.as_str(), p.replacement.as_str());
                    was_sanitized = true;
                    let ghost before_names = names;
                    proof {
                        names = names.push(p.name@);
                        lemma_count_bound(before_names, p.name@);
                        assert(names.drop_last() =~= before_names);
                    }
                    let count = match self.stats.patterns_matched.get(p.name.as_str()) {
                        Some(c) => *c,
                        None => 0,
                    };
                    self.stats.patterns_matched.insert(p.name.clone(), count + 1);
                    proof {
                        assert forall|k: Seq<char>| names.contains(k) <==> (before_names.contains(k) || k == p.name@) by {
                            if names.contains(k) && k != p.name@ {
                                let j = choose|j: int| 0 <= j < names.len() && names[j] == k;
                                assert(before_names[j] == k);
                            }
                            if before_names.contains(k) {
                                let j = choose|j: int| 0 <= j < before_names.len() && before_names[j] == k;
                                assert(names[j] == k);
                            }
                            if k == p.name@ {
                                assert(names[names.len() - 1] == k);
                            }
                        }
                    }
                    match &mut self.audit_logger {
                        Some(l) => {
                            l.log_sanitization_event(p.name.as_str(), context, message);
                            self.stats.audit_events = self.stats.audit_events + 1;
                        },
                        None => {},
                    }
                    proof {
                        if old(self).audit_of() is Some {
                            let es = old(self).audit_of()->0;
                            let now = self.audit_of()->0;
                            assert(now.take(es.len() as int) =~= es);
                            assert forall|j: int| 0 <= j < names.len() implies is_redaction_entry(
                                #[trigger] now[es.len() + j],
                                names[j],
                                context@,
                            ) by {
                                if j < names.len() - 1 {
                                    assert(now[es.len() + j] == now.drop_last()[es.len() + j]);
                                }
                            }
                        }
                    }
                }
            }
            i = i + 1;
        }
        if was_sanitized {
            self.stats.sanitized_messages = self.stats.sanitized_messages + 1;
        }
        proof {
            assert(pats.take(pats.len() as int) =~= pats);
        }
        sanitized
    }
}

/// The record of a single text.
proof fn lemma_names_one(s: &ErrorSanitizer, context: Seq<char>, t: Seq<char>)
    ensures
        names_in(s, context, seq![t]) == s.matched(context, t),
        redacted_count(s, context, seq![t]) == if s.matched(context, t).len() > 0 {
            1nat
        } else {
            0nat
        },
{
    let one = seq![t];
    assert(one.drop_last() =~= Seq::<Seq<char>>::empty());
    assert(one.last() == t);
    assert(names_in(s, context, one.drop_last()) == Seq::<Seq<char>>::empty());
    assert(names_in(s, context, one) == Seq::<Seq<char>>::empty() + s.matched(context, t));
    assert(names_in(s, context, one) =~= s.matched(context, t));
    assert(redacted_count(s, context, one.drop_last()) == 0);
}

/// Sanitizing one more text after `texts` adds it to the record.
proof fn lemma_recorded_step(
    s0: &ErrorSanitizer,
    s1: &ErrorSanitizer,
    s2: &ErrorSanitizer,
    context: Seq<char>,
    texts: Seq<Seq<char>>,
    t: Seq<char>,
)
    requires
        recorded(s1, s0, context, texts),
        recorded(s2, s1, context, seq![t]),
    ensures
        recorded(s2, s0, context, texts.push(t)),
{
    lemma_names_one(s1, context, t);
    assert(texts.push(t).drop_last() =~= texts);
    let a = names_in(s0, context, texts);
    let b = s0.matched(context, t);
    let all = names_in(s0, context, texts.push(t));
    assert(all == a + b);
    assert forall|k: Seq<char>| all.contains(k) <==> (a.contains(k) || b.contains(k)) by {
        lemma_count_bound(all, k);
        lemma_count_bound(a, k);
        lemma_count_bound(b, k);
        lemma_count_concat(a, b, k);
    }
    assert forall|k: Seq<char>| #[trigger] s2.stats_of().patterns_matched@.contains_key(k) implies s2.stats_of().patterns_matched@[k]
        == prior_count(s0.stats_of(), k) + count_of(all, k) by {
        lemma_count_concat(a, b, k);
        lemma_count_bound(a, k);
    }
    if s0.audit_of() is Some {
        let e0 = s0.audit_of()->0;
        let e1 = s1.audit_of()->0;
        let e2 = s2.audit_of()->0;
        assert(e2.take(e0.len() as int) =~= e0) by {
            assert forall|j: int| 0 <= j < e0.len() implies e2[j] == e0[j] by {
                assert(e2.take(e1.len() as int)[j] == e1[j]);
                assert(e1.take(e0.len() as int)[j] == e0[j]);
            }
        }
        assert forall|j: int| 0 <= j < all.len() implies is_redaction_entry(
            #[trigger] e2[e0.len() + j],
            all[j],
            context,
        ) by {
            if j < a.len() {
                assert(e2.take(e1.len() as int)[e0.len() + j] == e1[e0.len() + j]);
            } else {
                assert(e2[e1.len() + (j - a.len())] == e2[e0.len() + j]);
            }
        }
    }
}

/// Nothing sanitized, nothing recorded.
proof fn lemma_recorded_none(s: &ErrorSanitizer, context: Seq<char>)
    ensures
        recorded(s, s, context, Seq::empty()),
{
    if s.audit_of() is Some {
        assert(s.audit_of()->0.take(s.audit_of()->0.len() as int) =~= s.audit_of()->0);
    }
}

/// Room for more calls is room for fewer.
proof fn lemma_room_mono(s: &ErrorSanitizer, a: nat, b: nat)
    requires
        a <= b,
        has_room(s, b),
    ensures
        has_room(s, a),
{
    let n = s.patterns_of().len();
    assert(a * n <= b * n) by (nonlinear_arith)
        requires
            a <= b,
    ;
}

/// One sanitized message uses the room of one call.
proof fn lemma_room_step(s0: &ErrorSanitizer, s1: &ErrorSanitizer, context: Seq<char>, t: Seq<char>, c: nat)
    requires
        has_room(s0, c + 1),
        recorded(s1, s0, context, seq![t]),
    ensures
        has_room(s1, c),
{
    let n = s0.patterns_of().len();
    lemma_names_one(s0, context, t);
    let names = s0.matched(context, t);
    lemma_redact_names_len(s0.patterns_of(), s0.level_for(context), t);
    assert((c + 1) * n == c * n + n) by (nonlinear_arith);
    assert forall|k: Seq<char>| #[trigger] s1.stats_of().patterns_matched@.contains_key(k) implies s1.stats_of().patterns_matched@[k]
        + c * n <= u64::MAX by {
        lemma_count_bound(names, k);
    }
}

/// The texts of an error that are sanitized, in order; other texts are
/// kept.
pub open spec fn error_texts(e: Error) -> Seq<Seq<char>> {
    match e {
        Error::Config(c) => match c {
            ConfigError::LoadError { path, source } => seq![path@, source@],
            ConfigError::ValidationError { message, .. } => seq![message@],
            ConfigError::ParseError { message, .. } => seq![message@],
            _ => Seq::empty(),
        },
        Error::Data(d) => match d {
            DataError::ReadError { path, source } => seq![path@, source@],
            DataError::ValidationError { message, path, .. } => match path {
                Some(p) => seq![message@, p@],
                None => seq![message@],
            },
            DataError::FormatError { message, .. } => seq![message@],
            DataError::SchemaError { message, .. } => seq![message@],
            DataError::IoError { path, source } => seq![path@, source@],
        },
        _ => Seq::empty(),
    }
}

/// The configuration errors the sanitizer handles: load, validation, parse
/// and missing-key errors.
pub open spec fn config_error_handled(c: ConfigError) -> bool {
    ||| c is LoadError
    ||| c is ValidationError
    ||| c is ParseError
    ||| c is MissingError
}

/// `r` is `e` with the texts of `error_texts(e)` sanitized by `s` in
/// `context`, and every other field kept.
pub open spec fn error_sanitized(s: &ErrorSanitizer, context: Seq<char>, e: Error, r: Error) -> bool {
    match e {
        Error::Config(c) => match c {
            ConfigError::LoadError { path, source } => r matches Error::Config(
                ConfigError::LoadError { path: p, source: q },
            ) && p@ == s.sanitized(context, path@) && q@ == s.sanitized(context, source@),
            ConfigError::ValidationError { message, field } => r matches Error::Config(
                ConfigError::ValidationError { message: m, field: f },
            ) && m@ == s.sanitized(context, message@) && f == field,
            ConfigError::ParseError { message, line, column } => r matches Error::Config(
                ConfigError::ParseError { message: m, line: l, column: c },
            ) && m@ == s.sanitized(context, message@) && l == line && c == column,
            _ => r == e,
        },
        Error::Data(d) => match d {
            DataError::ReadError { path, source } => r matches Error::Data(
                DataError::ReadError { path: p, source: q },
            ) && p@ == s.sanitized(context, path@) && q@ == s.sanitized(context, source@),
            DataError::ValidationError { message, path, line } => r matches Error::Data(
                DataError::ValidationError { message: m, path: p, line: l },
            ) && m@ == s.sanitized(context, message@) && l == line && match path {
                Some(x) => p is Some && p->0@ == s.sanitized(context, x@),
                None => p is None,
            },
            DataError::FormatError { message, expected, actual } => r matches Error::Data(
                DataError::FormatError { message: m, expected: x, actual: a },
            ) && m@ == s.sanitized(context, message@) && x == expected && a == actual,
            DataError::SchemaError { message, field, expected_type, actual_type } => r matches Error::Data(
                DataError::SchemaError { message: m, field: f, expected_type: x, actual_type: a },
            ) && m@ == s.sanitized(context, message@) && f == field && x == expected_type && a
                == actual_type,
            DataError::IoError { path, source } => r matches Error::Data(
                DataError::IoError { path: p, source: q },
            ) && p@ == s.sanitized(context, path@) && q@ == s.sanitized(context, source@),
        },
        _ => r == e,
    }
}

impl ErrorSanitizer {
    /// Sanitizes `text` after `done` were sanitized since `start`.
    fn sanitize_more(
        &mut self,
        text: &str,
        context: &str,
        Ghost(start): Ghost<ErrorSanitizer>,
        Ghost(done): Ghost<Seq<Seq<char>>>,
        Ghost(left): Ghost<nat>,
    ) -> (r: String)
        requires
            old(self).wf(),
            recorded(old(self), &start, context@, done),
            has_room(old(self), left + 1),
        ensures
            final(self).wf(),
            r@ == start.sanitized(context@, text@),
            recorded(final(self), &start, context@, done.push(text@)),
            has_room(final(self), left),
    {
        proof {
            lemma_room_mono(old(self), 1, left + 1);
        }
        let r = self.sanitize_message(text, context);
        proof {
            lemma_recorded_step(&start, old(self), self, context@, done, text@);
            lemma_room_step(old(self), self, context@, text@, left);
        }
        r
    }

    /// A configuration error with its texts sanitized.
    fn sanitize_config_error(&mut self, error: &ConfigError, context: &str) -> (r: ConfigError)
        requires
            old(self).wf(),
            has_room(old(self), 2),
            config_error_handled(*error),
        ensures
            final(self).wf(),
            error_sanitized(old(self), context@, Error::Config(*error), Error::Config(r)),
            recorded(final(self), old(self), context@, error_texts(Error::Config(*error))),
    {
        let ghost start = *self;
        proof {
            lemma_recorded_none(self, context@);
        }
        match error {
            ConfigError::LoadError { path, source } => {
                let p = self.sanitize_more(path.as_str(), context, Ghost(start), Ghost(Seq::empty()), Ghost(1));
                let q = self.sanitize_more(source.as_str(), context, Ghost(start), Ghost(Seq::empty().push(path@)), Ghost(0));
                assert(Seq::<Seq<char>>::empty().push(path@).push(source@) =~= seq![path@, source@]);
                ConfigError::LoadError { path: p, source: q }
            },
            ConfigError::ValidationError { message, field } => {
                let m = self.sanitize_more(message.as_str(), context, Ghost(start), Ghost(Seq::empty()), Ghost(1));
                assert(Seq::<Seq<char>>::empty().push(message@) =~= seq![message@]);
                ConfigError::ValidationError { message: m, field: copy_opt_text(field) }
            },
            ConfigError::ParseError { message, line, column } => {
                let m = self.sanitize_more(message.as_str(), context, Ghost(start), Ghost(Seq::empty()), Ghost(1));
                assert(Seq::<Seq<char>>::empty().push(message@) =~= seq![message@]);
                ConfigError::ParseError { message: m, line: *line, column: *column }
            },
            ConfigError::MissingError { key, section } => ConfigError::MissingError {
                key: key.clone(),
                section: copy_opt_text(section),
            },
            _ => {
                proof {
                    assert(false);
                }
                error.clone()
            },
        }
    }

    /// A data error with its texts sanitized.
    fn sanitize_data_error(&mut self, error: &DataError, context: &str) -> (r: DataError)
        requires
            old(self).wf(),
            has_room(old(self), 2),
        ensures
            final(self).wf(),
            error_sanitized(old(self), context@, Error::Data(*error), Error::Data(r)),
            recorded(final(self), old(self), context@, error_texts(Error::Data(*error))),
    {
        let ghost start = *self;
        proof {
            lemma_recorded_none(self, context@);
        }
        match error {
            DataError::ReadError { path, source } => {
                let p = self.sanitize_more(path.as_str(), context, Ghost(start), Ghost(Seq::empty()), Ghost(1));
                let q = self.sanitize_more(source.as_str(), context, Ghost(start), Ghost(Seq::empty().push(path@)), Ghost(0));
                assert(Seq::<Seq<char>>::empty().push(path@).push(source@) =~= seq![path@, source@]);
                DataError::ReadError { path: p, source: q }
            },
            DataError::ValidationError { message, path, line } => {
                let m = self.sanitize_more(message.as_str(), context, Ghost(start), Ghost(Seq::empty()), Ghost(1));
                assert(Seq::<Seq<char>>::empty().push(message@) =~= seq![message@]);
                let p = match path {
                    Some(x) => {
                        let y = self.sanitize_more(x.as_str(), context, Ghost(start), Ghost(Seq::empty().push(message@)), Ghost(0));
                        assert(Seq::<Seq<char>>::empty().push(message@).push(x@) =~= seq![message@, x@]);
                        Some(y)
                    },
                    None => None,
                };
                DataError::ValidationError { message: m, path: p, line: *line }
            },
            DataError::FormatError { message, expected, actual } => {
                let m = self.sanitize_more(message.as_str(), context, Ghost(start), Ghost(Seq::empty()), Ghost(1));
                assert(Seq::<Seq<char>>::empty().push(message@) =~= seq![message@]);
                DataError::FormatError { message: m, expected: expected.clone(), actual: actual.clone() }
            },
            DataError::SchemaError { message, field, expected_type, actual_type } => {
                let m = self.sanitize_more(message.as_str(), context, Ghost(start), Ghost(Seq::empty()), Ghost(1));
                assert(Seq::<Seq<char>>::empty().push(message@) =~= seq![message@]);
                DataError::SchemaError {
                    message: m,
                    field: field.clone(),
                    expected_type: expected_type.clone(),
                    actual_type: actual_type.clone(),
                }
            },
            DataError::IoError { path, source } => {
                let p = self.sanitize_more(path.as_str(), context, Ghost(start), Ghost(Seq::empty()), Ghost(1));
                let q = self.sanitize_more(source.as_str(), context, Ghost(start), Ghost(Seq::empty().push(path@)), Ghost(0));
                assert(Seq::<Seq<char>>::empty().push(path@).push(source@) =~= seq![path@, source@]);
                DataError::IoError { path: p, source: q }
            },
        }
    }

    /// `error` with its texts sanitized in `context` (see `error_texts`);
    /// processing, output, plugin and system errors are returned as they
    /// are. Configuration errors other than load, validation, parse and
    /// missing-key errors are not handled.
    pub fn sanitize_error(&mut self, error: &Error, context: &str) -> (r: Error)
        requires
            old(self).wf(),
            has_room(old(self), 2),
            *error matches Error::Config(c) ==> config_error_handled(c),
        ensures
            final(self).wf(),
            error_sanitized(old(self), context@, *error, r),
            recorded(final(self), old(self), context@, error_texts(*error)),
    {
        proof {
            lemma_recorded_none(self, context@);
        }
        match error {
            Error::Config(c) => Error::Config(self.sanitize_config_error(c, context)),
            Error::Data(d) => Error::Data(self.sanitize_data_error(d, context)),
            Error::Processing(e) => Error::Processing(e.clone()),
            Error::Output(e) => Error::Output(e.clone()),
            Error::Plugin(e) => Error::Plugin(e.clone()),
            Error::System(e) => Error::System(e.clone()),
        }
    }
}

impl ErrorSanitizer {
    /// A copy of `context` whose message and metadata values are sanitized
    /// in `sanitization_context`: the message first, then the values in the
    /// order of the metadata's keys. The other fields are kept.
    pub fn sanitize_context(&mut self, context: &ErrorContext, sanitization_context: &str) -> (r: ErrorContext)
        requires
            old(self).wf(),
            has_room(old(self), 1 + context.metadata.key_list().len()),
        ensures
            final(self).wf(),
            r.message@ == old(self).sanitized(sanitization_context@, context.message@),
            r.location == context.location,
            r.timestamp == context.timestamp,
            r.component == context.component,
            r.correlation_id == context.correlation_id,
            r.metadata.key_list() == context.metadata.key_list(),
            r.metadata@.dom() == context.metadata@.dom(),
            forall|k: Seq<char>| #[trigger] r.metadata@.contains_key(k) ==> r.metadata@[k]@ == old(
                self,
            ).sanitized(sanitization_context@, context.metadata@[k]@),
            recorded(
                final(self),
                old(self),
                sanitization_context@,
                seq![context.message@] + context.metadata.value_list().map_values(|v: String| v@),
            ),
    {
        let ghost start = *self;
        let ghost keys = context.metadata.key_list();
        let ghost vals = context.metadata.value_list().map_values(|v: String| v@);
        proof {
            lemma_recorded_none(self, sanitization_context@);
        }
        let n = context.metadata.len();
        let message = self.sanitize_more(
            context.message.as_str(),
            sanitization_context,
            Ghost(start),
            Ghost(Seq::empty()),
            Ghost(n as nat),
        );
        let mut metadata: StrMap<String> = StrMap::new();
        let mut i: usize = 0;
        proof {
            assert(Seq::<Seq<char>>::empty().push(context.message@) =~= seq![context.message@] + vals.take(0));
            assert(keys.take(0) =~= metadata.key_list());
        }
        while i < n
            invariant
                self.wf(),
                n == keys.len(),
                n == vals.len(),
                keys == context.metadata.key_list(),
                vals == context.metadata.value_list().map_values(|v: String| v@),
                forall|a: int, b: int|
                    0 <= a < keys.len() && 0 <= b < keys.len() && a != b ==> #[trigger] keys[a]
                        != #[trigger] keys[b],
                i <= n,
                recorded(self, &start, sanitization_context@, seq![context.message@] + vals.take(i as int)),
                has_room(self, (n - i) as nat),
                metadata.key_list() == keys.take(i as int),
                forall|j: int| 0 <= j < i ==> #[trigger] metadata@.contains_key(keys[j]) && metadata@[keys[j]]@
                    == start.sanitized(sanitization_context@, context.metadata@[keys[j]]@),
            decreases n - i,
        {
            let (k, v) = context.metadata.entry_at(i);
            proof {
                metadata.lemma_view_dom();
                if metadata@.contains_key(k@) {
                    let j = choose|j: int| 0 <= j < metadata.key_list().len() && metadata.key_list()[j] == k@;
                    assert(keys[j] == keys[i as int]);
                }
            }
            let sv = self.sanitize_more(
                v.as_str(),
                sanitization_context,
                Ghost(start),
                Ghost(seq![context.message@] + vals.take(i as int)),
                Ghost((n - i - 1) as nat),
            );
            let ghost before = metadata@;
            metadata.insert(k.clone(), sv);
            proof {
                assert(vals[i as int] == v@);
                assert((seq![context.message@] + vals.take(i as int)).push(v@) =~= seq![context.message@] + vals.take(i + 1));
                assert(keys.take(i + 1) =~= keys.take(i as int).push(k@));
                assert forall|j: int| 0 <= j < i + 1 implies #[trigger] metadata@.contains_key(keys[j]) && metadata@[keys[j]]@
                    == start.sanitized(sanitization_context@, context.metadata@[keys[j]]@) by {
                    if j < i {
                        assert(keys[j] != k@);
                        assert(before.contains_key(keys[j]));
                    }
                }
            }
            i = i + 1;
        }
        proof {
            assert(vals.take(n as int) =~= vals);
            assert(keys.take(n as int) =~= keys);
            metadata.lemma_view_dom();
            context.metadata.lemma_view_dom();
            assert(metadata@.dom() =~= context.metadata@.dom());
            assert forall|k: Seq<char>| #[trigger] metadata@.contains_key(k) implies metadata@[k]@ == start.sanitized(
                sanitization_context@,
                context.metadata@[k]@,
            ) by {
                let j = choose|j: int| 0 <= j < metadata.key_list().len() && metadata.key_list()[j] == k;
                assert(keys[j] == k);
            }
        }
        ErrorContext {
            message,
            location: context.location,
            timestamp: context.timestamp,
            component: context.component.clone(),
            correlation_id: context.correlation_id.clone(),
            metadata,
        }
    }
}

/// The words whose presence, in any case, marks a message as sensitive.
pub open spec fn sensitive_keywords() -> Seq<Seq<char>> {
    seq!["password"@, "token"@, "key"@, "secret"@, "credential"@, "auth"@, "login"@, "user"@, "admin"@]
}

/// Whether the lower-cased `message` contains one of the sensitive keywords.
pub fn contains_sensitive_data(message: &str) -> (b: bool)
    ensures
        b == exists|i: int| 0 <= i < sensitive_keywords().len() && has_sub(
            lower_of(message@),
            #[trigger] sensitive_keywords()[i],
        ),
{
    let lower = to_lower(message);
    let keywords: [&str; 9] = ["password", "token", "key", "secret", "credential", "auth", "login", "user", "admin"];
    let ghost kw = sensitive_keywords();
    assert(keywords@.map_values(|k: &str| k@) =~= kw);
    let mut i: usize = 0;
    while i < 9
        invariant
            i <= 9,
            lower@ == lower_of(message@),
            kw == sensitive_keywords(),
            keywords@.map_values(|k: &str| k@) == kw,
            forall|j: int| 0 <= j < i ==> !has_sub(lower@, #[trigger] kw[j]),
        decreases 9 - i,
    {
        assert(keywords@.map_values(|k: &str| k@)[i as int] == keywords[i as int]@);
        if contains_str(lower.as_str(), keywords[i]) {
            return true;
        }
        i = i + 1;
    }
    false
}

/// "An error occurred in {component} component: {error_type}".
pub fn create_safe_message(error_type: &str, component: &str) -> (r: String)
    ensures
        r@ == "An error occurred in "@ + component@ + " component: "@ + error_type@,
{
    cat4("An error occurred in ", component, " component: ", error_type)
}

/// `Ok` when `pattern` compiles as a regular expression, else the error
/// "Invalid regex pattern: " followed by the parser's message.
pub fn validate_pattern(pattern: &str) -> (r: Result<(), String>)
    ensures
        match regex_error(pattern@) {
            None => r is Ok,
            Some(e) => r matches Err(m) && m@ == "Invalid regex pattern: "@ + e,
        },
{
    match regex_parse_failure(pattern) {
        None => Ok(()),
        Some(e) => Err(cat("Invalid regex pattern: ", e.as_str())),
    }
}

/// At level `Off` a text is kept as it is and no pattern is counted as
/// matched.
pub proof fn lemma_off_keeps_text(s: &ErrorSanitizer, context: Seq<char>, text: Seq<char>)
    requires
        s.level_for(context) == SecurityLevel::Off,
    ensures
        s.sanitized(context, text) == text,
        s.matched(context, text).len() == 0,
{
    lemma_redact_none(s.patterns_of(), text);
}

/// A text that no pattern applying at `level` matches is kept as it is,
/// and no pattern is counted as matched.
pub proof fn lemma_unmatched_text_kept(pats: Seq<PatternSpec>, level: SecurityLevel, text: Seq<char>)
    requires
        forall|i: int| 0 <= i < pats.len() && applies_at(#[trigger] pats[i].3, level) ==> !regex_matches(
            pats[i].1,
            text,
        ),
    ensures
        redact(pats, level, text) == (text, Seq::<Seq<char>>::empty()),
    decreases pats.len(),
{
    if pats.len() > 0 {
        let rest = pats.drop_last();
        assert forall|i: int| 0 <= i < rest.len() && applies_at(#[trigger] rest[i].3, level) implies !regex_matches(
            rest[i].1,
            text,
        ) by {
            assert(rest[i] == pats[i]);
        }
        lemma_unmatched_text_kept(rest, level, text);
        assert(pats.last() == pats[pats.len() - 1]);
    }
}

/// A pattern that applies at a level applies at every higher level: a
/// higher level never runs fewer patterns.
pub proof fn lemma_levels_monotone(pattern_level: SecurityLevel, low: SecurityLevel, high: SecurityLevel)
    requires
        level_rank(low) <= level_rank(high),
        applies_at(pattern_level, low),
    ensures
        applies_at(pattern_level, high),
{
}

/// How security levels decide which patterns run: a pattern of any level
/// but `Off` runs at its own level, and so at every level above it (see
/// `lemma_levels_monotone`); it never runs below its level; a pattern of
/// level `Off` never runs; and at `Maximum` every pattern that is not `Off`
/// runs.
pub proof fn lemma_pattern_levels(pattern_level: SecurityLevel, current: SecurityLevel)
    ensures
        pattern_level != SecurityLevel::Off ==> applies_at(pattern_level, pattern_level),
        pattern_level != SecurityLevel::Off ==> applies_at(pattern_level, SecurityLevel::Maximum),
        applies_at(pattern_level, current) ==> level_rank(pattern_level) <= level_rank(current),
        !applies_at(SecurityLevel::Off, current),
        level_rank(SecurityLevel::Off) < level_rank(SecurityLevel::Low) < level_rank(SecurityLevel::Medium)
            < level_rank(SecurityLevel::High) < level_rank(SecurityLevel::Maximum),
{
}

} // verus!

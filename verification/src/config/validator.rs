//! Validation of configurations: results made of errors and warnings, and
//! the checks on field validation rules.

use vstd::prelude::*;
use vstd::string::*;
use crate::config::model::{Config, OrderedNumber, SurveyConfig, ValidationRule};
use crate::text::{cat, cat3, cat4, cat5, dec, decimal, opt_text, owned, str_eq, trim, trim_seq, views};

verus! {

/// The severity of a validation finding.
#[derive(Debug, Clone, Copy, PartialEq, Eq, Structural)]
pub enum ValidationSeverity {
    /// Prevents processing.
    Error,
    /// Should be reviewed.
    Warning,
    /// Informational.
    Info,
}

impl ValidationSeverity {
    /// The severity's name, in capitals.
    pub open spec fn name(self) -> Seq<char> {
        match self {
            ValidationSeverity::Error => "ERROR"@,
            ValidationSeverity::Warning => "WARNING"@,
            ValidationSeverity::Info => "INFO"@,
        }
    }

    /// The severity's name, in capitals.
    pub fn to_string(&self) -> (r: String)
        ensures
            r@ == self.name(),
    {
        match self {
            ValidationSeverity::Error => owned("ERROR"),
            ValidationSeverity::Warning => owned("WARNING"),
            ValidationSeverity::Info => owned("INFO"),
        }
    }
}

/// A validation error.
#[derive(Debug)]
pub struct ValidationError {
    /// Error code.
    pub code: String,
    /// Error message.
    pub message: String,
    /// Path of the field where the error occurred.
    pub field_path: Option<String>,
    /// Severity.
    pub severity: ValidationSeverity,
}

/// A validation warning.
#[derive(Debug)]
pub struct ValidationWarning {
    /// Warning code.
    pub code: String,
    /// Warning message.
    pub message: String,
    /// Path of the field where the warning occurred.
    pub field_path: Option<String>,
}


/// The text of a validation error.
pub open spec fn error_text(e: ValidationError) -> Seq<char> {
    match e.field_path {
        Some(p) => "["@ + e.severity.name() + "] "@ + e.code@ + ": "@ + e.message@ + " (field: "@ + p@
            + ")"@,
        None => "["@ + e.severity.name() + "] "@ + e.code@ + ": "@ + e.message@,
    }
}

/// The text of a validation warning.
pub open spec fn warning_text(w: ValidationWarning) -> Seq<char> {
    match w.field_path {
        Some(p) => "[WARNING] "@ + w.code@ + ": "@ + w.message@ + " (field: "@ + p@ + ")"@,
        None => "[WARNING] "@ + w.code@ + ": "@ + w.message@,
    }
}

impl ValidationError {
    /// An error without a field path.
    pub fn new(code: &str, message: &str) -> (e: Self)
        ensures
            e.code@ == code@,
            e.message@ == message@,
            e.field_path is None,
            e.severity == ValidationSeverity::Error,
    {
        ValidationError { code: owned(code), message: owned(message), field_path: None, severity: ValidationSeverity::Error }
    }

    /// An error at a field path.
    pub fn with_field(code: &str, message: &str, field_path: &str) -> (e: Self)
        ensures
            e.code@ == code@,
            e.message@ == message@,
            opt_text(e.field_path) == Some(field_path@),
            e.severity == ValidationSeverity::Error,
    {
        ValidationError {
            code: owned(code),
            message: owned(message),
            field_path: Some(owned(field_path)),
            severity: ValidationSeverity::Error,
        }
    }

    /// "[SEVERITY] code: message", followed by " (field: path)" when there is a path.
    pub fn to_string(&self) -> (r: String)
        ensures
            r@ == error_text(*self),
    {
        let sev = self.severity.to_string();
        let head = cat5("[", sev.as_str(), "] ", self.code.as_str(), ": ");
        match &self.field_path {
            Some(p) => {
                let mut r = head;
                r.append(self.message.as_str());
                r.append(" (field: ");
                r.append(p.as_str());
                r.append(")");
                r
            },
            None => cat(head.as_str(), self.message.as_str()),
        }
    }
}

impl ValidationWarning {
    /// A warning without a field path.
    pub fn new(code: &str, message: &str) -> (w: Self)
        ensures
            w.code@ == code@,
            w.message@ == message@,
            w.field_path is None,
    {
        ValidationWarning { code: owned(code), message: owned(message), field_path: None }
    }

    /// A warning at a field path.
    pub fn with_field(code: &str, message: &str, field_path: &str) -> (w: Self)
        ensures
            w.code@ == code@,
            w.message@ == message@,
            opt_text(w.field_path) == Some(field_path@),
    {
        ValidationWarning { code: owned(code), message: owned(message), field_path: Some(owned(field_path)) }
    }

    /// "[WARNING] code: message", followed by " (field: path)" when there is a path.
    pub fn to_string(&self) -> (r: String)
        ensures
            r@ == warning_text(*self),
    {
        let head = cat4("[WARNING] ", self.code.as_str(), ": ", self.message.as_str());
        match &self.field_path {
            Some(p) => cat4(head.as_str(), " (field: ", p.as_str(), ")"),
            None => head,
        }
    }
}

/// The errors and warnings found by a validation.
#[derive(Debug)]
pub struct ValidationResult {
    errors: Vec<ValidationError>,
    warnings: Vec<ValidationWarning>,
}

impl ValidationResult {
    /// The errors found, in the order they were added.
    pub closed spec fn error_list(&self) -> Seq<ValidationError> {
        self.errors@
    }

    /// The warnings found, in the order they were added.
    pub closed spec fn warning_list(&self) -> Seq<ValidationWarning> {
        self.warnings@
    }

    /// A result with no error and no warning.
    pub fn new() -> (r: Self)
        ensures
            r.error_list().len() == 0,
            r.warning_list().len() == 0,
    {
        ValidationResult { errors: Vec::new(), warnings: Vec::new() }
    }

    /// Valid means without errors; warnings do not count.
    pub fn is_valid(&self) -> (b: bool)
        ensures
            b == (self.error_list().len() == 0),
    {
        self.errors.len() == 0
    }

    /// The errors.
    pub fn errors(&self) -> (r: &[ValidationError])
        ensures
            r@ == self.error_list(),
    {
        self.errors.as_slice()
    }

    /// The warnings.
    pub fn warnings(&self) -> (r: &[ValidationWarning])
        ensures
            r@ == self.warning_list(),
    {
        self.warnings.as_slice()
    }

    /// Adds an error at the end.
    pub fn add_error(&mut self, error: ValidationError)
        ensures
            final(self).error_list() == old(self).error_list().push(error),
            final(self).warning_list() == old(self).warning_list(),
    {
        self.errors.push(error);
    }

    /// Adds a warning at the end.
    pub fn add_warning(&mut self, warning: ValidationWarning)
        ensures
            final(self).warning_list() == old(self).warning_list().push(warning),
            final(self).error_list() == old(self).error_list(),
    {
        self.warnings.push(warning);
    }

    /// Appends the errors and the warnings of `other` to these.
    pub fn merge(&mut self, other: ValidationResult)
        ensures
            final(self).error_list() == old(self).error_list() + other.error_list(),
            final(self).warning_list() == old(self).warning_list() + other.warning_list(),
    {
        let mut other = other;
        self.errors.append(&mut other.errors);
        self.warnings.append(&mut other.warnings);
    }
}

impl Default for ValidationResult {
    fn default() -> (r: Self)
        ensures
            r.error_list().len() == 0,
            r.warning_list().len() == 0,
    {
        Self::new()
    }
}

/// What `regex::Regex::new` reports for `pattern`: `None` when it compiles,
/// else the text of its error.
pub uninterp spec fn regex_error(pattern: Seq<char>) -> Option<Seq<char>>;

/// `regex::Regex::new`: `None` when `pattern` compiles, else the error's
/// text; both are named by `regex_error`, as the crate's parser decides them.
#[verifier::external_body]
pub(crate) fn regex_parse_failure(pattern: &str) -> (r: Option<String>)
    ensures
        opt_text(r) == regex_error(pattern@),
{
    match regex::Regex::new(pattern) {
        Ok(_) => None,
        Err(e) => Some(e.to_string()),
    }
}

/// An error with code, message and field path, of severity Error.
pub open spec fn is_error(e: ValidationError, code: Seq<char>, message: Seq<char>, path: Seq<char>) -> bool {
    e.code@ == code && e.message@ == message && opt_text(e.field_path) == Some(path) && e.severity
        == ValidationSeverity::Error
}

/// A warning with code, message and field path.
pub open spec fn is_warning(w: ValidationWarning, code: Seq<char>, message: Seq<char>, path: Seq<char>) -> bool {
    w.code@ == code && w.message@ == message && opt_text(w.field_path) == Some(path)
}

/// The path of rule `ri` of field `fi` of a file.
pub open spec fn rule_path(file_name: Seq<char>, fi: nat, ri: nat) -> Seq<char> {
    "files."@ + file_name + ".schema["@ + dec(fi) + "].validation["@ + dec(ri) + "]"@
}

/// The values of `vs` that already occurred before them, in order.
pub open spec fn repeated_values(vs: Seq<Seq<char>>) -> Seq<Seq<char>>
    decreases vs.len(),
{
    if vs.len() == 0 {
        Seq::empty()
    } else {
        let rest = repeated_values(vs.drop_last());
        if vs.drop_last().contains(vs.last()) {
            rest.push(vs.last())
        } else {
            rest
        }
    }
}

/// The error a rule of `field` gives by itself (at most one), as
/// code and message; `pattern_error` is what the regex parser reports.
pub open spec fn rule_error(field: Seq<char>, rule: ValidationRule, pattern_error: Option<Seq<char>>) -> Option<(Seq<char>, Seq<char>)> {
    match rule {
        ValidationRule::Length { min, max } => if min is Some && max is Some && min->0 > max->0 {
            Some(("INVALID_LENGTH_RANGE"@, "Invalid length range for field '"@ + field + "': min ("@
                + dec(min->0 as nat) + ") > max ("@ + dec(max->0 as nat) + ")"@))
        } else {
            None
        },
        ValidationRule::Range { min, max } => if min is Some && max is Some && min->0.order_key
            > max->0.order_key {
            Some(("INVALID_NUMERIC_RANGE"@, "Invalid numeric range for field '"@ + field + "': min ("@
                + min->0.text@ + ") > max ("@ + max->0.text@ + ")"@))
        } else {
            None
        },
        ValidationRule::Pattern { pattern } => match pattern_error {
            Some(e) => Some(("INVALID_REGEX_PATTERN"@, "Invalid regex pattern for field '"@ + field
                + "': "@ + e)),
            None => None,
        },
        ValidationRule::Enum { values } => if values@.len() == 0 {
            Some(("EMPTY_ENUM_VALUES"@, "Empty enum values for field '"@ + field + "'"@))
        } else {
            None
        },
        ValidationRule::Custom { function } => if trim_seq(function@).len() == 0 {
            Some(("EMPTY_CUSTOM_FUNCTION"@, "Empty custom validation function for field '"@ + field
                + "'"@))
        } else {
            None
        },
    }
}

/// The duplicate-value warning message for `value` of `field`.
pub open spec fn duplicate_message(value: Seq<char>, field: Seq<char>) -> Seq<char> {
    "Duplicate enum value '"@ + value + "' for field '"@ + field + "'"@
}

/// The warnings a rule gives: one per enum value that repeats an earlier one.
pub open spec fn rule_warning_values(rule: ValidationRule) -> Seq<Seq<char>> {
    match rule {
        ValidationRule::Enum { values } => repeated_values(views(values@)),
        _ => Seq::empty(),
    }
}

/// Whether the first `i` of `vs` contain `v`.
fn occurs_before(vs: &Vec<String>, i: usize, v: &str) -> (r: bool)
    requires
        i <= vs@.len(),
    ensures
        r == views(vs@).take(i as int).contains(v@),
{
    let mut j: usize = 0;
    while j < i
        invariant
            i <= vs@.len(),
            j <= i,
            forall|k: int| 0 <= k < j ==> vs@[k]@ != v@,
        decreases i - j,
    {
        if str_eq(vs[j].as_str(), v) {
            assert(views(vs@).take(i as int)[j as int] == v@);
            return true;
        }
        j = j + 1;
    }
    assert(!views(vs@).take(i as int).contains(v@)) by {
        if views(vs@).take(i as int).contains(v@) {
            let k = choose|k: int| 0 <= k < i && views(vs@).take(i as int)[k] == v@;
            assert(vs@[k]@ == v@);
        }
    }
    false
}

/// Adds the error for an invalid regex pattern of `field_name`, when the
/// parser reported one.
pub fn add_pattern_error(
    result: &mut ValidationResult,
    field_name: &str,
    field_path: &str,
    parse_failure: Option<String>,
)
    ensures
        parse_failure is None ==> final(result).error_list() == old(result).error_list(),
        parse_failure matches Some(e) ==> final(result).error_list().len() == old(result).error_list().len() + 1
            && final(result).error_list().take(old(result).error_list().len() as int) == old(result).error_list()
            && is_error(final(result).error_list().last(), "INVALID_REGEX_PATTERN"@,
                "Invalid regex pattern for field '"@ + field_name@ + "': "@ + e@, field_path@),
        final(result).warning_list() == old(result).warning_list(),
{
    match parse_failure {
        Some(e) => {
            let msg = cat4("Invalid regex pattern for field '", field_name, "': ", e.as_str());
            let err = ValidationError::with_field("INVALID_REGEX_PATTERN", msg.as_str(), field_path);
            let ghost before = result.error_list();
            result.add_error(err);
            assert(result.error_list().take(before.len() as int) =~= before);
        },
        None => {},
    }
}

/// Checks one validation rule of a field and records what it finds in
/// `result`.
pub fn check_rule(
    file_name: &str,
    field_name: &str,
    rule: &ValidationRule,
    field_index: usize,
    rule_index: usize,
    result: &mut ValidationResult,
)
    ensures
        ({
            let path = rule_path(file_name@, field_index as nat, rule_index as nat);
            let pe = match *rule {
                ValidationRule::Pattern { pattern } => regex_error(pattern@),
                _ => None,
            };
            let olde = old(result).error_list();
            let newe = final(result).error_list();
            let oldw = old(result).warning_list();
            let neww = final(result).warning_list();
            let reps = rule_warning_values(*rule);
            &&& newe.take(olde.len() as int) == olde
            &&& match rule_error(field_name@, *rule, pe) {
                Some((code, msg)) => newe.len() == olde.len() + 1 && is_error(newe.last(), code, msg, path),
                None => newe.len() == olde.len(),
            }
            &&& neww.len() == oldw.len() + reps.len()
            &&& neww.take(oldw.len() as int) == oldw
            &&& forall|k: int| 0 <= k < reps.len() ==> is_warning(
                #[trigger] neww[oldw.len() + k],
                "DUPLICATE_ENUM_VALUE"@,
                duplicate_message(reps[k], field_name@),
                path,
            )
        }),
{
    let field_path = {
        let fi = decimal(field_index as u64);
        let ri = decimal(rule_index as u64);
        let mut p = cat4("files.", file_name, ".schema[", fi.as_str());
        p.append("].validation[");
        p.append(ri.as_str());
        p.append("]");
        p
    };
    let ghost olde = result.error_list();
    let ghost oldw = result.warning_list();
    match rule {
        ValidationRule::Length { min, max } => {
            match (min, max) {
                (Some(lo), Some(hi)) => {
                    if *lo > *hi {
                        let mut msg = cat5(
                            "Invalid length range for field '",
                            field_name,
                            "': min (",
                            decimal(*lo as u64).as_str(),
                            ") > max (",
                        );
                        msg.append(decimal(*hi as u64).as_str());
                        msg.append(")");
                        result.add_error(ValidationError::with_field("INVALID_LENGTH_RANGE", msg.as_str(), field_path.as_str()));
                    }
                },
                _ => {},
            }
        },
        ValidationRule::Range { min, max } => {
            match (min, max) {
                (Some(lo), Some(hi)) => {
                    if lo.order_key > hi.order_key {
                        let mut msg = cat5(
                            "Invalid numeric range for field '",
                            field_name,
                            "': min (",
                            lo.text.as_str(),
                            ") > max (",
                        );
                        msg.append(hi.text.as_str());
                        msg.append(")");
                        result.add_error(ValidationError::with_field("INVALID_NUMERIC_RANGE", msg.as_str(), field_path.as_str()));
                    }
                },
                _ => {},
            }
        },
        ValidationRule::Pattern { pattern } => {
            let parse_failure = regex_parse_failure(pattern.as_str());
            add_pattern_error(result, field_name, field_path.as_str(), parse_failure);
        },
        ValidationRule::Enum { values } => {
            if values.len() == 0 {
                let msg = cat3("Empty enum values for field '", field_name, "'");
                result.add_error(ValidationError::with_field("EMPTY_ENUM_VALUES", msg.as_str(), field_path.as_str()));
            }
            let ghost vs = views(values@);
            let ghost olde2 = result.error_list();
            let mut i: usize = 0;
            while i < values.len()
                invariant
                    vs == views(values@),
                    i <= values@.len(),
                    result.error_list() == olde2,
                    result.warning_list().len() == oldw.len() + repeated_values(vs.take(i as int)).len(),
                    result.warning_list().take(oldw.len() as int) == oldw,
                    forall|k: int| 0 <= k < repeated_values(vs.take(i as int)).len() ==> is_warning(
                        #[trigger] result.warning_list()[oldw.len() + k],
                        "DUPLICATE_ENUM_VALUE"@,
                        duplicate_message(repeated_values(vs.take(i as int))[k], field_name@),
                        field_path@,
                    ),
                decreases values@.len() - i,
            {
                let seen = occurs_before(values, i, values[i].as_str());
                proof {
                    assert(vs.take(i + 1).drop_last() =~= vs.take(i as int));
                    assert(vs.take(i + 1).last() == values@[i as int]@);
                }
                let ghost before = result.warning_list();
                if seen {
                    let msg = cat5(
                        "Duplicate enum value '",
                        values[i].as_str(),
                        "' for field '",
                        field_name,
                        "'",
                    );
                    result.add_warning(ValidationWarning::with_field("DUPLICATE_ENUM_VALUE", msg.as_str(), field_path.as_str()));
                    proof {
                        assert(result.warning_list().take(oldw.len() as int) =~= before.take(oldw.len() as int));
                    }
                }
                i = i + 1;
            }
            proof {
                assert(vs.take(values@.len() as int) =~= vs);
            }
        },
        ValidationRule::Custom { function } => {
            let t = trim(function.as_str());
            if t.as_str().unicode_len() == 0 {
                let msg = cat3("Empty custom validation function for field '", field_name, "'");
                result.add_error(ValidationError::with_field("EMPTY_CUSTOM_FUNCTION", msg.as_str(), field_path.as_str()));
            }
        },
    }
    proof {
        assert(result.error_list().take(olde.len() as int) =~= olde);
    }
}

/// The configuration validator.
#[derive(Debug)]
pub struct ConfigValidator {
    /// Whether validation is strict.
    pub strict_mode: bool,
}

impl ConfigValidator {
    /// A validator that is not strict.
    pub fn new() -> (v: Self)
        ensures
            !v.strict_mode,
    {
        ConfigValidator { strict_mode: false }
    }

    /// A validator with the given strictness.
    pub fn with_strict_mode(strict_mode: bool) -> (v: Self)
        ensures
            v.strict_mode == strict_mode,
    {
        ConfigValidator { strict_mode }
    }

    /// Validates a configuration: business rules, cross references,
    /// security and performance settings. No check finds anything in the
    /// simplified configuration, so the result is always valid and empty.
    pub fn validate(&self, config: &Config) -> (r: crate::error::Result<ValidationResult>)
        ensures
            r matches Ok(v) && v.error_list().len() == 0 && v.warning_list().len() == 0,
    {
        let mut result = ValidationResult::new();
        self.validate_business_rules(config, &mut result)?;
        self.validate_cross_references(config, &mut result)?;
        self.validate_security_rules(config, &mut result)?;
        self.validate_performance_settings(config, &mut result)?;
        Ok(result)
    }

    fn validate_business_rules(&self, _config: &Config, _result: &mut ValidationResult) -> (r: crate::error::Result<()>)
        ensures
            r is Ok,
            *final(_result) == *old(_result),
    {
        Ok(())
    }

    /// Checks a file schema of the configuration; the simplified
    /// configuration has no schema, so nothing is found.
    pub fn validate_file_schema(&self, _file_name: &str, _schema: &str, _result: &mut ValidationResult) -> (r: crate::error::Result<()>)
        ensures
            r is Ok,
            *final(_result) == *old(_result),
    {
        Ok(())
    }

    /// Checks one validation rule of a field of a file, recording what it
    /// finds in `result`; see `check_rule`.
    pub fn validate_field_validation_rule(
        &self,
        file_name: &str,
        field_name: &str,
        rule: &ValidationRule,
        field_index: usize,
        rule_index: usize,
        result: &mut ValidationResult,
    ) -> (r: crate::error::Result<()>)
        ensures
            r is Ok,
            ({
                let path = rule_path(file_name@, field_index as nat, rule_index as nat);
                let pe = match *rule {
                    ValidationRule::Pattern { pattern } => regex_error(pattern@),
                    _ => None,
                };
                let olde = old(result).error_list();
                let newe = final(result).error_list();
                let oldw = old(result).warning_list();
                let neww = final(result).warning_list();
                let reps = rule_warning_values(*rule);
                &&& newe.take(olde.len() as int) == olde
                &&& match rule_error(field_name@, *rule, pe) {
                    Some((code, msg)) => newe.len() == olde.len() + 1 && is_error(newe.last(), code, msg, path),
                    None => newe.len() == olde.len(),
                }
                &&& neww.len() == oldw.len() + reps.len()
                &&& neww.take(oldw.len() as int) == oldw
                &&& forall|k: int| 0 <= k < reps.len() ==> is_warning(
                    #[trigger] neww[oldw.len() + k],
                    "DUPLICATE_ENUM_VALUE"@,
                    duplicate_message(reps[k], field_name@),
                    path,
                )
            }),
    {
        check_rule(file_name, field_name, rule, field_index, rule_index, result);
        Ok(())
    }

    fn validate_cross_references(&self, _config: &Config, _result: &mut ValidationResult) -> (r: crate::error::Result<()>)
        ensures
            r is Ok,
            *final(_result) == *old(_result),
    {
        Ok(())
    }

    fn validate_security_rules(&self, _config: &Config, _result: &mut ValidationResult) -> (r: crate::error::Result<()>)
        ensures
            r is Ok,
            *final(_result) == *old(_result),
    {
        Ok(())
    }

    fn validate_performance_settings(&self, _config: &Config, _result: &mut ValidationResult) -> (r: crate::error::Result<()>)
        ensures
            r is Ok,
            *final(_result) == *old(_result),
    {
        Ok(())
    }

    /// Compares a configuration against a schema configuration; no
    /// difference is reported, so the result is always valid and empty.
    pub fn validate_against_schema(&self, _config: &Config, _schema: &Config) -> (r: crate::error::Result<ValidationResult>)
        ensures
            r matches Ok(v) && v.error_list().len() == 0 && v.warning_list().len() == 0,
    {
        Ok(ValidationResult::new())
    }

    /// Compares two file schemas; nothing is reported.
    pub fn compare_file_schemas(
        &self,
        _file_name: &str,
        _config_schema: &str,
        _expected_schema: &str,
        _result: &mut ValidationResult,
    ) -> (r: crate::error::Result<()>)
        ensures
            r is Ok,
            *final(_result) == *old(_result),
    {
        Ok(())
    }

    /// Validates a merged survey configuration; no check finds anything, so
    /// the result is always valid and empty.
    pub fn validate_survey_config(&self, _config: &SurveyConfig) -> (r: crate::error::Result<ValidationResult>)
        ensures
            r matches Ok(v) && v.error_list().len() == 0 && v.warning_list().len() == 0,
    {
        Ok(ValidationResult::new())
    }
}

impl Default for ConfigValidator {
    fn default() -> (v: Self)
        ensures
            !v.strict_mode,
    {
        Self::new()
    }
}

/// Whether a value of length `len` lies within the bounds `lo` and `hi`.
pub open spec fn length_within(lo: usize, hi: usize, len: nat) -> bool {
    lo <= len && len <= hi
}

/// A length rule is refused exactly when no length can meet it: with both
/// bounds given, it is refused (as "INVALID_LENGTH_RANGE") when no length
/// lies between them, and accepted when one does, equal bounds included;
/// with a bound missing it is always accepted.
pub proof fn lemma_length_rule_refused_when_unmeetable(
    field: Seq<char>,
    min: Option<usize>,
    max: Option<usize>,
    pattern_error: Option<Seq<char>>,
)
    ensures
        (min is None || max is None) ==> rule_error(field, ValidationRule::Length { min, max }, pattern_error) is None,
        (min is Some && max is Some) ==> (rule_error(
            field,
            ValidationRule::Length { min, max },
            pattern_error,
        ) is None <==> exists|len: nat| #[trigger] length_within(min->0, max->0, len)),
        rule_error(field, ValidationRule::Length { min, max }, pattern_error) matches Some((code, _))
            ==> code == "INVALID_LENGTH_RANGE"@,
{
    if let (Some(lo), Some(hi)) = (min, max) {
        if lo <= hi {
            assert(length_within(lo, hi, lo as nat));
        } else {
            assert forall|len: nat| !length_within(lo, hi, len) by {}
        }
    }
}

/// Whether a number ordered by `key` lies within the bounds ordered by
/// `lo` and `hi`.
pub open spec fn key_within(lo: i64, hi: i64, key: int) -> bool {
    lo <= key && key <= hi
}

/// A numeric range rule is refused exactly when no number can meet it:
/// with both bounds given, it is refused (as "INVALID_NUMERIC_RANGE") when
/// nothing lies between them, and accepted when something does, equal
/// bounds included; with a bound missing it is always accepted.
pub proof fn lemma_range_rule_refused_when_unmeetable(
    field: Seq<char>,
    min: Option<OrderedNumber>,
    max: Option<OrderedNumber>,
    pattern_error: Option<Seq<char>>,
)
    ensures
        (min is None || max is None) ==> rule_error(field, ValidationRule::Range { min, max }, pattern_error) is None,
        (min is Some && max is Some) ==> (rule_error(
            field,
            ValidationRule::Range { min, max },
            pattern_error,
        ) is None <==> exists|key: int| #[trigger] key_within(min->0.order_key, max->0.order_key, key)),
        rule_error(field, ValidationRule::Range { min, max }, pattern_error) matches Some((code, _))
            ==> code == "INVALID_NUMERIC_RANGE"@,
{
    if let (Some(lo), Some(hi)) = (min, max) {
        if lo.order_key <= hi.order_key {
            assert(key_within(lo.order_key, hi.order_key, lo.order_key as int));
        } else {
            assert forall|key: int| !key_within(lo.order_key, hi.order_key, key) by {}
        }
    }
}

} // verus!

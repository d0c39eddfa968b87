use rusty::error::context::{create_context_chain, new_correlation_id, ErrorContext};
use rusty::error::i18n::{
    adapt_tone, best_match, detect_from_system, substitute_parameters, validate_locale, Locale,
};
use rusty::error::recovery::{gives_up, CircuitBreaker, CircuitBreakerState};
use rusty::error::sanitization::{
    contains_sensitive_data, create_safe_message, validate_pattern, AuditLogger, ErrorSanitizer, RedactionPattern,
    SanitizationPolicy, SecurityLevel,
};
use rusty::error::telemetry::{classify_error_severity, group_by_component, ErrorEvent, ErrorSeverity};
use rusty::error::types::{ConfigError, DataError, Error, OutputError, SystemError};

#[test]
fn breaker_opens_after_threshold_failures() {
    let mut b = CircuitBreaker::new().failure_threshold(2);
    assert_eq!(b.state(), CircuitBreakerState::Closed);
    b.on_failure();
    assert_eq!(b.state(), CircuitBreakerState::Closed);
    b.on_failure();
    assert_eq!(b.state(), CircuitBreakerState::Open);
    assert!(!b.consider_request(false));
    assert!(b.consider_request(true));
    assert_eq!(b.state(), CircuitBreakerState::HalfOpen);
    b.on_success();
    b.on_success();
    assert_eq!(b.state(), CircuitBreakerState::HalfOpen);
    b.on_success();
    assert_eq!(b.state(), CircuitBreakerState::Closed);
}

#[test]
fn breaker_failure_in_half_open_reopens() {
    let mut b = CircuitBreaker::new().failure_threshold(1);
    b.on_failure();
    assert!(b.consider_request(true));
    b.on_failure();
    assert_eq!(b.state(), CircuitBreakerState::Open);
}

#[test]
fn error_texts() {
    let e = Error::Config(ConfigError::LoadError { path: "a.yml".to_string(), source: "missing".to_string() });
    assert_eq!(e.to_string(), "Configuration error: Failed to load config from 'a.yml': missing");
    let d = DataError::IoError { path: "x".to_string(), source: "denied".to_string() };
    assert!(d.to_string().contains("denied"));
}

#[test]
fn context_text_and_chain() {
    let c = ErrorContext::new_simple("reading".to_string()).with_component("reader".to_string());
    assert_eq!(c.to_string(), "reading [reader]");
    let d = ErrorContext::new_simple("parsing".to_string());
    let chain = create_context_chain(vec![c, d]);
    assert!(chain.contains("reading [reader]"));
    assert!(chain.contains("parsing"));
}

#[test]
fn sanitizer_redacts_passwords_at_medium() {
    let mut s = ErrorSanitizer::new();
    let out = s.sanitize_message("login failed password=hunter2 for bob", "db");
    assert_eq!(out, "login failed password=[REDACTED] for bob");
    assert_eq!(s.get_stats().total_operations, 1);
    assert_eq!(s.get_stats().sanitized_messages, 1);
    assert_eq!(s.get_stats().patterns_matched.get("password"), Some(&1));
}

#[test]
fn sanitizer_leaves_clean_messages_alone() {
    let mut s = ErrorSanitizer::new();
    let out = s.sanitize_message("nothing to see", "db");
    assert_eq!(out, "nothing to see");
    assert_eq!(s.get_stats().total_operations, 1);
    assert_eq!(s.get_stats().sanitized_messages, 0);
}

#[test]
fn sanitizer_levels_by_context() {
    let mut policy = SanitizationPolicy::default();
    policy.context_policies.insert("public".to_string(), SecurityLevel::Maximum);
    policy.context_policies.insert("debug".to_string(), SecurityLevel::Off);
    let mut s = ErrorSanitizer::new().with_policy(policy);
    assert_eq!(s.sanitize_message("host 10.0.0.1 down", "public"), "host [IP_REDACTED] down");
    assert_eq!(s.sanitize_message("host 10.0.0.1 down", "internal"), "host 10.0.0.1 down");
    assert_eq!(s.sanitize_message("password=x", "debug"), "password=x");
    assert_eq!(s.get_stats().total_operations, 3);
}

#[test]
fn sanitizer_custom_pattern_and_audit() {
    let mut policy = SanitizationPolicy::default();
    policy.custom_patterns.push(RedactionPattern {
        name: "ssn".to_string(),
        pattern: r"\d{3}-\d{2}-\d{4}".to_string(),
        replacement: "[SSN]".to_string(),
        min_security_level: SecurityLevel::Low,
        enabled: true,
    });
    policy.custom_patterns.push(RedactionPattern {
        name: "broken".to_string(),
        pattern: "(".to_string(),
        replacement: "x".to_string(),
        min_security_level: SecurityLevel::Low,
        enabled: true,
    });
    let mut s = ErrorSanitizer::new().with_policy(policy).with_audit_logging(true);
    assert_eq!(s.sanitize_message("id 123-45-6789", "hr"), "id [SSN]");
    assert_eq!(s.get_stats().audit_events, 1);
}

#[test]
fn sanitizer_errors_and_contexts() {
    let mut s = ErrorSanitizer::new();
    let e = Error::Data(DataError::ReadError { path: "/x".to_string(), source: "token=abc".to_string() });
    match s.sanitize_error(&e, "data") {
        Error::Data(DataError::ReadError { path, source }) => {
            assert_eq!(path, "/x");
            assert_eq!(source, "token=[REDACTED]");
        }
        other => panic!("unexpected {:?}", other),
    }
    let o = Error::Output(OutputError::WriteError { path: "p".to_string(), source: "password=1".to_string() });
    match s.sanitize_error(&o, "data") {
        Error::Output(OutputError::WriteError { source, .. }) => assert_eq!(source, "password=1"),
        other => panic!("unexpected {:?}", other),
    }
    let c = ErrorContext::new_simple("password=abc".to_string())
        .with_metadata("k".to_string(), "user mail a@b.org".to_string());
    let sc = s.sanitize_context(&c, "data");
    assert_eq!(sc.message, "password=[REDACTED]");
    assert_eq!(sc.metadata.get("k"), Some(&"user mail [EMAIL_REDACTED]".to_string()));
    assert_eq!(s.get_stats().total_operations, 4);
}

#[test]
fn sanitizer_utilities() {
    assert!(contains_sensitive_data("Bad PASSWORD"));
    assert!(contains_sensitive_data("the Admin panel"));
    assert!(!contains_sensitive_data("all good"));
    assert_eq!(create_safe_message("IoError", "reader"), "An error occurred in reader component: IoError");
    assert!(validate_pattern("a+b").is_ok());
    assert!(validate_pattern("(").unwrap_err().starts_with("Invalid regex pattern: "));
    let logger = AuditLogger::new();
    assert!(logger.get_entries().is_empty());
    let mut logger = logger;
    logger.log_sanitization_event("password", "db", "secret");
    assert_eq!(logger.get_entries().len(), 1);
    assert_eq!(logger.get_entries()[0].pattern_matched, Some("password".to_string()));
}

#[test]
fn locale_parsing_and_printing() {
    let l = Locale::from_string("EN-latn-us-posix").unwrap();
    assert_eq!(l.language, "en");
    assert_eq!(l.script, Some("latn".to_string()));
    assert_eq!(l.region, Some("US".to_string()));
    assert_eq!(l.variant, Some("posix".to_string()));
    assert_eq!(l.to_string(), "en-latn-US-posix");
    assert_eq!(Locale::with_region("FR", "ca").to_string(), "fr-CA");
    assert_eq!(Locale::new("De").to_string(), "de");
    assert!(validate_locale(""));
}

#[test]
fn locale_fallbacks_and_matching() {
    let l = Locale::from_string("fr-CA").unwrap();
    let chain: Vec<String> = l.fallback_chain().iter().map(|x| x.to_string()).collect();
    assert_eq!(chain, vec!["fr-CA", "fr", "en"]);
    let en: Vec<String> = Locale::new("en").fallback_chain().iter().map(|x| x.to_string()).collect();
    assert_eq!(en, vec!["en"]);
    let available = vec![Locale::new("fr"), Locale::new("de")];
    assert_eq!(best_match(&l, &available).unwrap().to_string(), "fr");
    assert!(best_match(&Locale::new("ja"), &available).is_none());
    assert!(detect_from_system().is_none());
    assert_eq!(adapt_tone("Hello", &l), "Hello");
}

#[test]
fn parameters_are_substituted_in_order() {
    let r = substitute_parameters("File {file} has {n} errors in {file}", &[("file", "a.txt"), ("n", "3")]);
    assert_eq!(r, "File a.txt has 3 errors in a.txt");
    assert_eq!(substitute_parameters("{a}", &[("a", "{b}"), ("b", "x")]), "x");
}

#[test]
fn severity_by_component_and_grouping() {
    let sys = Error::System(SystemError::IoError { operation: "read".to_string(), source: "eio".to_string() });
    assert_eq!(classify_error_severity(&sys), ErrorSeverity::Critical);
    let cfg = Error::Config(ConfigError::MissingError { key: "k".to_string(), section: None });
    assert_eq!(classify_error_severity(&cfg), ErrorSeverity::High);
    let events = vec![
        ErrorEvent {
            id: uuid::Uuid::nil(),
            error: sys,
            context: None,
            component: "reader".to_string(),
            operation: "read".to_string(),
            severity: ErrorSeverity::Critical,
            timestamp: 0,
            resolution_time: None,
            recovered: false,
        },
        ErrorEvent {
            id: uuid::Uuid::nil(),
            error: cfg,
            context: None,
            component: "config".to_string(),
            operation: "load".to_string(),
            severity: ErrorSeverity::High,
            timestamp: 1,
            resolution_time: None,
            recovered: true,
        },
    ];
    let groups = group_by_component(&events);
    assert_eq!(groups.len(), 2);
    assert_eq!(groups.get("reader").unwrap().len(), 1);
    assert_eq!(groups.get("config").unwrap()[0].operation, "load");
}

#[test]
fn locale_tags_read_back_as_the_same_locale() {
    for tag in ["en", "en-US", "zh-Hans-CN", "sr-Latn-RS-variant1", "de-DE-1901x"] {
        let locale = Locale::from_string(tag).unwrap();
        let again = Locale::from_string(&locale.to_string()).unwrap();
        assert_eq!(locale, again, "{}", tag);
    }
    assert_eq!(Locale::from_string("zh-Hans-CN").unwrap().to_string(), "zh-Hans-CN");
}

#[test]
fn breaker_with_zero_recovery_timeout_lets_requests_through_at_once() {
    let mut b = CircuitBreaker::new().failure_threshold(1).recovery_timeout(std::time::Duration::from_secs(0));
    b.on_failure();
    assert_eq!(b.state(), CircuitBreakerState::Open);
    assert!(b.should_allow_request());
    assert_eq!(b.state(), CircuitBreakerState::HalfOpen);
}

#[test]
fn breaker_with_default_recovery_timeout_stays_open() {
    let mut b = CircuitBreaker::new().failure_threshold(1);
    b.on_failure();
    assert!(!b.should_allow_request());
    assert_eq!(b.state(), CircuitBreakerState::Open);
}

#[test]
fn breaker_with_zero_recovery_timeout_runs_the_next_operation() {
    let mut b = CircuitBreaker::new().failure_threshold(1).recovery_timeout(std::time::Duration::ZERO);
    let first: Result<i32, Error> =
        b.execute(|| Err(Error::System(SystemError::ResourceError { resource: "db".to_string(), message: "down".to_string() })));
    assert!(first.is_err());
    assert_eq!(b.state(), CircuitBreakerState::Open);
    let second: Result<i32, Error> = b.execute(|| Ok(1));
    assert!(matches!(second, Ok(1)));
    assert_eq!(b.state(), CircuitBreakerState::HalfOpen);
}

#[test]
fn correlation_ids_are_fresh_version_four_ids() {
    let a = new_correlation_id();
    let b = new_correlation_id();
    assert_eq!(a.get_version_num(), 4);
    assert_eq!(a.get_variant(), uuid::Variant::RFC4122);
    assert_ne!(a, b);
}

#[test]
fn plain_locales_survive_printing_and_reading() {
    let l = Locale {
        language: "sr".to_string(),
        region: Some("RS".to_string()),
        script: Some("Latn".to_string()),
        variant: Some("ekavsk".to_string()),
    };
    let again = Locale::from_string(&l.to_string()).unwrap();
    assert_eq!(again, l);
    let bare = Locale { language: "de".to_string(), region: None, script: None, variant: None };
    assert_eq!(Locale::from_string(&bare.to_string()).unwrap(), bare);
}

#[test]
fn retries_stop_at_the_last_attempt_or_on_a_permanent_error() {
    assert!(!gives_up(true, 0, 3));
    assert!(!gives_up(true, 1, 3));
    assert!(gives_up(true, 2, 3));
    assert!(gives_up(false, 0, 3));
    assert!(gives_up(true, 0, 0));
}

use rusty::config::loader::{first_existing, no_source_error, ConfigFormat, ConfigLoader};
use rusty::config::model::{default_max_threads, Config, ProcessingStrategy};
use rusty::config::validator::{ConfigValidator, ValidationError, ValidationResult, ValidationWarning};

#[test]
fn test_config_loader_new() {
    let loader = ConfigLoader::new();
    assert!(loader.config_dir.contains("config"));
}

#[test]
fn test_detect_format() {
    let loader = ConfigLoader::new();

    assert_eq!(loader.detect_format("test.yml").unwrap(), ConfigFormat::Yaml);
    assert_eq!(loader.detect_format("test.yaml").unwrap(), ConfigFormat::Yaml);
    assert_eq!(loader.detect_format("test.json").unwrap(), ConfigFormat::Json);

    assert!(loader.detect_format("test.txt").is_err());
    assert!(loader.detect_format("test").is_err());
}

#[test]
fn mod_test_module_exports() {
    let _loader = ConfigLoader::new();
    let _validator = ConfigValidator::new();
}

#[test]
fn test_validation_result() {
    let mut result = ValidationResult::new();
    assert!(result.is_valid());
    assert_eq!(result.errors().len(), 0);
    assert_eq!(result.warnings().len(), 0);

    result.add_error(ValidationError::new("TEST_ERROR", "Test error message"));
    assert!(!result.is_valid());
    assert_eq!(result.errors().len(), 1);

    result.add_warning(ValidationWarning::new("TEST_WARNING", "Test warning message"));
    assert_eq!(result.warnings().len(), 1);
}

#[test]
fn test_validation_error_display() {
    let error = ValidationError::new("TEST_CODE", "Test message");
    let display = error.to_string();
    assert!(display.contains("TEST_CODE"));
    assert!(display.contains("Test message"));

    let error_with_field = ValidationError::with_field("TEST_CODE", "Test message", "test.field");
    let display_with_field = error_with_field.to_string();
    assert!(display_with_field.contains("test.field"));
}

#[test]
fn test_config_validator_new() {
    let validator = ConfigValidator::new();
    assert!(!validator.strict_mode);

    let strict_validator = ConfigValidator::with_strict_mode(true);
    assert!(strict_validator.strict_mode);
}

#[test]
fn test_validate_basic_config() {
    let validator = ConfigValidator::new();
    let config = Config::new("AP");

    let result = validator.validate(&config).unwrap();
    assert!(result.is_valid());
}

#[test]
fn test_validate_invalid_survey_code() {
    let validator = ConfigValidator::new();
    let config = Config::new("INVALID");

    let result = validator.validate(&config).unwrap();
    assert!(result.is_valid());
}

#[test]
fn test_validate_file_schema() {
    let validator = ConfigValidator::new();
    let config = Config::new("AP");

    let result = validator.validate(&config).unwrap();
    assert!(result.is_valid());
}

#[test]
fn test_validate_performance_settings() {
    let validator = ConfigValidator::new();
    let config = Config::new("AP");

    let result = validator.validate(&config).unwrap();
    assert!(result.is_valid());
}

#[test]
fn test_validate_cross_references() {
    let validator = ConfigValidator::new();
    let config = Config::new("AP");

    let result = validator.validate(&config).unwrap();
    assert!(result.is_valid());
}

#[test]
fn test_validate_against_schema() {
    let validator = ConfigValidator::new();
    let schema = Config::new("AP");
    let config = Config::new("BD");

    let result = validator.validate_against_schema(&config, &schema).unwrap();
    assert!(result.is_valid());
}

#[test]
fn test_load_from_environment() {
    let loader = ConfigLoader::new();

    // The environment: RUSTY_PROCESSING_STRATEGY, RUSTY_MAX_THREADS and
    // RUSTY_OUTPUT_DIR are set, RUSTY_CHUNK_SIZE is not.
    let config = loader
        .load_from_environment("TEST", Some("chunked"), Some("16"), None, Some("custom/output"))
        .unwrap();
    assert_eq!(config.survey.code, "TEST");
    assert_eq!(config.processing.strategy, ProcessingStrategy::Chunked);
    assert_eq!(config.processing.max_threads, 16);
    assert_eq!(config.output.output_dir, "custom/output");
}

#[test]
fn environment_without_settings_is_the_fresh_configuration() {
    let loader = ConfigLoader::new();
    let config = loader.load_from_environment("ap", None, None, None, None).unwrap();
    assert_eq!(config.survey.code, "AP");
    assert_eq!(config.processing.strategy, ProcessingStrategy::InMemory);
    assert_eq!(config.processing.max_threads, 4);
    assert_eq!(config.processing.chunk_size, 1000);
    assert_eq!(config.output.output_dir, "data/processed");
}

#[test]
fn environment_errors_name_the_bad_setting() {
    let loader = ConfigLoader::new();
    let err = loader.load_from_environment("AP", Some("fast"), Some("x"), None, None).unwrap_err();
    assert!(format!("{:?}", err).contains("Invalid processing strategy: fast"));
    assert!(format!("{:?}", err).contains("strategy"));

    let err = loader.load_from_environment("AP", None, Some("4294967296"), None, None).unwrap_err();
    let why = "4294967296".parse::<u32>().unwrap_err().to_string();
    assert!(format!("{:?}", err).contains(&format!("Invalid max_threads: {}", why)));

    for bad in ["", "+", "-", "12a", "-3", "99999999999999999999x"] {
        let err = loader.load_from_environment("AP", None, Some(bad), None, None).unwrap_err();
        let why = bad.parse::<u32>().unwrap_err().to_string();
        assert!(format!("{:?}", err).contains(&format!("Invalid max_threads: {}", why)), "{}", bad);
    }

    let err = loader.load_from_environment("AP", None, None, Some("ten"), None).unwrap_err();
    let why = "ten".parse::<usize>().unwrap_err().to_string();
    assert!(format!("{:?}", err).contains(&format!("Invalid chunk_size: {}", why)));
    assert!(format!("{:?}", err).contains("ConfigMergeError"));

    let config = loader.load_from_environment("AP", Some("mmap"), Some("+8"), Some("250"), None).unwrap();
    assert_eq!(config.processing.strategy, ProcessingStrategy::Mmap);
    assert_eq!(config.processing.max_threads, 8);
    assert_eq!(config.processing.chunk_size, 250);
}

#[test]
fn test_load_for_survey_default() {
    let loader = ConfigLoader::with_config_dir("/nonexistent/config-dir");

    // Load for non-existent survey (should create default): none of its
    // candidate files exists, so the fresh configuration is used.
    let candidates = loader.survey_file_candidates("XX").unwrap();
    assert!(candidates.iter().all(|c| !std::path::Path::new(c).exists()));
    let config = loader.default_for_survey("XX");
    assert_eq!(config.survey.code, "XX");
    assert_eq!(config.survey.name, "XX Survey");
}

#[test]
fn test_list_survey_configs() {
    // The surveys directory holds ap.yml and bd.json.
    let yml = vec!["ap.yml".to_string()];
    let json = vec!["bd.json".to_string()];
    let survey_codes = ConfigLoader::survey_codes(&yml, &json);

    assert_eq!(survey_codes.len(), 2);
    assert!(survey_codes.contains(&"AP".to_string()));
    assert!(survey_codes.contains(&"BD".to_string()));
}

#[test]
fn default_thread_count_is_at_least_one() {
    assert!(default_max_threads() >= 1);
}

#[test]
fn survey_codes_list_a_code_in_both_formats_once() {
    let yml = vec!["surveys/ap.yml".to_string(), "surveys/cu.yml".to_string()];
    let json = vec!["surveys/ap.json".to_string(), "surveys/bd.json".to_string()];
    let codes = ConfigLoader::survey_codes(&yml, &json);
    assert_eq!(codes, vec!["AP".to_string(), "BD".to_string(), "CU".to_string()]);
}

#[test]
fn detect_format_ignores_trailing_current_dir_components() {
    let loader = ConfigLoader::new();
    assert_eq!(loader.detect_format("a.yml/.").unwrap(), ConfigFormat::Yaml);
    assert_eq!(loader.detect_format("conf/a.json/./").unwrap(), ConfigFormat::Json);
    assert!(loader.detect_format(".").is_err());
}

#[test]
fn first_existing_candidate_and_missing_source_error() {
    assert_eq!(first_existing(&vec![false, true, true]), Some(1));
    assert_eq!(first_existing(&vec![false, false]), None);
    assert_eq!(first_existing(&vec![]), None);
    match no_source_error() {
        rusty::error::types::Error::Config(rusty::error::types::ConfigError::LoadError { path, source }) => {
            assert_eq!(path, "multiple sources");
            assert_eq!(source, "No valid configuration source found");
        }
        _ => panic!("wrong error"),
    }
}

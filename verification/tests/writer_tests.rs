use rusty::writer::factory::{DefaultWriterFactory, WriterFactoryConfigBuilder};
use rusty::writer::traits::WriterConfig;
use rusty::writer::{format_supports_compression, get_optimal_batch_size, get_supported_formats, is_compression_recommended};

#[test]
fn writer_factory_test_factory_creation() {
    let factory = DefaultWriterFactory::new();
    let supported_formats = factory.get_supported_formats();
    assert!(supported_formats.contains(&"csv".to_string()));
    assert!(supported_formats.contains(&"parquet".to_string()));
    assert!(supported_formats.contains(&"json".to_string()));
}

#[test]
fn test_format_determination() {
    let factory = DefaultWriterFactory::new();

    assert_eq!(factory.determine_format("test.csv").unwrap(), "csv");
    assert_eq!(factory.determine_format("test.tsv").unwrap(), "tsv");
    assert_eq!(factory.determine_format("test.parquet").unwrap(), "parquet");
    assert_eq!(factory.determine_format("test.json").unwrap(), "json");
    assert_eq!(factory.determine_format("test.jsonl").unwrap(), "jsonl");
    assert_eq!(factory.determine_format("test.csv.gz").unwrap(), "csv");
}

#[test]
fn test_compression_recommendations() {
    let factory = DefaultWriterFactory::new();

    assert!(factory.is_compression_recommended("parquet"));
    assert!(factory.is_compression_recommended("json"));
    assert!(!factory.is_compression_recommended("csv"));
}

#[test]
fn test_optimal_batch_sizes() {
    let factory = DefaultWriterFactory::new();

    let default_batch = factory.config.default_batch_size;
    assert_eq!(factory.get_optimal_batch_size("parquet"), default_batch * 10);
    assert_eq!(factory.get_optimal_batch_size("csv"), default_batch);
    assert_eq!(factory.get_optimal_batch_size("json"), default_batch / 2);
}

#[test]
fn writer_factory_test_config_builder() {
    let config = WriterFactoryConfigBuilder::new()
        .default_buffer_size(128 * 1024)
        .default_batch_size(2000)
        .enable_validation(false)
        .enable_compression(true)
        .default_compression_level(9)
        .max_errors(500)
        .include_headers(false)
        .float_precision(4)
        .build();

    assert_eq!(config.default_buffer_size, 128 * 1024);
    assert_eq!(config.default_batch_size, 2000);
    assert!(!config.enable_validation);
    assert!(config.enable_compression);
    assert_eq!(config.default_compression_level, 9);
    assert_eq!(config.max_errors, 500);
    assert!(!config.include_headers);
    assert_eq!(config.float_precision, 4);
}

#[test]
fn test_format_support() {
    let factory = DefaultWriterFactory::new();

    assert!(factory.supports_compression("parquet"));
    assert!(factory.supports_compression("json"));
    assert!(factory.supports_compression("csv"));
    assert!(!factory.supports_compression("unsupported"));

    assert!(!factory.supports_transactions("csv"));
    assert!(!factory.supports_transactions("parquet"));
}

#[test]
fn mod_test_convenience_functions() {
    let formats = get_supported_formats();
    assert!(formats.contains(&"csv".to_string()));
    assert!(formats.contains(&"parquet".to_string()));
    assert!(formats.contains(&"json".to_string()));

    assert!(format_supports_compression("parquet"));
    assert!(is_compression_recommended("json"));
    assert!(get_optimal_batch_size("parquet") > get_optimal_batch_size("csv"));
}

#[test]
fn test_writer_config_default() {
    let config = WriterConfig::default();
    assert_eq!(config.buffer_size, 64 * 1024);
    assert_eq!(config.batch_size, 1000);
    assert!(config.validate_on_write);
    assert_eq!(config.encoding, "UTF-8");
    assert_eq!(config.field_separator, '\t');
    assert!(config.include_headers);
    assert!(!config.compress_output);
    assert_eq!(config.compression_level, 6);
    assert!(!config.overwrite_existing);
    assert_eq!(config.max_file_size, 0);
    assert_eq!(config.float_precision, 6);
}

#[test]
fn factory_writer_configs_follow_the_factory_settings() {
    let mut custom = WriterConfig::default();
    custom.batch_size = 7;
    let config = WriterFactoryConfigBuilder::new()
        .default_batch_size(200)
        .include_headers(true)
        .enable_compression(false)
        .format_config("json".to_string(), custom)
        .build();
    let factory = DefaultWriterFactory::with_config(config);

    let parquet = factory.get_writer_config("parquet");
    assert_eq!(parquet.batch_size, 2000);
    assert!(!parquet.include_headers);
    assert!(parquet.compress_output);

    let tsv = factory.get_writer_config("tsv");
    assert_eq!(tsv.field_separator, '\t');
    assert_eq!(tsv.batch_size, 200);
    assert!(tsv.include_headers);

    assert!(!factory.get_writer_config("jsonl").include_headers);
    assert_eq!(factory.get_writer_config("json").batch_size, 7);

    let other = factory.get_writer_config("xml");
    assert_eq!(other.field_separator, ',');
    assert_eq!(other.batch_size, 200);
    assert_eq!(other.encoding, "UTF-8");
    assert!(!other.overwrite_existing);
    assert_eq!(other.max_file_size, 0);
}

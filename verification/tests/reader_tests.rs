use rusty::reader::factory::{DefaultReaderFactory, ReaderFactoryConfigBuilder};
use rusty::reader::traits::{ReadStats, ReaderConfig};

#[test]
fn factory_test_factory_creation() {
    let factory = DefaultReaderFactory::new();
    let supported_types = factory.get_supported_file_types();
    assert!(supported_types.contains(&"series".to_string()));
    assert!(supported_types.contains(&"data".to_string()));
    assert!(supported_types.contains(&"lookup".to_string()));
}

#[test]
fn test_file_type_determination() {
    let factory = DefaultReaderFactory::new();

    assert_eq!(factory.determine_file_type("test.series").unwrap(), "series");
    assert_eq!(factory.determine_file_type("test.data.0").unwrap(), "data");
    assert_eq!(factory.determine_file_type("test.area").unwrap(), "lookup");
}

#[test]
fn factory_test_config_builder() {
    let config = ReaderFactoryConfigBuilder::new()
        .mmap_threshold(50 * 1024 * 1024)
        .default_buffer_size(128 * 1024)
        .default_batch_size(2000)
        .enable_validation(false)
        .max_errors(500)
        .prefer_mmap(false)
        .build();

    assert_eq!(config.mmap_threshold, 50 * 1024 * 1024);
    assert_eq!(config.default_buffer_size, 128 * 1024);
    assert_eq!(config.default_batch_size, 2000);
    assert!(!config.enable_validation);
    assert_eq!(config.max_errors, 500);
    assert!(!config.prefer_mmap);
}

#[test]
fn test_reader_creation() {
    let factory = DefaultReaderFactory::new();
    let config = ReaderConfig::default();

    let reader = factory.create_reader("series", config.clone());
    assert!(reader.is_ok());

    let mmap_reader = factory.create_memory_mapped_reader(config);
    assert!(mmap_reader.is_ok());
}

#[test]
fn test_reader_config_default() {
    let config = ReaderConfig::default();
    assert_eq!(config.buffer_size, 64 * 1024);
    assert_eq!(config.batch_size, 1000);
    assert!(config.validate_on_read);
    assert!(!config.use_memory_mapping);
    assert_eq!(config.encoding, "UTF-8");
    assert_eq!(config.field_separator, '\t');
    assert!(!config.skip_malformed);
    assert_eq!(config.max_errors, 100);
}

#[test]
fn test_read_stats_default() {
    let stats = ReadStats::default();
    assert_eq!(stats.records_read, 0);
    assert_eq!(stats.bytes_processed, 0);
    assert_eq!(stats.errors_encountered, 0);
    assert_eq!(stats.records_skipped, 0);
    assert_eq!(stats.read_time_ms, 0);
}

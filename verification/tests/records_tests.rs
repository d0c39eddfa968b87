use rusty::reader::factory::{DefaultReaderFactory, ReaderFactoryConfigBuilder};
use rusty::reader::mapped::{count_lines, find_line_positions, line_at, MmapReader};
use rusty::error::types::{DataError, Error};
use rusty::reader::records::{
    batch_full, in_period_range, takes_observation, ObservationFilter, observation_fields, ObservationLine,
    parse_lookup_record_static, parse_series_record_static, split_record, FileReader, LookupScan, RecordCount,
    SeriesScan,
};
use rusty::reader::traits::ReaderConfig;

#[test]
fn test_file_reader_creation() {
    let config = ReaderConfig::default();
    let reader = FileReader::new(config);
    assert!(!reader.is_open());
    assert!(reader.current_file().is_none());
}

#[test]
fn test_can_read_valid_file() {
    let config = ReaderConfig::default();
    let reader = FileReader::new(config);
    // A temporary file's name carries no BLS extension.
    assert!(!reader.can_read("/tmp/.tmpA1b2C3", true, true).unwrap());
}

#[test]
fn test_parse_line() {
    let config = ReaderConfig::default();
    let reader = FileReader::new(config);

    let line = "field1\tfield2\tfield3";
    let fields = reader.parse_line(line);

    assert_eq!(fields.len(), 3);
    assert_eq!(fields[0], "field1");
    assert_eq!(fields[1], "field2");
    assert_eq!(fields[2], "field3");
}

#[test]
fn test_parse_series_record() {
    let config = ReaderConfig::default();
    let reader = FileReader::new(config);

    let fields = vec!["SERIES001".to_string(), "Test Series".to_string()];

    let series = reader.parse_series_record(&fields).unwrap();
    assert_eq!(series.id(), "SERIES001");
}

#[test]
fn test_mmap_threshold() {
    let config = ReaderFactoryConfigBuilder::new().mmap_threshold(1024).build();

    let factory = DefaultReaderFactory::with_config(config);

    let reader_config = factory.get_reader_config("series");
    // "small data": 10 bytes.
    assert!(!factory.should_use_mmap(Some(10), &reader_config).unwrap());
    // 2 KiB of data.
    assert!(factory.should_use_mmap(Some(2048), &reader_config).unwrap());
}

#[test]
fn test_mmap_reader_creation() {
    let config = ReaderConfig::default();
    let reader = MmapReader::new(config);
    assert!(!reader.is_open());
    assert!(reader.current_file().is_none());
}

#[test]
fn test_can_read_large_file() {
    let data = "test data\n".repeat(1_000_000);
    let config = ReaderConfig::default();
    let reader = MmapReader::new(config);
    assert!(reader.can_read("/tmp/large.series", true, true, Some(data.len() as u64)).unwrap());
}

#[test]
fn test_memory_map_access() {
    let data = "test data\n".repeat(1_000_000);
    let config = ReaderConfig::default();
    let mut reader = MmapReader::new(config);
    reader.opened("/tmp/large.series");
    let mmap_data = data.as_bytes();
    assert!(!mmap_data.is_empty());
    let slice = reader.slice(mmap_data, 0, 9).unwrap();
    assert_eq!(slice, b"test data");
}

#[test]
fn test_find_pattern() {
    let data = "SERIES001\tTest Series\tAREA001\nSERIES002\tAnother Series\tAREA002\n";
    let config = ReaderConfig::default();
    let mut reader = MmapReader::new(config);
    reader.opened("/tmp/small.series");
    let positions = reader.find_pattern(data.as_bytes(), b"SERIES");
    assert_eq!(positions.len(), 2);
    assert_eq!(positions[0], 0);
    assert!(positions[1] > 0);
}

#[test]
fn mmap_small_file_is_not_mapped() {
    let reader = MmapReader::new(ReaderConfig::default());
    assert!(!reader.can_read("/tmp/small.series", true, true, Some(9_999_999)).unwrap());
    assert!(reader.can_read("/tmp/big.series", true, true, Some(10_000_000)).unwrap());
    assert!(!reader.can_read("/tmp/big.csv", true, true, Some(20_000_000)).unwrap());
    assert!(!reader.can_read("/tmp/big.series", false, true, Some(20_000_000)).unwrap());
}

#[test]
fn mmap_slice_past_end_is_an_error() {
    let reader = MmapReader::new(ReaderConfig::default());
    let data = b"abc";
    let err = reader.slice(data, 2, 5).unwrap_err();
    assert_eq!(format!("{:?}", err).contains("Slice range 2..7 exceeds file size 3"), true);
}

#[test]
fn mmap_lines_and_positions() {
    let data = b"ab\r\n\ncd\nef";
    let (l1, n1) = line_at(data, 0).unwrap();
    assert_eq!(l1, "ab");
    assert_eq!(n1, 5);
    let (l2, n2) = line_at(data, n1).unwrap();
    assert_eq!(l2, "cd");
    assert_eq!(n2, 8);
    let (l3, n3) = line_at(data, n2).unwrap();
    assert_eq!(l3, "ef");
    assert_eq!(n3, 10);
    assert!(line_at(data, n3).is_none());
    assert_eq!(count_lines(data), 3);
    assert_eq!(find_line_positions(data), vec![0, 4, 5, 8]);
    assert_eq!(find_line_positions(b"a\n"), vec![0]);
}

#[test]
fn mmap_next_line_moves_through_data() {
    let mut reader = MmapReader::new(ReaderConfig::default());
    reader.opened("/tmp/x.series");
    let data = b"one\ntwo\n";
    assert_eq!(reader.next_line(data), Some("one".to_string()));
    assert_eq!(reader.next_line(data), Some("two".to_string()));
    assert_eq!(reader.next_line(data), None);
}

#[test]
fn file_reader_can_read_by_extension_or_name() {
    let reader = FileReader::new(ReaderConfig::default());
    assert!(reader.can_read("/data/ap.series", true, true).unwrap());
    assert!(reader.can_read("/data/ap.txt", true, true).unwrap());
    assert!(!reader.can_read("/data/ap.csv", true, true).unwrap());
    assert!(!reader.can_read("/data/ap.series", false, true).unwrap());
    assert!(!reader.can_read("/data/ap.series", true, false).unwrap());
}

#[test]
fn series_record_fields() {
    let fields = split_record("  APU0001\tGasoline\t0000\tA001\n", '\t');
    assert_eq!(fields, vec!["APU0001", "Gasoline", "0000", "A001"]);
    let s = parse_series_record_static(&fields).unwrap();
    assert_eq!(s.series_id, "APU0001");
    assert_eq!(s.title, "Gasoline");
    assert_eq!(s.area_code, "0000");
    assert_eq!(s.item_code, "A001");
    assert_eq!(s.survey_code, "AP");
    assert!(parse_series_record_static(&fields[..3]).is_err());
    let l = parse_lookup_record_static(&fields[..2]).unwrap();
    assert_eq!(l.table_id, "APU0001");
    assert_eq!(l.table_name, "Gasoline");
    assert!(parse_lookup_record_static(&fields[..1]).is_err());
}

#[test]
fn short_series_record_is_an_error() {
    let reader = FileReader::new(ReaderConfig::default());
    let fields = vec!["SERIES001".to_string()];
    let err = reader.parse_series_record(&fields).unwrap_err();
    assert!(format!("{:?}", err).contains("Series record must have at least 2 fields"));
}

#[test]
fn series_scan_stops_on_malformed_line() {
    let reader = FileReader::new(ReaderConfig::default());
    let mut scan = SeriesScan::new();
    reader.scan_series_line(&mut scan, "APU1\tT\tA\tI\n").unwrap();
    assert_eq!(scan.series.len(), 1);
    assert_eq!(scan.bytes, 11);
    let err = reader.scan_series_line(&mut scan, "bad\tline\n").unwrap_err();
    assert!(format!("{:?}", err).contains("Invalid series record: bad\\tline\\n"));
    assert_eq!(scan.errors, 1);
}

#[test]
fn series_scan_skips_until_too_many_errors() {
    let mut config = ReaderConfig::default();
    config.skip_malformed = true;
    config.max_errors = 1;
    let reader = FileReader::new(config);
    let mut scan = SeriesScan::new();
    assert!(reader.scan_series_line(&mut scan, "bad").is_ok());
    let err = reader.scan_series_line(&mut scan, "bad").unwrap_err();
    assert!(format!("{:?}", err).contains("Exceeded maximum error count: 1"));
    assert_eq!(scan.errors, 2);
    assert!(scan.series.is_empty());
}

#[test]
fn series_search_and_count() {
    let reader = FileReader::new(ReaderConfig::default());
    let mut bytes = 0u64;
    assert!(reader.scan_series_by_id_line(&mut bytes, "A1\tT\tX\tY", "A2").is_none());
    let found = reader.scan_series_by_id_line(&mut bytes, "A2\tT\tX\tY", "A2").unwrap();
    assert_eq!(found.series_id, "A2");
    assert_eq!(bytes, 16);
    let mut count = RecordCount::new();
    reader.count_series_line(&mut count, "A1\tT\tX\tY\n");
    reader.count_series_line(&mut count, "A1\tT\n");
    assert_eq!(count.count, 1);
    assert_eq!(count.bytes, 14);
    let mut b = 0u64;
    assert!(reader.each_series_line(&mut b, "A1\tT").is_none());
    assert!(reader.each_series_line(&mut b, "A1\tT\tX\tY").is_some());
}

#[test]
fn lookup_scan_and_search() {
    let reader = FileReader::new(ReaderConfig::default());
    let mut scan = LookupScan::new();
    reader.scan_lookup_line(&mut scan, "0000\tU.S. city average\n");
    reader.scan_lookup_line(&mut scan, "lonely\n");
    assert_eq!(scan.lookups.len(), 1);
    assert_eq!(scan.lookups[0].table_id, "0000");
    assert_eq!(scan.lookups[0].table_name, "U.S. city average");
    assert_eq!(scan.errors, 0);
    let mut bytes = 0u64;
    assert!(reader.scan_lookup_by_code_line(&mut bytes, "0000\tU.S.", "0000").is_none());
    let mut count = RecordCount::new();
    reader.count_lookup_line(&mut count, "a\tb");
    reader.count_lookup_line(&mut count, "a");
    assert_eq!(count.count, 1);
    let mut b = 0u64;
    assert!(reader.each_lookup_line(&mut b, "a\tb").is_some());
}

#[test]
fn reader_stats_accumulate() {
    let mut reader = FileReader::new(ReaderConfig::default());
    reader.opened("/data/ap.series");
    assert!(reader.is_open());
    assert_eq!(reader.current_file(), Some("/data/ap.series"));
    reader.update_stats(3, 100, 1, 7);
    reader.update_stats(2, 50, 0, 3);
    assert_eq!(reader.stats().records_read, 5);
    assert_eq!(reader.stats().bytes_processed, 150);
    assert_eq!(reader.stats().errors_encountered, 1);
    assert_eq!(reader.stats().read_time_ms, 10);
    reader.closed();
    assert!(!reader.is_open());
    reader.reset_stats();
    assert_eq!(reader.stats().records_read, 0);
}

fn strings(v: &[&str]) -> Vec<String> {
    v.iter().map(|s| s.to_string()).collect()
}

#[test]
fn observation_fields_of_a_record() {
    let parts = observation_fields(&strings(&["CUUR0000SA0", "2023", "M01", "299.170"])).unwrap();
    assert_eq!(parts.series_id, "CUUR0000SA0");
    assert_eq!(parts.year, 2023);
    assert_eq!(parts.period, "M01");
    assert_eq!(parts.value_text.as_deref(), Some("299.170"));
    let missing = observation_fields(&strings(&["A", "-5", "M02", "-"])).unwrap();
    assert_eq!(missing.year, -5);
    assert!(missing.value_text.is_none());
    let empty = observation_fields(&strings(&["A", "+7", "M02", ""])).unwrap();
    assert_eq!(empty.year, 7);
    assert!(empty.value_text.is_none());
}

#[test]
fn observation_fields_reject_bad_years_and_short_records() {
    assert!(observation_fields(&strings(&["A", "2023", "M01"])).is_none());
    assert!(observation_fields(&strings(&["A", "20x3", "M01", "1"])).is_none());
    assert!(observation_fields(&strings(&["A", "", "M01", "1"])).is_none());
    assert!(observation_fields(&strings(&["A", "-", "M01", "1"])).is_none());
    assert!(observation_fields(&strings(&["A", "2147483648", "M01", "1"])).is_none());
    assert_eq!(observation_fields(&strings(&["A", "2147483647", "M01", "1"])).unwrap().year, i32::MAX);
    assert_eq!(observation_fields(&strings(&["A", "-2147483648", "M01", "1"])).unwrap().year, i32::MIN);
    assert!(observation_fields(&strings(&["A", "-2147483649", "M01", "1"])).is_none());
}

#[test]
fn observation_lines_are_classified() {
    let reader = FileReader::new(ReaderConfig::default());
    let mut bytes = 0u64;
    assert!(matches!(reader.observation_line(&mut bytes, "A\t2020\tM01\n"), ObservationLine::Short));
    assert!(matches!(reader.observation_line(&mut bytes, "A\tyear\tM01\t1.5\n"), ObservationLine::Malformed));
    match reader.observation_line(&mut bytes, "  A\t2020\tM01\t1.5  \n") {
        ObservationLine::Record(parts) => {
            assert_eq!(parts.series_id, "A");
            assert_eq!(parts.value_text.as_deref(), Some("1.5"));
        }
        other => panic!("unexpected {:?}", other),
    }
    assert_eq!(bytes, 45);
}

#[test]
fn malformed_observations_and_the_error_limit() {
    let mut reader = FileReader::new(ReaderConfig::default());
    reader.opened("obs.data");
    let mut errors = 0u64;
    let err = reader.malformed_observation(&mut errors, " A\tbad \n").unwrap_err();
    assert_eq!(errors, 1);
    match err {
        Error::Data(DataError::ValidationError { message, path, line }) => {
            assert_eq!(message, "Failed to parse observation record: A\tbad");
            assert_eq!(path.as_deref(), Some("obs.data"));
            assert!(line.is_none());
        }
        other => panic!("unexpected {:?}", other),
    }
    let mut config = ReaderConfig::default();
    config.skip_malformed = true;
    config.max_errors = 2;
    let lenient = FileReader::new(config);
    let mut errors = 0u64;
    assert!(lenient.malformed_observation(&mut errors, "x").is_ok());
    assert_eq!(errors, 1);
    assert!(lenient.observation_error_limit(2).is_ok());
    match lenient.observation_error_limit(3).unwrap_err() {
        Error::Data(DataError::ValidationError { message, path, .. }) => {
            assert_eq!(message, "Exceeded maximum error count: 2");
            assert_eq!(path.as_deref(), Some(""));
        }
        other => panic!("unexpected {:?}", other),
    }
}

#[test]
fn periods_in_range_compare_as_text() {
    assert!(in_period_range("M05", "M01", "M12"));
    assert!(in_period_range("M01", "M01", "M12"));
    assert!(in_period_range("M12", "M01", "M12"));
    assert!(!in_period_range("M13", "M01", "M12"));
    assert!(!in_period_range("A01", "M01", "M12"));
    assert!(in_period_range("M1", "M", "M2"));
}

#[test]
fn mmap_reader_stats_accumulate() {
    let mut reader = MmapReader::new(ReaderConfig::default());
    reader.update_stats(2, 40, 1, 5);
    reader.update_stats(1, 10, 0, 2);
    assert_eq!(reader.stats().records_read, 3);
    assert_eq!(reader.stats().bytes_processed, 50);
    assert_eq!(reader.stats().errors_encountered, 1);
    assert_eq!(reader.stats().read_time_ms, 7);
    reader.reset_stats();
    assert_eq!(reader.stats().records_read, 0);
}

#[test]
fn observation_filters_and_batch_limits() {
    assert!(takes_observation(&ObservationFilter::All, "CUUR0000SA0", "M01"));
    let series = ObservationFilter::Series("CUUR0000SA0".to_string());
    assert!(takes_observation(&series, "CUUR0000SA0", "M01"));
    assert!(!takes_observation(&series, "CUUR0000SA1", "M01"));
    let periods = ObservationFilter::Periods("M02".to_string(), "M05".to_string());
    assert!(takes_observation(&periods, "X", "M02"));
    assert!(takes_observation(&periods, "X", "M05"));
    assert!(!takes_observation(&periods, "X", "M01"));
    assert!(!takes_observation(&periods, "X", "M06"));
    assert!(!batch_full(3, None));
    assert!(!batch_full(2, Some(3)));
    assert!(batch_full(3, Some(3)));
}

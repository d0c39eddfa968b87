use rusty::writer::factory::DefaultWriterFactory;
use rusty::model::lookup::Lookup;
use rusty::model::series::Series;
use rusty::model::{Frequency, Unit};
use rusty::writer::formats::{
    can_write, csv_headers, headers_due, lookup_record, series_record, supported_extensions, JsonFraming, OutputFormat,
    RecordKind,
};
use rusty::writer::traits::WriterConfig;
use rusty::writer::{create_optimized_writer, create_writer_for_format};

#[test]
fn test_can_write_csv() {
    // "test.csv" lies in the current directory, which exists.
    assert!(can_write(OutputFormat::Csv, "test.csv", true).unwrap());
    assert!(can_write(OutputFormat::Csv, "test.txt", true).unwrap());
    assert!(!can_write(OutputFormat::Csv, "test.json", true).unwrap());
}

#[test]
fn csv_writer_test_supported_extensions() {
    let extensions = supported_extensions(OutputFormat::Csv);
    assert!(extensions.contains(&"csv".to_string()));
    assert!(extensions.contains(&"tsv".to_string()));
    assert!(extensions.contains(&"txt".to_string()));
}

#[test]
fn test_can_write_json() {
    assert!(can_write(OutputFormat::Json, "test.json", true).unwrap());
    assert!(can_write(OutputFormat::Json, "test.jsonl", true).unwrap());
    assert!(!can_write(OutputFormat::Json, "test.csv", true).unwrap());
}

#[test]
fn json_writer_test_supported_extensions() {
    let extensions = supported_extensions(OutputFormat::Json);
    assert!(extensions.contains(&"json".to_string()));
    assert!(extensions.contains(&"jsonl".to_string()));
}

#[test]
fn test_can_write_parquet() {
    assert!(can_write(OutputFormat::Parquet, "test.parquet", true).unwrap());
    assert!(!can_write(OutputFormat::Parquet, "test.csv", true).unwrap());
}

#[test]
fn parquet_writer_test_supported_extensions() {
    let extensions = supported_extensions(OutputFormat::Parquet);
    assert_eq!(extensions, vec!["parquet".to_string()]);
}

#[test]
fn test_array_vs_line_delimited() {
    let record = "{\"series_id\":\"TEST001\",\"title\":\"Test\",\"area_code\":\"AREA001\"}";

    let mut array = JsonFraming::new(true);
    let (text, _) = array.frame(record);
    let content1 = format!("{}{}", text, array.closing());
    assert!(content1.starts_with('['));
    assert!(content1.ends_with(']'));

    let mut lines = JsonFraming::new(false);
    let (text, _) = lines.frame(record);
    let content2 = format!("{}{}", text, lines.closing());
    assert!(!content2.starts_with('['));
    assert!(!content2.ends_with(']'));
}

#[test]
fn factory_test_writer_creation() {
    let factory = DefaultWriterFactory::new();
    let config = WriterConfig::default();

    assert!(factory.create_writer("csv", config.clone()).is_ok());
    assert!(factory.create_writer("parquet", config.clone()).is_ok());
    assert!(factory.create_writer("json", config.clone()).is_ok());
    assert!(factory.create_writer("unsupported", config).is_err());
}

#[test]
fn mod_test_writer_creation() {
    let config = WriterConfig::default();

    assert!(create_writer_for_format("csv", config.clone()).is_ok());
    assert!(create_writer_for_format("parquet", config.clone()).is_ok());
    assert!(create_writer_for_format("json", config.clone()).is_ok());
    assert!(create_writer_for_format("unsupported", config).is_err());
}

#[test]
fn test_optimized_writer_creation() {
    assert!(create_optimized_writer("test.csv").is_ok());
    assert!(create_optimized_writer("test.parquet").is_ok());
    assert!(create_optimized_writer("test.json").is_ok());
}

#[test]
fn gzip_outputs_by_stem() {
    assert!(can_write(OutputFormat::Csv, "out/data.csv.gz", true).unwrap());
    assert!(can_write(OutputFormat::Csv, "out/data.tsv.gz", true).unwrap());
    assert!(!can_write(OutputFormat::Csv, "out/data.json.gz", true).unwrap());
    assert!(can_write(OutputFormat::Json, "out/data.jsonl.gz", true).unwrap());
    assert!(!can_write(OutputFormat::Csv, "out/data.csv", false).unwrap());
    assert!(!can_write(OutputFormat::Csv, "out/data", true).unwrap());
}

#[test]
fn csv_header_rows() {
    assert_eq!(csv_headers(RecordKind::Lookup), vec!["code", "name", "description"]);
    assert_eq!(csv_headers(RecordKind::Observation), vec!["series_id", "year", "period", "value", "footnote_codes"]);
    let series = csv_headers(RecordKind::Series);
    assert_eq!(series.len(), 11);
    assert_eq!(series[0], "series_id");
    assert_eq!(series[10], "end_period");
    assert!(headers_due(true, false));
    assert!(!headers_due(true, true));
    assert!(!headers_due(false, false));
}

#[test]
fn json_framing_counts_bytes() {
    let mut array = JsonFraming::new(true);
    assert_eq!(array.closing(), "");
    assert_eq!(array.frame("{}"), ("[\n{}".to_string(), 4));
    assert_eq!(array.frame("{}"), (",\n{}".to_string(), 4));
    assert_eq!(array.closing(), "\n]");
    let mut lines = JsonFraming::new(false);
    assert_eq!(lines.frame("{}"), ("{}\n".to_string(), 3));
    assert_eq!(lines.closing(), "");
}

#[test]
fn series_and_lookup_records_follow_their_headers() {
    let mut series = Series::new("APU0000701111", "Flour, white, all purpose, per lb.");
    series.area_code = "0000".to_string();
    series.item_code = "701111".to_string();
    series.metadata.frequency = Frequency::Quarterly;
    series.metadata.unit = Some(Unit { code: "LB".to_string(), name: "per pound".to_string(), symbol: None });
    series.metadata.seasonal_adjustment = Some("Not Seasonally Adjusted".to_string());
    let record = series_record(&series);
    assert_eq!(record.len(), csv_headers(RecordKind::Series).len());
    assert_eq!(
        record,
        vec![
            "APU0000701111",
            "Flour, white, all purpose, per lb.",
            "0000",
            "701111",
            "quarterly",
            "per pound",
            "Not Seasonally Adjusted",
            "",
            "",
            "",
            "",
        ]
    );
    let lookup = Lookup::new("area", "Areas");
    let record = lookup_record(&lookup);
    assert_eq!(record, vec!["area", "Areas", ""]);
    assert_eq!(record.len(), csv_headers(RecordKind::Lookup).len());
}

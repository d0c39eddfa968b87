use rusty::model::series::{Series, SeriesMetadata};
use rusty::model::{Area, CommonMetadata, DataQuality, DataStatus, Frequency, Unit};

fn now_nanos() -> i64 {
    chrono::Utc::now().timestamp_nanos_opt().unwrap()
}

const DAY_NANOS: i64 = 86_400 * 1_000_000_000;

#[test]
fn test_common_metadata() {
    let mut metadata = CommonMetadata::new();
    assert_eq!(metadata.version, 1);
    assert!(metadata.source.is_none());
    assert!(metadata.attributes.is_empty());

    metadata.update();
    assert_eq!(metadata.version, 2);
    assert!(metadata.updated_at > metadata.created_at);

    metadata.add_attribute("test_key", "test_value");
    assert_eq!(metadata.attributes.get("test_key"), Some(&"test_value".to_string()));
}

#[test]
fn test_series_new() {
    let series = Series::new("APUS49074714", "Average Price Data - Gasoline");
    assert_eq!(series.series_id, "APUS49074714");
    assert_eq!(series.title, "Average Price Data - Gasoline");
    assert_eq!(series.survey_code, "AP");
    assert!(series.is_active());
}

#[test]
fn test_series_metadata_builder() {
    let unit = Unit::with_symbol("USD", "US Dollars", "$");
    let area = Area::new("US", "United States", "Country");

    let metadata = SeriesMetadata::builder()
        .frequency(Frequency::Monthly)
        .status(DataStatus::Active)
        .quality(DataQuality::High)
        .unit(unit)
        .area(area)
        .seasonal_adjustment("Seasonally Adjusted")
        .notes("Test series")
        .attribute("test_key", "test_value")
        .build();

    assert_eq!(metadata.frequency, Frequency::Monthly);
    assert_eq!(metadata.status, DataStatus::Active);
    assert_eq!(metadata.quality, DataQuality::High);
    assert!(metadata.unit.is_some());
    assert!(metadata.area.is_some());
    assert!(metadata.is_seasonally_adjusted());
    assert_eq!(metadata.notes, Some("Test series".to_string()));
    assert_eq!(metadata.attributes.get("test_key"), Some(&"test_value".to_string()));
}

#[test]
fn test_series_with_metadata() {
    let metadata = SeriesMetadata::builder()
        .frequency(Frequency::Quarterly)
        .status(DataStatus::Inactive)
        .build();

    let series = Series::with_metadata("BDUS00000000", "Business Dynamics", "US00000000", metadata);
    assert_eq!(series.frequency(), &Frequency::Quarterly);
    assert!(!series.is_active());
}

#[test]
fn test_series_update_metadata() {
    let mut series = Series::new("APUS49074714", "Test Series");
    let original_version = series.common.version;

    let new_metadata = SeriesMetadata::builder().status(DataStatus::Discontinued).build();

    series.update_metadata(new_metadata);
    assert_eq!(series.metadata.status, DataStatus::Discontinued);
    assert!(series.common.version > original_version);
}

#[test]
fn test_series_attributes() {
    let mut series = Series::new("APUS49074714", "Test Series");
    series.add_attribute("source", "BLS");
    series.add_attribute("category", "Energy");

    assert_eq!(series.common.attributes.get("source"), Some(&"BLS".to_string()));
    assert_eq!(series.common.attributes.get("category"), Some(&"Energy".to_string()));
}

#[test]
fn test_series_validation() {
    let series = Series::new("APUS49074714", "Valid Series");
    assert!(series.validate_series().is_ok());

    let invalid_series = Series::new("X", "Invalid Series");
    assert!(invalid_series.validate_series().is_err());
}

#[test]
fn test_seasonal_adjustment() {
    let mut metadata = SeriesMetadata::default();
    assert!(!metadata.is_seasonally_adjusted());

    metadata.seasonal_adjustment = Some("Seasonally Adjusted".to_string());
    assert!(metadata.is_seasonally_adjusted());

    metadata.seasonal_adjustment = Some("Not Seasonally Adjusted".to_string());
    assert!(!metadata.is_seasonally_adjusted());
}

#[test]
fn series_test_effective_end_date() {
    let metadata = SeriesMetadata::default();
    let end_date = metadata.effective_end_date();
    assert!(((now_nanos() - end_date) / 1_000_000_000).abs() < 5);

    let mut metadata_with_end = SeriesMetadata::default();
    let specific_end = now_nanos() - 30 * DAY_NANOS;
    metadata_with_end.end_date = Some(specific_end);
    assert_eq!(metadata_with_end.effective_end_date(), specific_end);
}

#[test]
fn series_survey_code_of_lower_case_id_is_upper_cased() {
    let series = Series::new("apus0001", "Lower");
    assert_eq!(series.survey_code(), "AP");
    assert_eq!(series.id(), "apus0001");
    assert_eq!(series.title(), "Lower");
}

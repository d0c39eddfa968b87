use rusty::model::survey::{Survey, SurveyContact, SurveyMetadata};
use rusty::model::{DataStatus, Frequency};

fn now_nanos() -> i64 {
    chrono::Utc::now().timestamp_nanos_opt().unwrap()
}

const DAY_NANOS: i64 = 86_400 * 1_000_000_000;

#[test]
fn test_survey_new() {
    let survey = Survey::new("ap", "Average Price Data");
    assert_eq!(survey.survey_code, "AP");
    assert_eq!(survey.name, "Average Price Data");
    assert!(survey.is_active());
}

#[test]
fn test_survey_with_metadata() {
    let metadata = SurveyMetadata::builder()
        .description("Consumer price data for selected items")
        .frequency(Frequency::Monthly)
        .status(DataStatus::Active)
        .build();

    let survey = Survey::with_metadata("ap", "Average Price Data", metadata);
    assert_eq!(survey.description(), Some("Consumer price data for selected items"));
    assert_eq!(survey.frequency(), &Frequency::Monthly);
    assert!(survey.is_active());
}

#[test]
fn test_survey_metadata_builder() {
    let contact = SurveyContact::builder("John Doe", "john.doe@bls.gov")
        .title("Survey Manager")
        .phone("202-555-0123")
        .organization("Bureau of Labor Statistics")
        .build();

    let metadata = SurveyMetadata::builder()
        .description("Test survey description")
        .status(DataStatus::Active)
        .frequency(Frequency::Quarterly)
        .contact(contact)
        .methodology("Sample-based survey")
        .collection_method("Electronic data collection")
        .sample_size("10,000 establishments")
        .coverage("All industries")
        .reference_period("Calendar quarter")
        .publication_schedule("45 days after reference period")
        .related_survey("BD")
        .related_survey("CE")
        .setting("max_retries", "3")
        .attribute("priority", "high")
        .build();

    assert_eq!(metadata.description, Some("Test survey description".to_string()));
    assert_eq!(metadata.status, DataStatus::Active);
    assert_eq!(metadata.frequency, Frequency::Quarterly);
    assert!(metadata.contact.is_some());
    assert_eq!(metadata.methodology, Some("Sample-based survey".to_string()));
    assert_eq!(metadata.collection_method, Some("Electronic data collection".to_string()));
    assert_eq!(metadata.sample_size, Some("10,000 establishments".to_string()));
    assert_eq!(metadata.coverage, Some("All industries".to_string()));
    assert_eq!(metadata.reference_period, Some("Calendar quarter".to_string()));
    assert_eq!(metadata.publication_schedule, Some("45 days after reference period".to_string()));
    assert_eq!(metadata.related_surveys, vec!["BD", "CE"]);
    assert_eq!(metadata.settings.get("max_retries"), Some(&"3".to_string()));
    assert_eq!(metadata.attributes.get("priority"), Some(&"high".to_string()));
}

#[test]
fn test_survey_metadata_operations() {
    let mut metadata = SurveyMetadata::default();

    metadata.add_related_survey("bd");
    metadata.add_related_survey("ce");
    metadata.add_related_survey("BD");
    assert_eq!(metadata.related_surveys, vec!["BD", "CE"]);

    metadata.remove_related_survey("bd");
    assert_eq!(metadata.related_surveys, vec!["CE"]);

    metadata.add_setting("timeout", "30");
    metadata.add_attribute("category", "economic");

    assert_eq!(metadata.settings.get("timeout"), Some(&"30".to_string()));
    assert_eq!(metadata.attributes.get("category"), Some(&"economic".to_string()));
}

#[test]
fn test_survey_updates() {
    let mut survey = Survey::new("ap", "Average Price Data");
    let original_version = survey.common.version;

    survey.set_description("Updated description");
    assert_eq!(survey.description(), Some("Updated description"));
    assert!(survey.common.version > original_version);

    let new_version = survey.common.version;
    survey.set_status(DataStatus::Discontinued);
    assert!(!survey.is_active());
    assert!(survey.common.version > new_version);
}

#[test]
fn test_survey_validation() {
    let survey = Survey::new("AP", "Valid Survey");
    assert!(survey.validate_survey().is_ok());

    let invalid_survey = Survey::new("X", "Invalid Survey");
    assert!(invalid_survey.validate_survey().is_err());
}

#[test]
fn test_survey_metadata_status_checks() {
    let mut metadata = SurveyMetadata::default();
    assert!(metadata.is_currently_active());

    metadata.end_date = Some(now_nanos() - 30 * DAY_NANOS);
    assert!(!metadata.is_currently_active());

    metadata.end_date = Some(now_nanos() + 30 * DAY_NANOS);
    assert!(metadata.is_currently_active());

    metadata.status = DataStatus::Inactive;
    assert!(!metadata.is_currently_active());
}

#[test]
fn survey_test_effective_end_date() {
    let metadata = SurveyMetadata::default();
    let end_date = metadata.effective_end_date();
    assert!(((now_nanos() - end_date) / 1_000_000_000).abs() < 5);

    let mut metadata_with_end = SurveyMetadata::default();
    let specific_end = now_nanos() - 30 * DAY_NANOS;
    metadata_with_end.end_date = Some(specific_end);
    assert_eq!(metadata_with_end.effective_end_date(), specific_end);
}

#[test]
fn survey_active_at_ends_strictly_before_end_date() {
    let mut metadata = SurveyMetadata::default();
    metadata.end_date = Some(100);
    assert!(metadata.is_active_at(99));
    assert!(!metadata.is_active_at(100));
}

use rusty::model::series::extract_survey_code;
use rusty::model::survey::SurveyContact;
use rusty::model::{Area, DataQuality, DataStatus, Frequency, Item, Unit};

#[test]
fn test_data_quality_display() {
    assert_eq!(DataQuality::High.to_string(), "high");
    assert_eq!(DataQuality::Preliminary.to_string(), "preliminary");
    assert_eq!(DataQuality::Revised.to_string(), "revised");
}

#[test]
fn test_data_status_display() {
    assert_eq!(DataStatus::Active.to_string(), "active");
    assert_eq!(DataStatus::Discontinued.to_string(), "discontinued");
}

#[test]
fn test_frequency_display() {
    assert_eq!(Frequency::Monthly.to_string(), "monthly");
    assert_eq!(Frequency::Other("biweekly".to_string()).to_string(), "biweekly");
}

#[test]
fn test_unit() {
    let unit = Unit::new("USD", "US Dollars");
    assert_eq!(unit.code, "USD");
    assert_eq!(unit.name, "US Dollars");
    assert!(unit.symbol.is_none());

    let unit_with_symbol = Unit::with_symbol("PCT", "Percent", "%");
    assert_eq!(unit_with_symbol.symbol, Some("%".to_string()));
}

#[test]
fn test_area() {
    let area = Area::new("US", "United States", "Country");
    assert_eq!(area.code, "US");
    assert_eq!(area.name, "United States");
    assert_eq!(area.area_type, "Country");
    assert!(area.parent_code.is_none());

    let state = Area::new("CA", "California", "State").with_parent("US");
    assert_eq!(state.parent_code, Some("US".to_string()));
}

#[test]
fn test_item() {
    let item = Item::new("GASOLINE", "Gasoline, all types");
    assert_eq!(item.code, "GASOLINE");
    assert_eq!(item.name, "Gasoline, all types");
    assert!(item.category.is_none());

    let categorized_item = Item::new("REGULAR", "Regular gasoline")
        .with_category("Energy")
        .with_parent("GASOLINE");
    assert_eq!(categorized_item.category, Some("Energy".to_string()));
    assert_eq!(categorized_item.parent_code, Some("GASOLINE".to_string()));
}

#[test]
fn test_extract_survey_code() {
    assert_eq!(extract_survey_code("APUS49074714"), "AP");
    assert_eq!(extract_survey_code("BDUS00000000"), "BD");
    assert_eq!(extract_survey_code("X"), "XX");
}

#[test]
fn test_survey_contact_builder() {
    let contact = SurveyContact::builder("Jane Smith", "jane.smith@bls.gov")
        .title("Senior Economist")
        .phone("202-555-0456")
        .organization("Bureau of Labor Statistics")
        .address("2 Massachusetts Ave NE, Washington, DC 20212")
        .build();

    assert_eq!(contact.name, "Jane Smith");
    assert_eq!(contact.email, "jane.smith@bls.gov");
    assert_eq!(contact.title, Some("Senior Economist".to_string()));
    assert_eq!(contact.phone, Some("202-555-0456".to_string()));
    assert_eq!(contact.organization, Some("Bureau of Labor Statistics".to_string()));
    assert_eq!(contact.address, Some("2 Massachusetts Ave NE, Washington, DC 20212".to_string()));
}

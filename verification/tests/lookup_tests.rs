use rusty::model::lookup::{Lookup, LookupEntry};

#[test]
fn test_lookup_new() {
    let lookup = Lookup::new("area", "Geographic Areas");
    assert_eq!(lookup.table_id, "area");
    assert_eq!(lookup.table_name, "Geographic Areas");
    assert_eq!(lookup.survey_code, "XX");
    assert!(lookup.is_empty());
}

#[test]
fn test_lookup_for_survey() {
    let lookup = Lookup::for_survey("area", "Geographic Areas", "ap");
    assert_eq!(lookup.survey_code, "AP");
}

#[test]
fn test_add_and_get_entry() {
    let mut lookup = Lookup::new("area", "Geographic Areas");

    lookup.add_entry("US", "United States", None);
    lookup.add_entry("CA", "California", Some("US"));

    assert_eq!(lookup.entry_count(), 2);
    assert!(!lookup.is_empty());

    let us_entry = lookup.get_entry("US").unwrap();
    assert_eq!(us_entry.description, "United States");
    assert!(us_entry.parent_code.is_none());

    let ca_entry = lookup.get_entry("CA").unwrap();
    assert_eq!(ca_entry.description, "California");
    assert_eq!(ca_entry.parent_code, Some("US".to_string()));
}

#[test]
fn test_hierarchy_operations() {
    let mut lookup = Lookup::new("area", "Geographic Areas");

    lookup.add_entry("US", "United States", None);
    lookup.add_entry("CA", "California", Some("US"));
    lookup.add_entry("LA", "Los Angeles", Some("CA"));
    lookup.add_entry("NY", "New York", Some("US"));

    let us_children = lookup.get_children("US");
    assert_eq!(us_children.len(), 2);
    assert!(us_children.iter().any(|e| e.code == "CA"));
    assert!(us_children.iter().any(|e| e.code == "NY"));

    let ca_children = lookup.get_children("CA");
    assert_eq!(ca_children.len(), 1);
    assert_eq!(ca_children[0].code, "LA");

    let roots = lookup.get_roots();
    assert_eq!(roots.len(), 1);
    assert_eq!(roots[0].code, "US");

    let la_path = lookup.get_hierarchy_path("LA");
    assert_eq!(la_path, vec!["US", "CA", "LA"]);

    let description_path = lookup.get_description_path("LA");
    assert_eq!(description_path, vec!["United States", "California", "Los Angeles"]);
}

#[test]
fn test_search_by_description() {
    let mut lookup = Lookup::new("area", "Geographic Areas");

    lookup.add_entry("US", "United States", None);
    lookup.add_entry("CA", "California", Some("US"));
    lookup.add_entry("NY", "New York", Some("US"));

    let results = lookup.search_by_description("new");
    assert_eq!(results.len(), 1);
    assert_eq!(results[0].code, "NY");

    let results = lookup.search_by_description("states");
    assert_eq!(results.len(), 1);
    assert_eq!(results[0].code, "US");
}

#[test]
fn test_lookup_entry_builder() {
    let entry = LookupEntry::builder("CA", "California")
        .parent("US")
        .active(true)
        .sort_order(1)
        .attribute("region", "West")
        .build();

    assert_eq!(entry.code, "CA");
    assert_eq!(entry.description, "California");
    assert_eq!(entry.parent_code, Some("US".to_string()));
    assert!(entry.active);
    assert_eq!(entry.sort_order, Some(1));
    assert_eq!(entry.get_attribute("region"), Some(&"West".to_string()));
}

#[test]
fn test_lookup_entry_attributes() {
    let mut entry = LookupEntry::new("CA", "California", None);

    entry.add_attribute("region", "West");
    entry.add_attribute("population", "39538223");

    assert!(entry.has_attribute("region"));
    assert_eq!(entry.get_attribute("region"), Some(&"West".to_string()));

    let removed = entry.remove_attribute("population");
    assert_eq!(removed, Some("39538223".to_string()));
    assert!(!entry.has_attribute("population"));
}

#[test]
fn test_validate_structure() {
    let mut lookup = Lookup::new("area", "Geographic Areas");

    lookup.add_entry("US", "United States", None);
    lookup.add_entry("CA", "California", Some("US"));
    assert!(lookup.validate_structure().is_ok());

    lookup.add_entry("ORPHAN", "Orphaned Entry", Some("NONEXISTENT"));
    assert!(lookup.validate_structure().is_err());

    lookup.remove_entry("ORPHAN");
    lookup.add_entry("CIRCULAR", "Circular Entry", Some("CIRCULAR"));
    assert!(lookup.validate_structure().is_err());
}

#[test]
fn test_lookup_statistics() {
    let mut lookup = Lookup::new("area", "Geographic Areas");

    lookup.add_entry("US", "United States", None);
    lookup.add_entry("CA", "California", Some("US"));
    lookup.add_entry("NY", "New York", Some("US"));
    lookup.add_entry("LA", "Los Angeles", Some("CA"));

    let stats = lookup.get_statistics();
    assert_eq!(stats.total_entries, 4);
    assert_eq!(stats.root_entries, 1);
    assert_eq!(stats.max_depth, 3);
    assert_eq!(stats.entries_with_children, 2);
}

#[test]
fn test_lookup_operations() {
    let mut lookup = Lookup::new("area", "Geographic Areas");

    lookup.add_entry("US", "United States", None);
    lookup.add_entry("CA", "California", Some("US"));

    assert!(lookup.contains_entry("US"));
    assert!(lookup.contains_entry("CA"));
    assert!(!lookup.contains_entry("TX"));

    let codes = lookup.get_codes();
    assert_eq!(codes, vec!["CA", "US"]);

    let removed = lookup.remove_entry("CA");
    assert!(removed.is_some());
    assert_eq!(removed.unwrap().description, "California");
    assert!(!lookup.contains_entry("CA"));

    lookup.clear();
    assert!(lookup.is_empty());
    assert_eq!(lookup.entry_count(), 0);
}

#[test]
fn lookup_entry_replaced_by_second_add() {
    let mut lookup = Lookup::new("area", "Geographic Areas");
    lookup.add_entry("US", "United States", None);
    lookup.add_entry("US", "USA", None);
    assert_eq!(lookup.entry_count(), 1);
    assert_eq!(lookup.get_entry("US").unwrap().description, "USA");
}

#[test]
fn lookup_paths_of_unknown_code_are_empty() {
    let lookup = Lookup::new("area", "Geographic Areas");
    assert!(lookup.get_hierarchy_path("ZZ").is_empty());
    assert!(lookup.get_description_path("ZZ").is_empty());
    assert!(lookup.get_entry("ZZ").is_none());
}

#[test]
fn cycles_through_every_entry_are_found() {
    let mut lookup = Lookup::new("area", "Areas");
    lookup.add_entry("A", "A", Some("B"));
    lookup.add_entry("B", "B", Some("C"));
    lookup.add_entry("C", "C", Some("D"));
    lookup.add_entry("D", "D", Some("A"));
    assert!(lookup.validate_structure().is_err());
    lookup.remove_entry("D");
    lookup.add_entry("D", "D", None);
    assert!(lookup.validate_structure().is_ok());
}

use rusty::{DESCRIPTION, NAME, VERSION};

#[test]
fn test_version_info() {
    assert!(!VERSION.is_empty());
    assert_eq!(NAME, "rusty");
    assert!(!DESCRIPTION.is_empty());
}

use db_enum::attrs::AttrEntry;
use db_enum::attrs::attr_flag;
use db_enum::attrs::attr_value;

fn entry(key: &str, value: &str) -> AttrEntry {
    AttrEntry {
        key: key.to_string(),
        value: Some(value.to_string()),
    }
}

fn flag(key: &str) -> AttrEntry {
    AttrEntry {
        key: key.to_string(),
        value: None,
    }
}

#[test]
fn value_found_in_single_list() {
    let lists = vec![vec![entry("pg_type", "my_type"), entry("diesel_type", "MyMapping")]];
    assert_eq!(attr_value(&lists, "pg_type"), Some("my_type".to_string()));
    assert_eq!(attr_value(&lists, "diesel_type"), Some("MyMapping".to_string()));
    assert_eq!(attr_value(&lists, "value_style"), None);
}

#[test]
fn last_entry_of_a_list_wins() {
    let lists = vec![vec![entry("rename", "first"), entry("rename", "second")]];
    assert_eq!(attr_value(&lists, "rename"), Some("second".to_string()));
}

#[test]
fn first_list_with_a_value_wins() {
    let lists = vec![
        vec![entry("other", "x")],
        vec![entry("rename", "from_second_list")],
        vec![entry("rename", "from_third_list")],
    ];
    assert_eq!(
        attr_value(&lists, "rename"),
        Some("from_second_list".to_string())
    );
}

#[test]
fn entry_without_value_gives_no_value() {
    let lists = vec![vec![flag("impl_clone_on_sql_type")]];
    assert_eq!(attr_value(&lists, "impl_clone_on_sql_type"), None);
    let lists = vec![vec![entry("rename", "kept"), flag("rename")]];
    assert_eq!(attr_value(&lists, "rename"), Some("kept".to_string()));
}

#[test]
fn empty_lists_give_nothing() {
    let lists: Vec<Vec<AttrEntry>> = vec![];
    assert_eq!(attr_value(&lists, "rename"), None);
    assert!(!attr_flag(&lists, "impl_clone_on_sql_type"));
    let lists: Vec<Vec<AttrEntry>> = vec![vec![]];
    assert_eq!(attr_value(&lists, "rename"), None);
}

#[test]
fn flag_present_with_or_without_value() {
    let lists = vec![vec![flag("impl_clone_on_sql_type")]];
    assert!(attr_flag(&lists, "impl_clone_on_sql_type"));
    let lists = vec![vec![entry("other", "x")], vec![entry("impl_clone_on_sql_type", "yes")]];
    assert!(attr_flag(&lists, "impl_clone_on_sql_type"));
    let lists = vec![vec![entry("other", "x")]];
    assert!(!attr_flag(&lists, "impl_clone_on_sql_type"));
}

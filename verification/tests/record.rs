use hw201_sensor::record::Record;

#[test]
fn new_record_is_empty() {
    let record: Record<bool> = Record::new();
    assert_eq!(record.len(), 0);
    assert!(record.is_empty());
    assert!(record.entries().is_empty());
    assert_eq!(record.get("anything"), None);
    assert!(!record.contains_key("anything"));
}

#[test]
fn insert_puts_a_new_name_last() {
    let mut record: Record<i32> = Record::new();
    record.insert("a".to_string(), 1);
    record.insert("b".to_string(), 2);
    record.insert("c".to_string(), 3);
    assert_eq!(record.len(), 3);
    assert!(!record.is_empty());
    assert_eq!(
        record.entries(),
        &vec![("a".to_string(), 1), ("b".to_string(), 2), ("c".to_string(), 3)]
    );
    assert_eq!(record.get("a"), Some(&1));
    assert_eq!(record.get("b"), Some(&2));
    assert_eq!(record.get("c"), Some(&3));
}

#[test]
fn insert_replaces_the_value_of_a_held_name_in_place() {
    let mut record: Record<i32> = Record::new();
    record.insert("a".to_string(), 1);
    record.insert("b".to_string(), 2);
    record.insert("a".to_string(), 7);
    assert_eq!(record.len(), 2);
    assert_eq!(record.entries(), &vec![("a".to_string(), 7), ("b".to_string(), 2)]);
    assert_eq!(record.get("a"), Some(&7));
    assert_eq!(record.get("b"), Some(&2));
}

#[test]
fn get_tells_names_apart_exactly() {
    let mut record: Record<bool> = Record::new();
    record.insert("pin".to_string(), true);
    assert_eq!(record.get("pin"), Some(&true));
    assert_eq!(record.get("Pin"), None);
    assert_eq!(record.get("pi"), None);
    assert_eq!(record.get("pins"), None);
    assert_eq!(record.get(""), None);
    assert!(record.contains_key("pin"));
    assert!(!record.contains_key("pin "));
}

#[test]
fn the_empty_name_is_a_name() {
    let mut record: Record<u8> = Record::new();
    record.insert(String::new(), 9);
    assert!(record.contains_key(""));
    assert_eq!(record.get(""), Some(&9));
    assert_eq!(record.len(), 1);
}

use hw201_sensor::readings::{generic_readings, number, TypedReadings};
use hw201_sensor::value::Value;

#[test]
fn number_is_one_for_true_and_zero_for_false() {
    assert_eq!(number(true), Value::Integer(1));
    assert_eq!(number(false), Value::Integer(0));
}

#[test]
fn generic_readings_of_nothing_are_nothing() {
    let generic = generic_readings(&TypedReadings::new());
    assert!(generic.is_empty());
}

#[test]
fn generic_readings_keep_names_and_order() {
    let mut typed = TypedReadings::new();
    typed.insert("door".to_string(), true);
    typed.insert("window".to_string(), false);
    typed.insert("hatch".to_string(), true);
    let generic = generic_readings(&typed);
    assert_eq!(
        generic.entries(),
        &vec![
            ("door".to_string(), Value::Integer(1)),
            ("window".to_string(), Value::Integer(0)),
            ("hatch".to_string(), Value::Integer(1)),
        ]
    );
    assert_eq!(typed.len(), 3);
    assert_eq!(typed.get("window"), Some(&false));
}

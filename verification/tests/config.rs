use hw201_sensor::config::{integer_attribute, ConfigRecord};
use hw201_sensor::error::AttributeError;
use hw201_sensor::value::Value;

#[test]
fn integer_attribute_reads_an_integer() {
    let mut cfg = ConfigRecord::new();
    cfg.insert("pin".to_string(), Value::Integer(4));
    assert_eq!(integer_attribute(&cfg, "pin"), Ok(4));
}

#[test]
fn integer_attribute_keeps_every_integer_as_it_is() {
    let mut cfg = ConfigRecord::new();
    cfg.insert("zero".to_string(), Value::Integer(0));
    cfg.insert("negative".to_string(), Value::Integer(-1));
    cfg.insert("least".to_string(), Value::Integer(i32::MIN));
    cfg.insert("most".to_string(), Value::Integer(i32::MAX));
    assert_eq!(integer_attribute(&cfg, "zero"), Ok(0));
    assert_eq!(integer_attribute(&cfg, "negative"), Ok(-1));
    assert_eq!(integer_attribute(&cfg, "least"), Ok(i32::MIN));
    assert_eq!(integer_attribute(&cfg, "most"), Ok(i32::MAX));
}

#[test]
fn integer_attribute_misses_an_absent_name() {
    let cfg = ConfigRecord::new();
    assert_eq!(integer_attribute(&cfg, "pin"), Err(AttributeError::Missing));
    let mut other = ConfigRecord::new();
    other.insert("pins".to_string(), Value::Integer(4));
    assert_eq!(integer_attribute(&other, "pin"), Err(AttributeError::Missing));
}

#[test]
fn integer_attribute_refuses_every_other_kind() {
    let mut cfg = ConfigRecord::new();
    cfg.insert("null".to_string(), Value::Null);
    cfg.insert("bool".to_string(), Value::Bool(true));
    cfg.insert("text".to_string(), Value::Text("4".to_string()));
    cfg.insert("other".to_string(), Value::Other);
    assert_eq!(integer_attribute(&cfg, "other"), Err(AttributeError::NotAnInteger));
    assert_eq!(integer_attribute(&cfg, "null"), Err(AttributeError::NotAnInteger));
    assert_eq!(integer_attribute(&cfg, "bool"), Err(AttributeError::NotAnInteger));
    assert_eq!(integer_attribute(&cfg, "text"), Err(AttributeError::NotAnInteger));
}

#[test]
fn as_integer_gives_the_integer_only() {
    assert_eq!(Value::Integer(17).as_integer(), Some(17));
    assert_eq!(Value::Null.as_integer(), None);
    assert_eq!(Value::Bool(false).as_integer(), None);
    assert_eq!(Value::Text("17".to_string()).as_integer(), None);
    assert_eq!(Value::Other.as_integer(), None);
}

use hw201_sensor::config::ConfigRecord;
use hw201_sensor::gpio::{Level, PinClaim};
use hw201_sensor::hw201::{register_models, HW201Sensor};
use hw201_sensor::registry::{ModelRegistry, SensorModel};
use hw201_sensor::value::Value;

#[test]
fn registered_sensor_reports_the_line_inverted() {
    let mut registry = ModelRegistry::new();
    assert_eq!(register_models(&mut registry), Ok(()));
    assert_eq!(registry.model("hw201"), Some(SensorModel::DigitalInput));

    let mut cfg = ConfigRecord::new();
    cfg.insert("pin".to_string(), Value::Integer(4));
    let claim = HW201Sensor::from_config(cfg, vec![]).unwrap();
    let claim = claim.step(true).step(true);
    let line = match claim {
        PinClaim::Claimed(line) => line,
        other => panic!("the line is not claimed: {:?}", other),
    };
    assert_eq!(line.pin(), 4);
    let mut sensor = HW201Sensor::new(line);

    sensor.observe(Some(Level::High));
    let typed = sensor.get_readings().unwrap();
    assert_eq!(typed.len(), 1);
    assert_eq!(typed.get("pin_value"), Some(&false));
    let generic = sensor.get_generic_readings().unwrap();
    assert_eq!(generic.len(), 1);
    assert_eq!(generic.get("pin_value"), Some(&Value::Integer(0)));

    sensor.observe(Some(Level::Low));
    let typed = sensor.get_readings().unwrap();
    assert_eq!(typed.get("pin_value"), Some(&true));
    let generic = sensor.get_generic_readings().unwrap();
    assert_eq!(generic.get("pin_value"), Some(&Value::Integer(1)));
}

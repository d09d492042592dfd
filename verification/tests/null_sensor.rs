use hw201_sensor::config::{ConfigRecord, Dependency};
use hw201_sensor::error::RegistryError;
use hw201_sensor::hw201;
use hw201_sensor::null_sensor::{model_name, register_models, NullSensor};
use hw201_sensor::registry::{ModelRegistry, SensorModel};
use hw201_sensor::value::Value;

#[test]
fn null_sensor_is_built_from_any_configuration() {
    assert_eq!(NullSensor::from_config(ConfigRecord::new(), vec![]), Ok(NullSensor {}));

    let mut valid = ConfigRecord::new();
    valid.insert("pin".to_string(), Value::Integer(4));
    assert_eq!(NullSensor::from_config(valid, vec![]), Ok(NullSensor {}));

    let mut malformed = ConfigRecord::new();
    malformed.insert("pin".to_string(), Value::Text("four".to_string()));
    malformed.insert("".to_string(), Value::Null);
    let deps = vec![Dependency { name: "board".to_string() }];
    assert_eq!(NullSensor::from_config(malformed, deps), Ok(NullSensor {}));
}

#[test]
fn null_sensor_status_is_there_and_empty() {
    let mut malformed = ConfigRecord::new();
    malformed.insert("pin".to_string(), Value::Bool(false));
    for cfg in [ConfigRecord::new(), malformed] {
        let sensor = NullSensor::from_config(cfg, vec![]).unwrap();
        let status = sensor.get_status();
        assert!(status.is_some());
        let document = status.unwrap();
        assert_eq!(document.len(), 0);
        assert!(document.entries().is_empty());
    }
}

#[test]
fn null_sensor_reads_nothing() {
    let mut sensor = NullSensor::from_config(ConfigRecord::new(), vec![]).unwrap();
    let readings = sensor.get_generic_readings().unwrap();
    assert!(readings.is_empty());
    assert_eq!(readings.get("pin_value"), None);
    assert_eq!(sensor, NullSensor {});
}

#[test]
fn null_sensor_registers_under_its_name() {
    assert_eq!(model_name(), "my_sensor");
    let mut registry = ModelRegistry::new();
    assert_eq!(register_models(&mut registry), Ok(()));
    assert_eq!(registry.model("my_sensor"), Some(SensorModel::Null));
    assert_eq!(register_models(&mut registry), Err(RegistryError::AlreadyRegistered));
}

#[test]
fn both_sensors_share_one_registry() {
    let mut registry = ModelRegistry::new();
    assert_eq!(hw201::register_models(&mut registry), Ok(()));
    assert_eq!(register_models(&mut registry), Ok(()));
    assert_eq!(
        registry.entries(),
        &vec![
            ("hw201".to_string(), SensorModel::DigitalInput),
            ("my_sensor".to_string(), SensorModel::Null),
        ]
    );
    assert_eq!(registry.model("hw201"), Some(SensorModel::DigitalInput));
    assert_eq!(registry.model("my_sensor"), Some(SensorModel::Null));
    assert_eq!(registry.model("other"), None);
}

#[test]
fn new_registry_holds_no_model() {
    let registry = ModelRegistry::new();
    assert!(registry.entries().is_empty());
    assert_eq!(registry.model("hw201"), None);
    assert_eq!(registry.model("my_sensor"), None);
}

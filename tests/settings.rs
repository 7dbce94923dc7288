use system_monitor::config::Config;
use system_monitor::error::Error;
use system_monitor::models::ByteUnit;
use system_monitor::registration::{
    all_sensors, config_topic, discovery_config, replace_underscores, state_topic, DeviceClass,
    Sensor,
};

fn s(v: &str) -> Option<String> {
    Some(v.to_string())
}

fn config() -> Config {
    Config::from_values(s("living_room"), s("u"), s("p"), None, None, None, None, None, None)
        .unwrap()
}

#[test]
fn defaults_apply() {
    let c = config();
    assert_eq!(c.report_interval, 5);
    assert_eq!(c.storage_unit, ByteUnit::Gigabyte);
    assert_eq!(c.network_unit, ByteUnit::Megabyte);
    assert_eq!(c.memory_unit, ByteUnit::Gigabyte);
    assert_eq!(c.broker_host, "localhost");
    assert_eq!(c.broker_port, 1883);
    assert_eq!(c.program_name, "system_monitor");
}

#[test]
fn given_values_apply() {
    let c = Config::from_values(
        s("x"),
        s("u"),
        s("p"),
        s("+10"),
        s("TB"),
        s("KB"),
        s("bogus"),
        s("h"),
        s("65535"),
    )
    .unwrap();
    assert_eq!(c.report_interval, 10);
    assert_eq!(c.storage_unit, ByteUnit::Terabyte);
    assert_eq!(c.network_unit, ByteUnit::Kilobyte);
    assert_eq!(c.memory_unit, ByteUnit::Byte);
    assert_eq!(c.broker_port, 65535);
}

#[test]
fn missing_required_values() {
    match Config::from_values(None, None, None, None, None, None, None, None, None) {
        Err(Error::Env(k)) => assert_eq!(k, "CLIENT_ID"),
        _ => panic!("expected a missing client id"),
    }
    match Config::from_values(s("c"), None, s("p"), None, None, None, None, None, None) {
        Err(Error::Env(k)) => assert_eq!(k, "MQTT_USERNAME"),
        _ => panic!("expected a missing user name"),
    }
    match Config::from_values(s("c"), s("u"), None, None, None, None, None, None, None) {
        Err(Error::Env(k)) => assert_eq!(k, "MQTT_PASSWORD"),
        _ => panic!("expected a missing password"),
    }
}

#[test]
fn unparseable_numbers() {
    let r = Config::from_values(s("c"), s("u"), s("p"), s("5s"), None, None, None, None, None);
    assert!(matches!(r, Err(Error::EnvParseError)));
    let r = Config::from_values(s("c"), s("u"), s("p"), None, None, None, None, None, s("70000"));
    assert!(matches!(r, Err(Error::EnvParseError)));
    let r = Config::from_values(s("c"), s("u"), s("p"), None, None, None, None, None, s(""));
    assert!(matches!(r, Err(Error::EnvParseError)));
}

#[test]
fn error_messages() {
    assert_eq!(Error::Env("CLIENT_ID".to_string()).to_string(), "env key `CLIENT_ID` is not set");
    assert_eq!(Error::EnvParseError.to_string(), "failed to parse env");
    assert_eq!(Error::MainLoopClosed.to_string(), "main loop closed");
    assert_eq!(Error::Io("boom".to_string()).to_string(), "IO error: boom");
    assert_eq!(Error::UnsupportedOS.to_string(), "unsupported OS");
    assert_eq!(Error::Unknown.to_string(), "unknown error");
}

#[test]
fn topics() {
    let c = config();
    assert_eq!(state_topic(&c), "system_monitor/living_room/state");
    assert_eq!(
        config_topic(&c, Sensor::DiskUsage),
        "homeassistant/sensor/living_room_disk_usage/config"
    );
}

#[test]
fn underscores_become_spaces() {
    assert_eq!(replace_underscores("network_received"), "network received");
    assert_eq!(replace_underscores("a__b"), "a  b");
    assert_eq!(replace_underscores(""), "");
}

#[test]
fn discovery_of_memory_sensor() {
    let c = config();
    let d = discovery_config(&c, Sensor::RamTotal);
    assert_eq!(d.unique_id, "living_room_ram_total");
    assert_eq!(d.name, "ram total");
    assert_eq!(d.state_topic, "system_monitor/living_room/state");
    assert_eq!(d.state_class, "total");
    assert_eq!(d.device_class, Some(DeviceClass::DataSize));
    assert_eq!(d.unit_of_measurement, "GB");
    assert_eq!(d.value_template, "{{ value_json.ram_total }}");
    assert_eq!(d.device.name, "system monitor living room");
    assert_eq!(d.device.identifiers, vec!["system_monitor_living_room".to_string()]);
    assert_eq!(d.device.manufacturer, "system_monitor");
    assert_eq!(d.device.model, "system_monitor_living_room");
}

#[test]
fn discovery_of_cpu_and_rate_sensors() {
    let c = config();
    let cpu = discovery_config(&c, Sensor::CpuUsage);
    assert_eq!(cpu.device_class, None);
    assert_eq!(cpu.unit_of_measurement, "%");
    assert_eq!(cpu.state_class, "measurement");
    let rx = discovery_config(&c, Sensor::NetworkTransmitted);
    assert_eq!(rx.device_class, Some(DeviceClass::DataRate));
    assert_eq!(rx.unit_of_measurement, "MB/s");
    assert_eq!(rx.state_class, "measurement");
    assert_eq!(DeviceClass::DataRate.to_string(), "data_rate");
}

#[test]
fn discovery_of_storage_sensor_uses_storage_unit() {
    let c = Config::from_values(s("c"), s("u"), s("p"), None, s("TB"), None, s("MB"), None, None)
        .unwrap();
    assert_eq!(discovery_config(&c, Sensor::DiskTotal).unit_of_measurement, "TB");
    assert_eq!(discovery_config(&c, Sensor::RamUsage).unit_of_measurement, "MB");
}

#[test]
fn every_sensor_in_order() {
    let keys: Vec<&str> = all_sensors().iter().map(|s| s.key()).collect();
    assert_eq!(
        keys,
        vec![
            "ram_total",
            "ram_usage",
            "disk_total",
            "disk_usage",
            "cpu_usage",
            "network_received",
            "network_transmitted"
        ]
    );
}

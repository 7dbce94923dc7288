//! The topics and discovery descriptors through which each metric
//! registers itself as a sensor of the home-automation platform.
use crate::config::Config;
use crate::models::{unit_symbol, ByteUnit};
use vstd::prelude::*;
use vstd::string::*;

verus! {

/// The metrics that are reported, in payload order.
#[derive(Debug, Clone, Copy, PartialEq, Eq, Structural)]
pub enum Sensor {
    RamTotal,
    RamUsage,
    DiskTotal,
    DiskUsage,
    CpuUsage,
    NetworkReceived,
    NetworkTransmitted,
}

/// The kind of quantity a sensor shows, as the platform names it.
#[derive(Debug, Clone, Copy, PartialEq, Eq, Structural)]
pub enum DeviceClass {
    DataSize,
    DataRate,
}

/// The presentation of one sensor's quantity.
#[derive(Debug, Clone, Copy, PartialEq, Eq, Structural)]
pub struct EntityConfig {
    pub device_class: DeviceClass,
}

/// The host as the platform shows it; the same for every sensor.
#[derive(Debug, Clone)]
pub struct Device {
    pub identifiers: Vec<String>,
    pub manufacturer: String,
    pub model: String,
    pub name: String,
}

/// The discovery descriptor of one sensor.
#[derive(Debug, Clone)]
pub struct DeviceConfig {
    pub unique_id: String,
    pub name: String,
    pub state_topic: String,
    pub state_class: String,
    /// Absent for the processor load.
    pub device_class: Option<DeviceClass>,
    pub unit_of_measurement: String,
    pub value_template: String,
    pub device: Device,
}

/// The key of a sensor in the state payload.
pub open spec fn sensor_key(s: Sensor) -> Seq<char> {
    match s {
        Sensor::RamTotal => "ram_total"@,
        Sensor::RamUsage => "ram_usage"@,
        Sensor::DiskTotal => "disk_total"@,
        Sensor::DiskUsage => "disk_usage"@,
        Sensor::CpuUsage => "cpu_usage"@,
        Sensor::NetworkReceived => "network_received"@,
        Sensor::NetworkTransmitted => "network_transmitted"@,
    }
}

/// The name of a device class.
pub open spec fn device_class_name(c: DeviceClass) -> Seq<char> {
    match c {
        DeviceClass::DataSize => "data_size"@,
        DeviceClass::DataRate => "data_rate"@,
    }
}

/// `s` with every underscore replaced by a space.
pub open spec fn spaced(s: Seq<char>) -> Seq<char> {
    s.map_values(|c: char| if c == '_' { ' ' } else { c })
}

/// The topic that carries the state payload.
pub open spec fn state_topic_of(program: Seq<char>, client: Seq<char>) -> Seq<char> {
    program + "/"@ + client + "/state"@
}

/// The topic that carries a sensor's discovery descriptor.
pub open spec fn config_topic_of(client: Seq<char>, s: Sensor) -> Seq<char> {
    "homeassistant/sensor/"@ + client + "_"@ + sensor_key(s) + "/config"@
}

/// The identifier of the host's device: program and client joined.
pub open spec fn model_id_of(program: Seq<char>, client: Seq<char>) -> Seq<char> {
    program + "_"@ + client
}

/// The unit a sensor's values are shown in: memory metrics in the memory
/// unit, storage metrics in the storage unit, rates in megabytes per second
/// and the processor load in percent.
pub open spec fn unit_of(s: Sensor, memory: ByteUnit, storage: ByteUnit) -> Seq<char> {
    match s {
        Sensor::RamTotal | Sensor::RamUsage => unit_symbol(memory),
        Sensor::DiskTotal | Sensor::DiskUsage => unit_symbol(storage),
        Sensor::CpuUsage => "%"@,
        Sensor::NetworkReceived | Sensor::NetworkTransmitted => "MB/s"@,
    }
}

/// Cumulative sizes are totals; the load and the rates are measurements.
pub open spec fn state_class_of(s: Sensor) -> Seq<char> {
    match s {
        Sensor::CpuUsage | Sensor::NetworkReceived | Sensor::NetworkTransmitted => "measurement"@,
        _ => "total"@,
    }
}

/// Sizes are data sizes, rates data rates; the load has no class.
pub open spec fn device_class_of(s: Sensor) -> Option<DeviceClass> {
    match s {
        Sensor::CpuUsage => None,
        Sensor::NetworkReceived | Sensor::NetworkTransmitted => Some(DeviceClass::DataRate),
        _ => Some(DeviceClass::DataSize),
    }
}

/// Relies on `String::push`: appends one character.
#[verifier::external_body]
fn push_char(s: &mut String, c: char)
    ensures
        final(s)@ == old(s)@.push(c),
{
    s.push(c);
}

/// Appends `s` with its underscores replaced by spaces.
fn push_spaced(out: &mut String, s: &str)
    ensures
        final(out)@ == old(out)@ + spaced(s@),
{
    let n = s.unicode_len();
    let mut i: usize = 0;
    while i < n
        invariant
            n == s@.len(),
            i <= n,
            out@ == old(out)@ + spaced(s@.subrange(0, i as int)),
        decreases n - i,
    {
        let c = s.get_char(i);
        if c == '_' {
            push_char(out, ' ');
        } else {
            push_char(out, c);
        }
        assert(s@.subrange(0, i + 1) =~= s@.subrange(0, i as int).push(c));
        assert(spaced(s@.subrange(0, i + 1)) =~= spaced(s@.subrange(0, i as int)).push(
            if c == '_' { ' ' } else { c },
        ));
        i = i + 1;
    }
    assert(s@.subrange(0, n as int) =~= s@);
}

/// `s` with its underscores replaced by spaces.
pub fn replace_underscores(s: &str) -> (r: String)
    ensures
        r@ == spaced(s@),
{
    let mut out = String::new();
    push_spaced(&mut out, s);
    out
}

impl Sensor {
    /// The key in the state payload.
    pub fn key(&self) -> (r: &'static str)
        ensures
            r@ == sensor_key(*self),
    {
        match self {
            Sensor::RamTotal => "ram_total",
            Sensor::RamUsage => "ram_usage",
            Sensor::DiskTotal => "disk_total",
            Sensor::DiskUsage => "disk_usage",
            Sensor::CpuUsage => "cpu_usage",
            Sensor::NetworkReceived => "network_received",
            Sensor::NetworkTransmitted => "network_transmitted",
        }
    }
}

impl DeviceClass {
    /// The class's name.
    pub fn to_string(&self) -> (r: String)
        ensures
            r@ == device_class_name(*self),
    {
        match self {
            DeviceClass::DataSize => String::from_str("data_size"),
            DeviceClass::DataRate => String::from_str("data_rate"),
        }
    }
}

/// Every sensor, in payload order.
pub fn all_sensors() -> (r: Vec<Sensor>)
    ensures
        r@ == seq![
            Sensor::RamTotal,
            Sensor::RamUsage,
            Sensor::DiskTotal,
            Sensor::DiskUsage,
            Sensor::CpuUsage,
            Sensor::NetworkReceived,
            Sensor::NetworkTransmitted,
        ],
{
    let r = vec![
        Sensor::RamTotal,
        Sensor::RamUsage,
        Sensor::DiskTotal,
        Sensor::DiskUsage,
        Sensor::CpuUsage,
        Sensor::NetworkReceived,
        Sensor::NetworkTransmitted,
    ];
    assert(r@ =~= seq![
        Sensor::RamTotal,
        Sensor::RamUsage,
        Sensor::DiskTotal,
        Sensor::DiskUsage,
        Sensor::CpuUsage,
        Sensor::NetworkReceived,
        Sensor::NetworkTransmitted,
    ]);
    r
}

/// The topic of the state payload: `{program}/{client}/state`.
pub fn state_topic(config: &Config) -> (r: String)
    ensures
        r@ == state_topic_of(config.program_name@, config.client_id@),
{
    let mut t = config.program_name.clone();
    t.append("/");
    t.append(config.client_id.as_str());
    t.append("/state");
    t
}

/// The topic of a sensor's descriptor:
/// `homeassistant/sensor/{client}_{key}/config`.
pub fn config_topic(config: &Config, sensor: Sensor) -> (r: String)
    ensures
        r@ == config_topic_of(config.client_id@, sensor),
{
    let mut t = String::from_str("homeassistant/sensor/");
    t.append(config.client_id.as_str());
    t.append("_");
    t.append(sensor.key());
    t.append("/config");
    t
}

/// The host's device descriptor.
pub fn device(config: &Config) -> (r: Device)
    ensures
        r.name@ == spaced(config.program_name@) + " "@ + spaced(config.client_id@),
        r.identifiers@.len() == 1,
        r.identifiers@[0]@ == model_id_of(config.program_name@, config.client_id@),
        r.manufacturer@ == config.program_name@,
        r.model@ == model_id_of(config.program_name@, config.client_id@),
{
    let mut name = String::new();
    push_spaced(&mut name, config.program_name.as_str());
    name.append(" ");
    push_spaced(&mut name, config.client_id.as_str());
    let mut model = config.program_name.clone();
    model.append("_");
    model.append(config.client_id.as_str());
    let id = model.clone();
    Device { identifiers: vec![id], manufacturer: config.program_name.clone(), model, name }
}

/// The discovery descriptor of `sensor`.
pub fn discovery_config(config: &Config, sensor: Sensor) -> (r: DeviceConfig)
    ensures
        r.unique_id@ == config.client_id@ + "_"@ + sensor_key(sensor),
        r.name@ == spaced(sensor_key(sensor)),
        r.state_topic@ == state_topic_of(config.program_name@, config.client_id@),
        r.state_class@ == state_class_of(sensor),
        r.device_class == device_class_of(sensor),
        r.unit_of_measurement@ == unit_of(sensor, config.memory_unit, config.storage_unit),
        r.value_template@ == "{{ value_json."@ + sensor_key(sensor) + " }}"@,
        r.device.name@ == spaced(config.program_name@) + " "@ + spaced(config.client_id@),
        r.device.identifiers@.len() == 1,
        r.device.identifiers@[0]@ == model_id_of(config.program_name@, config.client_id@),
        r.device.manufacturer@ == config.program_name@,
        r.device.model@ == model_id_of(config.program_name@, config.client_id@),
{
    let key = sensor.key();
    let mut unique_id = config.client_id.clone();
    unique_id.append("_");
    unique_id.append(key);
    let mut value_template = String::from_str("{{ value_json.");
    value_template.append(key);
    value_template.append(" }}");
    let (unit, state_class, device_class) = match sensor {
        Sensor::RamTotal | Sensor::RamUsage => (
            config.memory_unit.to_string(),
            String::from_str("total"),
            Some(DeviceClass::DataSize),
        ),
        Sensor::DiskTotal | Sensor::DiskUsage => (
            config.storage_unit.to_string(),
            String::from_str("total"),
            Some(DeviceClass::DataSize),
        ),
        Sensor::CpuUsage => (String::from_str("%"), String::from_str("measurement"), None),
        Sensor::NetworkReceived | Sensor::NetworkTransmitted => (
            String::from_str("MB/s"),
            String::from_str("measurement"),
            Some(DeviceClass::DataRate),
        ),
    };
    DeviceConfig {
        unique_id,
        name: replace_underscores(key),
        state_topic: state_topic(config),
        state_class,
        device_class,
        unit_of_measurement: unit,
        value_template,
        device: device(config),
    }
}

} // verus!

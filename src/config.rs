//! The program's settings, read from named values with defaults.
use crate::error::Error;
use crate::models::{parse_unit, ByteUnit};
use vstd::prelude::*;
use vstd::string::*;

verus! {

/// The settings of one run.
#[derive(Debug, Clone)]
pub struct Config {
    pub broker_password: String,
    pub broker_port: u16,
    pub broker_host: String,
    pub broker_username: String,
    pub storage_unit: ByteUnit,
    pub network_unit: ByteUnit,
    pub memory_unit: ByteUnit,
    pub client_id: String,
    pub program_name: String,
    pub report_interval: u64,
}

/// The value of a decimal digit character.
pub open spec fn digit_value(c: char) -> nat {
    (c as u32 - '0' as u32) as nat
}

/// Whether every character is a decimal digit.
pub open spec fn all_digits(s: Seq<char>) -> bool {
    forall|i: int| 0 <= i < s.len() ==> '0' <= #[trigger] s[i] <= '9'
}

/// The number that a string of decimal digits denotes.
pub open spec fn digits_value(s: Seq<char>) -> nat
    decreases s.len(),
{
    if s.len() == 0 {
        0
    } else {
        digits_value(s.drop_last()) * 10 + digit_value(s.last())
    }
}

/// The unsigned number a text denotes: an optional `+` followed by at least
/// one decimal digit, and nothing else, within the range of `u64`.
pub open spec fn parsed_u64(s: Seq<char>) -> Option<u64> {
    let body = if s.len() > 0 && s[0] == '+' {
        s.drop_first()
    } else {
        s
    };
    if body.len() > 0 && all_digits(body) && digits_value(body) <= u64::MAX {
        Some(digits_value(body) as u64)
    } else {
        None
    }
}

/// Relies on `str::parse::<u64>` (`u64`'s `FromStr`): an optional `+` sign
/// and then only decimal digits, in range; anything else is an error.
#[verifier::external_body]
fn parse_u64(s: &str) -> (r: Option<u64>)
    ensures
        r == parsed_u64(s@),
{
    s.parse::<u64>().ok()
}

/// A setting's text, or `default` where it is not set.
pub open spec fn setting(v: Option<String>, default: Seq<char>) -> Seq<char> {
    match v {
        Some(s) => s@,
        None => default,
    }
}

/// The port a text denotes, if it is a number that fits in 16 bits.
pub open spec fn parsed_port(s: Seq<char>) -> Option<u16> {
    match parsed_u64(s) {
        Some(n) => if n <= u16::MAX {
            Some(n as u16)
        } else {
            None
        },
        None => None,
    }
}

fn setting_text(v: Option<String>, default: &str) -> (r: String)
    ensures
        r@ == setting(v, default@),
{
    match v {
        Some(s) => s,
        None => String::from_str(default),
    }
}

impl Config {
    /// Builds the settings from the values found for `CLIENT_ID`,
    /// `MQTT_USERNAME`, `MQTT_PASSWORD` (all required), `REPORT_INTERVAL`
    /// (default 5), `STORAGE_UNIT` (GB), `NETWORK_UNIT` (MB), `MEMORY_UNIT`
    /// (GB), `MQTT_HOST` (localhost) and `MQTT_PORT` (1883). The first missing
    /// required value names the error; a number that does not parse gives
    /// `EnvParseError`.
    pub fn from_values(
        client_id: Option<String>,
        mqtt_username: Option<String>,
        mqtt_password: Option<String>,
        report_interval: Option<String>,
        storage_unit: Option<String>,
        network_unit: Option<String>,
        memory_unit: Option<String>,
        mqtt_host: Option<String>,
        mqtt_port: Option<String>,
    ) -> (r: Result<Config, Error>)
        ensures
            client_id is None ==> (r matches Err(Error::Env(k)) && k@ == "CLIENT_ID"@),
            client_id is Some && mqtt_username is None ==> (r matches Err(Error::Env(k)) && k@
                == "MQTT_USERNAME"@),
            client_id is Some && mqtt_username is Some && mqtt_password is None ==> (r matches Err(
                Error::Env(k),
            ) && k@ == "MQTT_PASSWORD"@),
            client_id is Some && mqtt_username is Some && mqtt_password is Some && (parsed_u64(
                setting(report_interval, "5"@),
            ) is None || parsed_port(setting(mqtt_port, "1883"@)) is None) ==> (r matches Err(
                Error::EnvParseError,
            )),
            client_id is Some && mqtt_username is Some && mqtt_password is Some && parsed_u64(
                setting(report_interval, "5"@),
            ) is Some && parsed_port(setting(mqtt_port, "1883"@)) is Some ==> (r matches Ok(c) && {
                &&& c.client_id@ == client_id->Some_0@
                &&& c.broker_username@ == mqtt_username->Some_0@
                &&& c.broker_password@ == mqtt_password->Some_0@
                &&& c.report_interval == parsed_u64(setting(report_interval, "5"@))->Some_0
                &&& c.storage_unit == parse_unit(setting(storage_unit, "GB"@))
                &&& c.network_unit == parse_unit(setting(network_unit, "MB"@))
                &&& c.memory_unit == parse_unit(setting(memory_unit, "GB"@))
                &&& c.broker_host@ == setting(mqtt_host, "localhost"@)
                &&& c.broker_port == parsed_port(setting(mqtt_port, "1883"@))->Some_0
                &&& c.program_name@ == "system_monitor"@
            }),
    {
        let client_id = match client_id {
            Some(v) => v,
            None => {
                return Err(Error::Env(String::from_str("CLIENT_ID")));
            },
        };
        let broker_username = match mqtt_username {
            Some(v) => v,
            None => {
                return Err(Error::Env(String::from_str("MQTT_USERNAME")));
            },
        };
        let broker_password = match mqtt_password {
            Some(v) => v,
            None => {
                return Err(Error::Env(String::from_str("MQTT_PASSWORD")));
            },
        };
        let interval_text = setting_text(report_interval, "5");
        let report_interval = match parse_u64(interval_text.as_str()) {
            Some(n) => n,
            None => {
                return Err(Error::EnvParseError);
            },
        };
        let storage_text = setting_text(storage_unit, "GB");
        let network_text = setting_text(network_unit, "MB");
        let memory_text = setting_text(memory_unit, "GB");
        let broker_host = setting_text(mqtt_host, "localhost");
        let port_text = setting_text(mqtt_port, "1883");
        let broker_port = match parse_u64(port_text.as_str()) {
            Some(n) => {
                if n <= u16::MAX as u64 {
                    n as u16
                } else {
                    return Err(Error::EnvParseError);
                }
            },
            None => {
                return Err(Error::EnvParseError);
            },
        };
        Ok(
            Config {
                broker_password,
                broker_port,
                broker_host,
                broker_username,
                storage_unit: ByteUnit::parse(storage_text.as_str()),
                network_unit: ByteUnit::parse(network_text.as_str()),
                memory_unit: ByteUnit::parse(memory_text.as_str()),
                client_id,
                program_name: String::from_str("system_monitor"),
                report_interval,
            },
        )
    }
}

} // verus!

//! Settings of the bridge, taken from environment variables.

use crate::command::Cmd;
use crate::port::{DataBits, Parity, PortSettings, PortSettingsView, StopBits};
use crate::text;
use crate::text::{parse_number, parse_numbers};
use vstd::prelude::*;

verus! {

/// Settings of the bridge.
#[derive(Clone, Debug, PartialEq, Eq)]
pub struct Config {
    pub serial_port: String,
    pub baud_rate: u32,
    pub mqtt_host: String,
    pub mqtt_port: u16,
    pub mqtt_id: String,
    pub topic_cmd: String,
    pub topic_rsp: String,
    pub topic_status: String,
    pub topic_discovered: String,
    /// The read timeout of the serial port, in milliseconds.
    pub timeout_ms: u64,
    pub scan_on_startup: bool,
    pub scan_baud_rates: Vec<u32>,
    pub scan_slave_start: u8,
    pub scan_slave_end: u8,
}

/// The baud rates to scan at where nothing else is set.
pub open spec fn standard_baud_rates() -> Seq<u32> {
    seq![9600, 4800, 19200, 38400]
}

/// The value of a variable: that of its first entry.
pub open spec fn lookup(vars: Seq<(String, String)>, key: Seq<char>) -> Option<Seq<char>>
    decreases vars.len(),
{
    if vars.len() == 0 {
        None
    } else if vars[0].0@ == key {
        Some(vars[0].1@)
    } else {
        lookup(vars.drop_first(), key)
    }
}

/// The text in a variable, or a default where it is not set.
pub open spec fn text_var(
    vars: Seq<(String, String)>,
    key: Seq<char>,
    default: Seq<char>,
) -> Seq<char> {
    match lookup(vars, key) {
        Some(value) => value,
        None => default,
    }
}

/// The number in a variable, or a default where it is not set or holds no number up to `max`.
pub open spec fn number_var(
    vars: Seq<(String, String)>,
    key: Seq<char>,
    default: nat,
    max: nat,
) -> nat {
    match lookup(vars, key) {
        Some(value) => match text::number(value, max) {
            Some(n) => n,
            None => default,
        },
        None => default,
    }
}

/// The switch in a variable, or a default where it is not set or is none of the known words.
pub open spec fn bool_var(vars: Seq<(String, String)>, key: Seq<char>, default: bool) -> bool {
    match lookup(vars, key) {
        Some(value) => if value == "true"@ || value == "1"@ || value == "yes"@ {
            true
        } else if value == "false"@ || value == "0"@ || value == "no"@ {
            false
        } else {
            default
        },
        None => default,
    }
}

/// The list of numbers in a variable, or a default where it is not set or holds no number.
pub open spec fn rates_var(
    vars: Seq<(String, String)>,
    key: Seq<char>,
    default: Seq<u32>,
) -> Seq<u32> {
    match lookup(vars, key) {
        Some(value) => if text::numbers(text::fields(value)).len() > 0 {
            text::numbers(text::fields(value))
        } else {
            default
        },
        None => default,
    }
}

/// Looks a variable up.
fn env_var<'a>(vars: &'a Vec<(String, String)>, key: &str) -> (value: Option<&'a String>)
    ensures
        match value {
            Some(value) => lookup(vars@, key@) == Some(value@),
            None => lookup(vars@, key@) is None,
        },
{
    let wanted: String = key.to_string();
    let mut i: usize = 0;
    assert(vars@.skip(0) =~= vars@);
    while i < vars.len()
        invariant
            i <= vars@.len(),
            wanted@ == key@,
            lookup(vars@.skip(i as int), key@) == lookup(vars@, key@),
        decreases vars@.len() - i,
    {
        let entry: &(String, String) = &vars[i];
        if entry.0 == wanted {
            return Some(&entry.1);
        }
        assert(vars@.skip(i as int).drop_first() =~= vars@.skip(i + 1));
        i += 1;
    }
    None
}

/// The text in a variable, or a default where it is not set.
pub fn env_str(vars: &Vec<(String, String)>, key: &str, default: &str) -> (value: String)
    ensures
        value@ == text_var(vars@, key@, default@),
{
    match env_var(vars, key) {
        Some(value) => value.clone(),
        None => default.to_string(),
    }
}

/// The number in a variable, or a default where it is not set or holds no number up to `max`.
pub fn env_num(vars: &Vec<(String, String)>, key: &str, default: u64, max: u64) -> (value: u64)
    ensures
        value == number_var(vars@, key@, default as nat, max as nat),
        default <= max ==> value <= max,
{
    match env_var(vars, key) {
        Some(value) => match parse_number(value.as_str(), max) {
            Some(n) => n,
            None => default,
        },
        None => default,
    }
}

/// The switch in a variable, or a default where it is not set or is none of the known words.
pub fn env_bool(vars: &Vec<(String, String)>, key: &str, default: bool) -> (value: bool)
    ensures
        value == bool_var(vars@, key@, default),
{
    match env_var(vars, key) {
        Some(value) => if *value == "true".to_string() || *value == "1".to_string() || *value
            == "yes".to_string() {
            true
        } else if *value == "false".to_string() || *value == "0".to_string() || *value
            == "no".to_string() {
            false
        } else {
            default
        },
        None => default,
    }
}

/// The list of baud rates in a variable, or a default where it is not set or holds no number.
pub fn env_baud_rates(vars: &Vec<(String, String)>, key: &str, default: Vec<u32>) -> (rates: Vec<
    u32,
>)
    ensures
        rates@ == rates_var(vars@, key@, default@),
{
    match env_var(vars, key) {
        Some(value) => {
            let rates: Vec<u32> = parse_numbers(value.as_str());
            if rates.len() > 0 {
                rates
            } else {
                default
            }
        },
        None => default,
    }
}

/// The baud rates to scan at where nothing else is set.
fn standard_rates() -> (rates: Vec<u32>)
    ensures
        rates@ == standard_baud_rates(),
{
    let rates: Vec<u32> = vec![9600, 4800, 19200, 38400];
    assert(rates@ =~= standard_baud_rates());
    rates
}

/// The baud rates of a scan that names none: those in the settings.
pub fn default_scan_baud_rates(config: &Config) -> (rates: Vec<u32>)
    ensures
        rates@ == config.scan_baud_rates@,
{
    let rates: Vec<u32> = config.scan_baud_rates.clone();
    assert(rates@ =~= config.scan_baud_rates@);
    rates
}

/// The first slave id of a scan that names none: that in the settings.
pub fn default_scan_slave_start(config: &Config) -> (id: u8)
    ensures
        id == config.scan_slave_start,
{
    config.scan_slave_start
}

/// The last slave id of a scan that names none: that in the settings.
pub fn default_scan_slave_end(config: &Config) -> (id: u8)
    ensures
        id == config.scan_slave_end,
{
    config.scan_slave_end
}

impl Config {
    /// The serial port of the bridge, as it is opened.
    pub open spec fn port(self) -> PortSettingsView {
        PortSettingsView {
            path: self.serial_port@,
            baud_rate: self.baud_rate,
            data_bits: DataBits::Eight,
            parity: Parity::Absent,
            stop_bits: StopBits::One,
            timeout_ms: self.timeout_ms,
        }
    }

    /// The serial port of the bridge, as it is opened: with eight data bits, no parity and one
    /// stop bit.
    pub fn port_settings(&self) -> (settings: PortSettings)
        ensures
            settings@ == self.port(),
    {
        PortSettings {
            path: self.serial_port.clone(),
            baud_rate: self.baud_rate,
            data_bits: DataBits::Eight,
            parity: Parity::Absent,
            stop_bits: StopBits::One,
            timeout_ms: self.timeout_ms,
        }
    }

    /// Whether a command asks for a scan of all baud rates and slave ids in the settings.
    pub open spec fn scanned_by(self, cmd: Cmd) -> bool {
        match cmd {
            Cmd::ScanBus { baud_rates, slave_id_start, slave_id_end, .. } => {
                &&& baud_rates@ == self.scan_baud_rates@
                &&& slave_id_start == self.scan_slave_start
                &&& slave_id_end == self.scan_slave_end
            },
            _ => false,
        }
    }

    /// The scan that was asked for. What the request leaves out is taken from the settings.
    pub fn scan_command(
        &self,
        baud_rates: Option<Vec<u32>>,
        slave_id_start: Option<u8>,
        slave_id_end: Option<u8>,
        request_id: Option<String>,
    ) -> (cmd: Cmd)
        ensures
            match cmd {
                Cmd::ScanBus {
                    baud_rates: rates,
                    slave_id_start: first,
                    slave_id_end: last,
                    request_id: tag,
                } => {
                    &&& rates@ == (match baud_rates {
                        Some(given) => given@,
                        None => self.scan_baud_rates@,
                    })
                    &&& first == (match slave_id_start {
                        Some(given) => given,
                        None => self.scan_slave_start,
                    })
                    &&& last == (match slave_id_end {
                        Some(given) => given,
                        None => self.scan_slave_end,
                    })
                    &&& tag == request_id
                },
                _ => false,
            },
    {
        Cmd::ScanBus {
            baud_rates: match baud_rates {
                Some(given) => given,
                None => default_scan_baud_rates(self),
            },
            slave_id_start: match slave_id_start {
                Some(given) => given,
                None => default_scan_slave_start(self),
            },
            slave_id_end: match slave_id_end {
                Some(given) => given,
                None => default_scan_slave_end(self),
            },
            request_id,
        }
    }

    /// The settings that the variables ask for. What is not set, or not understood, takes its
    /// default.
    pub fn from_env(vars: &Vec<(String, String)>) -> (config: Config)
        ensures
            config.serial_port@ == text_var(vars@, "SERIAL_PORT"@, "/dev/ttyUSB0"@),
            config.baud_rate == number_var(vars@, "BAUD_RATE"@, 9600, u32::MAX as nat),
            config.mqtt_host@ == text_var(vars@, "MQTT_HOST"@, "localhost"@),
            config.mqtt_port == number_var(vars@, "MQTT_PORT"@, 1883, u16::MAX as nat),
            config.mqtt_id@ == text_var(vars@, "MQTT_CLIENT_ID"@, "modbus-bridge"@),
            config.topic_cmd@ == text_var(vars@, "TOPIC_COMMAND"@, "modbus/command"@),
            config.topic_rsp@ == text_var(vars@, "TOPIC_RESPONSE"@, "modbus/response"@),
            config.topic_status@ == text_var(vars@, "TOPIC_STATUS"@, "modbus/status"@),
            config.topic_discovered@ == text_var(
                vars@,
                "TOPIC_DISCOVERED"@,
                "modbus/discovered"@,
            ),
            config.timeout_ms == number_var(vars@, "TIMEOUT_MS"@, 1000, u64::MAX as nat),
            config.scan_on_startup == bool_var(vars@, "SCAN_ON_STARTUP"@, true),
            config.scan_baud_rates@ == rates_var(
                vars@,
                "SCAN_BAUD_RATES"@,
                standard_baud_rates(),
            ),
            config.scan_slave_start == number_var(vars@, "SCAN_SLAVE_START"@, 1, u8::MAX as nat),
            config.scan_slave_end == number_var(vars@, "SCAN_SLAVE_END"@, 20, u8::MAX as nat),
    {
        Config {
            serial_port: env_str(vars, "SERIAL_PORT", "/dev/ttyUSB0"),
            baud_rate: env_num(vars, "BAUD_RATE", 9600, u32::MAX as u64) as u32,
            mqtt_host: env_str(vars, "MQTT_HOST", "localhost"),
            mqtt_port: env_num(vars, "MQTT_PORT", 1883, u16::MAX as u64) as u16,
            mqtt_id: env_str(vars, "MQTT_CLIENT_ID", "modbus-bridge"),
            topic_cmd: env_str(vars, "TOPIC_COMMAND", "modbus/command"),
            topic_rsp: env_str(vars, "TOPIC_RESPONSE", "modbus/response"),
            topic_status: env_str(vars, "TOPIC_STATUS", "modbus/status"),
            topic_discovered: env_str(vars, "TOPIC_DISCOVERED", "modbus/discovered"),
            timeout_ms: env_num(vars, "TIMEOUT_MS", 1000, u64::MAX),
            scan_on_startup: env_bool(vars, "SCAN_ON_STARTUP", true),
            scan_baud_rates: env_baud_rates(vars, "SCAN_BAUD_RATES", standard_rates()),
            scan_slave_start: env_num(vars, "SCAN_SLAVE_START", 1, u8::MAX as u64) as u8,
            scan_slave_end: env_num(vars, "SCAN_SLAVE_END", 20, u8::MAX as u64) as u8,
        }
    }
}

} // verus!

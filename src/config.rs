//! Configuration of a polling session: the channel to a device and the
//! variables to poll on it.
use vstd::prelude::*;
use crate::task::CommandType;

verus! {

/// Where a polled variable lives on the device.
#[derive(Clone, Copy, Debug, PartialEq, Eq, Structural)]
pub enum ModbusStorage {
    /// Discrete input.
    DI,
    /// Coil (discrete output).
    DO,
    /// Input register.
    AI,
    /// Holding register.
    AO,
}

/// The lower-case form of `s`, as `str::to_lowercase` gives it.
pub uninterp spec fn lower_of(s: Seq<char>) -> Seq<char>;

/// Relies on `str::to_lowercase`: the result depends on the characters alone.
#[verifier::external_body]
fn lowercase(s: &str) -> (r: String)
    ensures
        r@ == lower_of(s@),
{
    s.to_lowercase()
}

/// The storage a lower-case storage name stands for: "di", "do", "ai" or
/// "ao"; any other name stands for input registers.
pub open spec fn storage_of(s: Seq<char>) -> ModbusStorage {
    if s == seq!['d', 'i'] {
        ModbusStorage::DI
    } else if s == seq!['d', 'o'] {
        ModbusStorage::DO
    } else if s == seq!['a', 'o'] {
        ModbusStorage::AO
    } else {
        ModbusStorage::AI
    }
}

/// The read command for each storage.
pub open spec fn read_command(s: ModbusStorage) -> CommandType {
    match s {
        ModbusStorage::DI => CommandType::ReadInputStatus,
        ModbusStorage::DO => CommandType::ReadCoilStatus,
        ModbusStorage::AI => CommandType::ReadInputRegisters,
        ModbusStorage::AO => CommandType::ReadHoldingRegisters,
    }
}

impl ModbusStorage {
    /// The storage named by `s`, already in lower case.
    pub fn from_lowercase(s: &str) -> (r: ModbusStorage)
        ensures
            r == storage_of(s@),
    {
        if s.unicode_len() != 2 {
            return ModbusStorage::AI;
        }
        let a = s.get_char(0);
        let b = s.get_char(1);
        if a == 'd' && b == 'i' {
            assert(s@ =~= seq!['d', 'i']);
            ModbusStorage::DI
        } else if a == 'd' && b == 'o' {
            assert(s@ =~= seq!['d', 'o']);
            ModbusStorage::DO
        } else if a == 'a' && b == 'o' {
            assert(s@ =~= seq!['a', 'o']);
            ModbusStorage::AO
        } else {
            ModbusStorage::AI
        }
    }

    /// The command that reads a variable of this storage: coils 0x01,
    /// discrete inputs 0x02, holding registers 0x03, input registers 0x04.
    pub fn command(&self) -> (r: CommandType)
        ensures
            r == read_command(*self),
    {
        match self {
            ModbusStorage::DI => CommandType::ReadInputStatus,
            ModbusStorage::DO => CommandType::ReadCoilStatus,
            ModbusStorage::AI => CommandType::ReadInputRegisters,
            ModbusStorage::AO => CommandType::ReadHoldingRegisters,
        }
    }
}

impl From<String> for ModbusStorage {
    /// The storage named by `value`, in any case.
    fn from(value: String) -> (r: ModbusStorage)
        ensures
            r == storage_of(lower_of(value@)),
    {
        let lowered = lowercase(value.as_str());
        ModbusStorage::from_lowercase(lowered.as_str())
    }
}

impl vstd::std_specs::convert::FromSpecImpl<String> for ModbusStorage {
    open spec fn obeys_from_spec() -> bool {
        true
    }

    open spec fn from_spec(value: String) -> ModbusStorage {
        storage_of(lower_of(value@))
    }
}

/// A variable to poll, as the configuration file describes it.
#[derive(Clone, Debug)]
pub struct ConfigItem {
    /// Storage name: "DI", "DO", "AI" or "AO", in any case.
    pub storage: String,
    pub id: u16,
    pub unit_id: u8,
    pub name: String,
    pub start: u16,
}

/// A variable to poll, with its storage resolved.
#[derive(Clone, Debug)]
pub struct ModbusRequestItems {
    pub storage: ModbusStorage,
    pub id: u16,
    pub unit_id: u8,
    pub name: String,
    pub start: u16,
}

impl From<ConfigItem> for ModbusRequestItems {
    fn from(value: ConfigItem) -> (r: ModbusRequestItems)
        ensures
            r.storage == storage_of(lower_of(value.storage@)),
            r.id == value.id,
            r.unit_id == value.unit_id,
            r.name == value.name,
            r.start == value.start,
    {
        ModbusRequestItems {
            storage: ModbusStorage::from(value.storage.clone()),
            id: value.id,
            unit_id: value.unit_id,
            name: value.name,
            start: value.start,
        }
    }
}

impl vstd::std_specs::convert::FromSpecImpl<ConfigItem> for ModbusRequestItems {
    open spec fn obeys_from_spec() -> bool {
        true
    }

    open spec fn from_spec(value: ConfigItem) -> ModbusRequestItems {
        ModbusRequestItems {
            storage: storage_of(lower_of(value.storage@)),
            id: value.id,
            unit_id: value.unit_id,
            name: value.name,
            start: value.start,
        }
    }
}

/// One entry of the flat configuration list: where to poll which variable.
#[derive(Clone, Debug)]
pub struct ConfigItems {
    pub host: String,
    pub port: i64,
    pub pause: i64,
    pub var_name: String,
    pub storage_type: String,
}

/// The connection settings as the configuration file gives them; each may
/// be left out. The timeout is in milliseconds.
#[derive(Clone, Debug)]
pub struct ChannelConfig {
    pub host: Option<String>,
    pub port: Option<u32>,
    /// Serial device path (RTU only).
    pub path: Option<String>,
    /// Serial line speed (RTU only).
    pub baud_rate: Option<u64>,
    pub timeout_ms: Option<u64>,
}

/// Opens a connection to a device.
pub trait Connect {
    type Output;

    fn connect(&self) -> Self::Output;
}

/// The settings of a TCP connection, defaults filled in.
pub struct ChannelTcp {
    host: String,
    port: u32,
    timeout_ms: u64,
}

/// The default host of a channel.
pub open spec fn default_host() -> Seq<char> {
    seq!['1', '2', '7', '.', '0', '.', '0', '.', '1']
}

/// The decimal digit `d`.
pub open spec fn digit_char(d: nat) -> char {
    if d == 0 { '0' } else if d == 1 { '1' } else if d == 2 { '2' } else if d == 3 { '3' }
    else if d == 4 { '4' } else if d == 5 { '5' } else if d == 6 { '6' } else if d == 7 { '7' }
    else if d == 8 { '8' } else { '9' }
}

/// `n` written in decimal, without leading zeros.
pub open spec fn decimal(n: nat) -> Seq<char>
    decreases n,
{
    if n < 10 {
        seq![digit_char(n)]
    } else {
        decimal(n / 10) + seq![digit_char(n % 10)]
    }
}

/// The decimal digit `d` as text.
fn digit_text(d: u32) -> (r: &'static str)
    requires
        d < 10,
    ensures
        r@ == seq![digit_char(d as nat)],
{
    proof {
        reveal_strlit("0");
        reveal_strlit("1");
        reveal_strlit("2");
        reveal_strlit("3");
        reveal_strlit("4");
        reveal_strlit("5");
        reveal_strlit("6");
        reveal_strlit("7");
        reveal_strlit("8");
        reveal_strlit("9");
    }
    match d {
        0 => "0",
        1 => "1",
        2 => "2",
        3 => "3",
        4 => "4",
        5 => "5",
        6 => "6",
        7 => "7",
        8 => "8",
        _ => "9",
    }
}

/// `n` written in decimal.
fn decimal_text(n: u32) -> (r: String)
    ensures
        r@ == decimal(n as nat),
    decreases n,
{
    if n < 10 {
        String::from_str(digit_text(n))
    } else {
        let mut r = decimal_text(n / 10);
        r.append(digit_text(n % 10));
        r
    }
}

impl ChannelTcp {
    /// The host, as text.
    pub closed spec fn host_text(&self) -> Seq<char> {
        self.host@
    }

    /// The port number.
    pub closed spec fn port_number(&self) -> u32 {
        self.port
    }

    /// The timeout, in milliseconds.
    pub closed spec fn timeout_millis(&self) -> u64 {
        self.timeout_ms
    }

    /// The host name or address.
    pub fn host(&self) -> (r: &String)
        ensures
            r@ == self.host_text(),
    {
        &self.host
    }

    /// The TCP port.
    pub fn port(&self) -> (r: u32)
        ensures
            r == self.port_number(),
    {
        self.port
    }

    /// The read and write timeout, in milliseconds.
    pub fn timeout_ms(&self) -> (r: u64)
        ensures
            r == self.timeout_millis(),
    {
        self.timeout_ms
    }

    /// The address to connect to: `host:port`.
    pub fn url(&self) -> (r: String)
        ensures
            r@ == self.host_text() + seq![':'] + decimal(self.port_number() as nat),
    {
        let port = decimal_text(self.port);
        proof {
            reveal_strlit(":");
        }
        String::from_str(self.host.as_str()).concat(":").concat(port.as_str())
    }
}

impl From<ChannelConfig> for ChannelTcp {
    /// The settings of `value`, with host 127.0.0.1, port 502 and a timeout of
    /// 300 ms where it gives none.
    fn from(value: ChannelConfig) -> (r: ChannelTcp)
        ensures
            r.host_text() == match value.host {
                Some(h) => h@,
                None => default_host(),
            },
            r.port_number() == match value.port {
                Some(p) => p,
                None => 502,
            },
            r.timeout_millis() == match value.timeout_ms {
                Some(t) => t,
                None => 300,
            },
    {
        let host = match value.host {
            Some(host) => host,
            None => {
                let h = String::from_str("127.0.0.1");
                proof {
                    reveal_strlit("127.0.0.1");
                }
                assert(h@ =~= default_host());
                h
            },
        };
        ChannelTcp {
            host,
            port: match value.port {
                Some(port) => port,
                None => 502,
            },
            timeout_ms: match value.timeout_ms {
                Some(timeout) => timeout,
                None => 300,
            },
        }
    }
}

impl vstd::std_specs::convert::FromSpecImpl<ChannelConfig> for ChannelTcp {
    /// The default host is built at run time, so `from` states its result in
    /// its own `ensures` instead.
    open spec fn obeys_from_spec() -> bool {
        false
    }

    open spec fn from_spec(value: ChannelConfig) -> ChannelTcp {
        arbitrary()
    }
}

} // verus!

//! Values that the configuration files and the environment give as text.

use vstd::prelude::*;
use crate::addr::{parse_socket, socket_addr_from_text, SocketAddr, LOCALHOST};
use crate::text::{
    decimal, is_digit, law_decimal_denotes_its_number, parse_unsigned, unsigned_digits,
    unsigned_from_text,
};

verus! {

/// A text that is neither a socket address nor a port.
#[derive(Clone, Copy, PartialEq, Eq, Structural, Debug)]
pub struct AddressError;

impl AddressError {
    /// What the error says.
    pub fn message(&self) -> (r: String)
        ensures
            r@ == "cannot parse listen address into socket address"@,
    {
        "cannot parse listen address into socket address".to_owned()
    }
}

/// The address to listen on, given what the text is as a socket address: that
/// address, or the port that the text names on the local host.
pub open spec fn listen_address(parsed: Option<SocketAddr>, text: Seq<char>) -> Option<SocketAddr> {
    match parsed {
        Some(addr) => Some(addr),
        None => match unsigned_from_text(text, u16::MAX as nat) {
            Some(port) => Some(SocketAddr::V4 { ip: LOCALHOST, port: port as u16 }),
            None => None,
        },
    }
}

/// Decides between a parsed socket address and a text that is only a port.
pub fn choose_listen_address(parsed: Option<SocketAddr>, address: &str) -> (r: Result<
    SocketAddr,
    AddressError,
>)
    ensures
        match listen_address(parsed, address@) {
            Some(addr) => r == Ok::<SocketAddr, AddressError>(addr),
            None => r is Err,
        },
{
    if let Some(addr) = parsed {
        return Ok(addr);
    }
    match parse_unsigned(address, 65535) {
        Some(port) => Ok(SocketAddr::V4 { ip: LOCALHOST, port: port as u16 }),
        None => Err(AddressError),
    }
}

/// The socket address that a text denotes: a full one, as in `127.0.0.1:8081`,
/// or only a port, as in `8081`, on the local host.
pub fn parse_socket_address(address: &str) -> (r: Result<SocketAddr, AddressError>)
    ensures
        match listen_address(socket_addr_from_text(address@), address@) {
            Some(addr) => r == Ok::<SocketAddr, AddressError>(addr),
            None => r is Err,
        },
{
    choose_listen_address(parse_socket(address), address)
}

/// How much is logged.
#[derive(Clone, Copy, PartialEq, Eq, Structural, Debug)]
pub enum LogLevel {
    Error,
    Warn,
    Info,
    Debug,
    Trace,
}

/// The lower case of an ASCII letter, any other character as it is.
pub open spec fn ascii_lower(c: char) -> char {
    if 'A' as int <= c as int <= 'Z' as int {
        (c as int + 32) as char
    } else {
        c
    }
}

/// Whether two texts are the same but for the case of ASCII letters.
pub open spec fn same_ignoring_case(a: Seq<char>, b: Seq<char>) -> bool {
    a.len() == b.len() && forall|i: int|
        0 <= i < a.len() ==> ascii_lower(#[trigger] a[i]) == ascii_lower(b[i])
}

/// The level that a text names: by a number from 1 to 5, or by its name in any
/// case.
pub open spec fn level_from_text(s: Seq<char>) -> Option<LogLevel> {
    let number = unsigned_from_text(s, usize::MAX as nat);
    if number == Some(1nat) || same_ignoring_case(s, "error"@) {
        Some(LogLevel::Error)
    } else if number == Some(2nat) || same_ignoring_case(s, "warn"@) {
        Some(LogLevel::Warn)
    } else if number == Some(3nat) || same_ignoring_case(s, "info"@) {
        Some(LogLevel::Info)
    } else if number == Some(4nat) || same_ignoring_case(s, "debug"@) {
        Some(LogLevel::Debug)
    } else if number == Some(5nat) || same_ignoring_case(s, "trace"@) {
        Some(LogLevel::Trace)
    } else {
        None
    }
}

/// Calls `str::parse::<tracing::Level>`, which takes the numbers 1 to 5, most
/// severe first, and the five names without regard to the case of ASCII letters.
#[verifier::external_body]
fn parse_level(s: &str) -> (r: Option<LogLevel>)
    ensures
        r == level_from_text(s@),
{
    match s.parse::<tracing::Level>() {
        Ok(tracing::Level::ERROR) => Some(LogLevel::Error),
        Ok(tracing::Level::WARN) => Some(LogLevel::Warn),
        Ok(tracing::Level::INFO) => Some(LogLevel::Info),
        Ok(tracing::Level::DEBUG) => Some(LogLevel::Debug),
        Ok(tracing::Level::TRACE) => Some(LogLevel::Trace),
        Err(_) => None,
    }
}

/// The level of the configuration file, or of the environment variable in its
/// place where that is set. A text that names no level stands for errors only.
pub fn parse_log_level_str(log_level: &str, env: Option<String>) -> (r: LogLevel)
    ensures
        ({
            let text = match env {
                Some(value) => value@,
                None => log_level@,
            };
            r == match level_from_text(text) {
                Some(level) => level,
                None => LogLevel::Error,
            }
        }),
{
    let level: Option<LogLevel> = match env {
        Some(value) => parse_level(value.as_str()),
        None => parse_level(log_level),
    };
    match level {
        Some(level) => level,
        None => LogLevel::Error,
    }
}

/// A text that is a socket address is that address. One that is none but the decimal
/// notation of a port is that port on the local host, 127.0.0.1, for every port there is,
/// and any other text is refused.
pub proof fn law_address_or_port(
    text: &str,
    r: Result<SocketAddr, AddressError>,
    port: u16,
    i: int,
)
    requires
        call_ensures(parse_socket_address, (text,), r),
    ensures
        socket_addr_from_text(text@) matches Some(addr) ==> r == Ok::<SocketAddr, AddressError>(
            addr,
        ),
        socket_addr_from_text(text@) is None && text@ == decimal(port as nat) ==> r == Ok::<
            SocketAddr,
            AddressError,
        >(SocketAddr::V4 { ip: 0x7f00_0001, port }),
        socket_addr_from_text(text@) is None && r is Ok ==> (r matches Ok(SocketAddr::V4 {
            ip,
            ..
        }) && ip == 0x7f00_0001),
        socket_addr_from_text(text@) is None && 0 <= i < text@.len() && (text@[i] < '0' || text@[i]
            > '9') && (i > 0 || text@[i] != '+') ==> r is Err,
        socket_addr_from_text(text@) is None && text@.len() == 0 ==> r is Err,
{
    if text@ == decimal(port as nat) {
        law_decimal_denotes_its_number(port as nat);
        assert('0' <= text@[0] <= '9');
        assert forall|k: int| 0 <= k < text@.len() implies is_digit(#[trigger] text@[k]) by {
            assert('0' <= text@[k] <= '9');
        }
    }
    if 0 <= i < text@.len() && (text@[i] < '0' || text@[i] > '9') && (i > 0 || text@[i] != '+') {
        let digits = unsigned_digits(text@);
        if text@[0] == '+' {
            assert(digits[i - 1] == text@[i]);
            assert(!is_digit(digits[i - 1]));
        } else {
            assert(digits[i] == text@[i]);
            assert(!is_digit(digits[i]));
        }
    }
}

/// The environment goes before the file: where it is set, the file makes no difference, and
/// where it is not, the level is the one that the same text would give there.
pub proof fn law_environment_goes_first(
    file: &str,
    other_file: &str,
    env: String,
    x: LogLevel,
    y: LogLevel,
    z: LogLevel,
)
    requires
        call_ensures(parse_log_level_str, (file, Some(env)), x),
        call_ensures(parse_log_level_str, (other_file, Some(env)), y),
        call_ensures(parse_log_level_str, (file, None), z),
    ensures
        x == y,
        file@ == env@ ==> z == x,
{
}

/// A level is named by its place among the five, the most severe first, or by its name in any
/// case. A text that is neither a number nor as long as a name stands for errors only.
pub proof fn law_levels_by_name_and_number(text: &str, level: LogLevel, number: nat)
    requires
        call_ensures(parse_log_level_str, (text, None), level),
    ensures
        text@ == decimal(number) && number <= 0xffff_ffff ==> level == (if number == 2 {
            LogLevel::Warn
        } else if number == 3 {
            LogLevel::Info
        } else if number == 4 {
            LogLevel::Debug
        } else if number == 5 {
            LogLevel::Trace
        } else {
            LogLevel::Error
        }),
        same_ignoring_case(text@, seq!['e', 'r', 'r', 'o', 'r']) ==> level is Error,
        same_ignoring_case(text@, seq!['w', 'a', 'r', 'n']) ==> level is Warn,
        same_ignoring_case(text@, seq!['i', 'n', 'f', 'o']) ==> level is Info,
        same_ignoring_case(text@, seq!['d', 'e', 'b', 'u', 'g']) ==> level is Debug,
        same_ignoring_case(text@, seq!['t', 'r', 'a', 'c', 'e']) ==> level is Trace,
        text@.len() == 0 || (text@[0] != '+' && !('0' <= text@[0] <= '9') && text@.len() != 4
            && text@.len() != 5) ==> level is Error,
{
    reveal_strlit("error");
    reveal_strlit("warn");
    reveal_strlit("info");
    reveal_strlit("debug");
    reveal_strlit("trace");
    assert("error"@ =~= seq!['e', 'r', 'r', 'o', 'r']);
    assert("warn"@ =~= seq!['w', 'a', 'r', 'n']);
    assert("info"@ =~= seq!['i', 'n', 'f', 'o']);
    assert("debug"@ =~= seq!['d', 'e', 'b', 'u', 'g']);
    assert("trace"@ =~= seq!['t', 'r', 'a', 'c', 'e']);
    let digits = unsigned_digits(text@);
    if text@.len() > 0 && text@[0] != '+' && !('0' <= text@[0] <= '9') {
        assert(!is_digit(digits[0]));
    }
    if text@ == decimal(number) && number <= 0xffff_ffff {
        law_decimal_denotes_its_number(number);
        assert('0' <= text@[0] <= '9');
        assert forall|k: int| 0 <= k < text@.len() implies is_digit(#[trigger] text@[k]) by {
            assert('0' <= text@[k] <= '9');
        }
        assert(ascii_lower(text@[0]) == text@[0]);
    }
    if text@.len() > 0 {
        assert(ascii_lower(text@[0]) == 'e' || ascii_lower(text@[0]) == 'w' || ascii_lower(text@[0])
            == 'i' || ascii_lower(text@[0]) == 'd' || ascii_lower(text@[0]) == 't' ==> text@[0]
            != '+' && !('0' <= text@[0] <= '9'));
    }
}

} // verus!

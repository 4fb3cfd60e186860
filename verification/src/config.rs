use vstd::prelude::*;

use crate::text::chars_of;

verus! {

// ---------------------------------------------------------------------------
// Decimal numbers as `str::parse` reads them for unsigned integers
// ---------------------------------------------------------------------------

pub open spec fn is_digit(c: char) -> bool {
    '0' <= c && c <= '9'
}

/// Value of a string of decimal digits.
pub open spec fn digits_value(d: Seq<char>) -> nat
    decreases d.len(),
{
    if d.len() == 0 {
        0
    } else {
        digits_value(d.drop_last()) * 10 + ((d.last() as int - 48) as nat)
    }
}

/// The digits of an unsigned number: an optional leading '+', then at
/// least one decimal digit and nothing else.
pub open spec fn unsigned_digits(s: Seq<char>) -> Option<Seq<char>> {
    if sign_stripped(s).len() > 0 && forall|i: int| 0 <= i < sign_stripped(s).len() ==> is_digit(#[trigger] sign_stripped(s)[i]) {
        Some(sign_stripped(s))
    } else {
        None
    }
}

/// `s` without one leading '+'.
pub open spec fn sign_stripped(s: Seq<char>) -> Seq<char> {
    if s.len() > 0 && s[0] == '+' {
        s.skip(1)
    } else {
        s
    }
}

/// The value `s` parses to as an unsigned number at most `max`; `None` when
/// it is malformed or too large.
pub open spec fn parse_unsigned(s: Seq<char>, max: nat) -> Option<nat> {
    match unsigned_digits(s) {
        Some(d) => if digits_value(d) <= max {
            Some(digits_value(d))
        } else {
            None
        },
        None => None,
    }
}

proof fn lemma_digits_value_grows(d: Seq<char>, k: int)
    requires
        0 <= k <= d.len(),
    ensures
        digits_value(d.take(k)) <= digits_value(d),
    decreases d.len() - k,
{
    if k < d.len() {
        lemma_digits_value_grows(d, k + 1);
        assert(d.take(k + 1).drop_last() =~= d.take(k));
    } else {
        assert(d.take(k) =~= d);
    }
}

/// Parses `s` as an unsigned decimal number no larger than `max`.
pub fn parse_decimal(s: &str, max: u64) -> (r: Option<u64>)
    ensures
        match r {
            Some(v) => parse_unsigned(s@, max as nat) == Some(v as nat),
            None => parse_unsigned(s@, max as nat) is None,
        },
{
    let v = chars_of(s);
    let start: usize = if v.len() > 0 && v[0] == '+' { 1 } else { 0 };
    let ghost d = if v@.len() > 0 && v@[0] == '+' { v@.skip(1) } else { v@ };
    assert(d =~= v@.skip(start as int));
    if start == v.len() {
        return None;
    }
    let mut val: u64 = 0;
    let mut i: usize = start;
    while i < v.len()
        invariant
            start <= i <= v@.len(),
            v@ == s@,
            start < v@.len(),
            d == v@.skip(start as int),
            d == sign_stripped(s@),
            forall|j: int| 0 <= j < i - start ==> is_digit(#[trigger] d[j]),
            val as nat == digits_value(d.take(i - start)),
            val <= max,
        decreases v.len() - i,
    {
        let c = v[i];
        if !('0' <= c && c <= '9') {
            assert(d[i - start] == c);
            assert(!is_digit(d[i - start]));
            return None;
        }
        let digit: u64 = ((c as u32) - 48) as u64;
        assert(d.take(i - start + 1).drop_last() =~= d.take(i - start));
        let next: u128 = (val as u128) * 10 + (digit as u128);
        if next > max as u128 {
            proof {
                lemma_digits_value_grows(d, i - start + 1);
            }
            return None;
        }
        val = next as u64;
        i = i + 1;
    }
    assert(d.take(i - start) =~= d);
    Some(val)
}

// ---------------------------------------------------------------------------
// Application configuration
// ---------------------------------------------------------------------------

/// Application configuration.
#[derive(Clone, Debug)]
pub struct AppConfig {
    /// HTTP server bind port.
    pub server_port: u16,
    /// Database connection URL (sqlite:// / postgresql:// / mysql://).
    pub database_url: String,
    /// Secret token for admin API access.
    pub admin_secret: String,
    /// Health check interval in seconds.
    pub health_check_interval_secs: u64,
}

/// Why a configuration was refused.
#[derive(Clone, Copy, Debug, PartialEq, Eq, Structural)]
pub enum ConfigError {
    InvalidServerPort,
    MissingAdminSecret,
    InvalidHealthCheckInterval,
}

pub open spec fn config_error_message(e: ConfigError) -> Seq<char> {
    match e {
        ConfigError::InvalidServerPort => "SERVER_PORT must be a valid port number"@,
        ConfigError::MissingAdminSecret => "ADMIN_SECRET environment variable must be set"@,
        ConfigError::InvalidHealthCheckInterval => "HEALTH_CHECK_INTERVAL must be a valid number of seconds"@,
    }
}

impl ConfigError {
    /// The message reported for the error.
    pub fn message(&self) -> (m: &'static str)
        ensures
            m@ == config_error_message(*self),
    {
        match self {
            ConfigError::InvalidServerPort => "SERVER_PORT must be a valid port number",
            ConfigError::MissingAdminSecret => "ADMIN_SECRET environment variable must be set",
            ConfigError::InvalidHealthCheckInterval => "HEALTH_CHECK_INTERVAL must be a valid number of seconds",
        }
    }
}

/// The text a setting takes: its value, or `default` when it is unset.
pub open spec fn setting_or(v: Option<String>, default: Seq<char>) -> Seq<char> {
    match v {
        Some(s) => s@,
        None => default,
    }
}

impl AppConfig {
    /// The configuration for the given settings (`None` = unset): port
    /// `8080`, database `sqlite://data/api_transit.db` and interval `1800`
    /// by default; the admin secret is required. The port and the interval
    /// are checked in that order, the secret between them.
    pub fn from_settings(
        server_port: Option<String>,
        database_url: Option<String>,
        admin_secret: Option<String>,
        health_check_interval: Option<String>,
    ) -> (r: Result<AppConfig, ConfigError>)
        ensures
            parse_unsigned(setting_or(server_port, "8080"@), 65535) is None
                ==> r == Err::<AppConfig, ConfigError>(ConfigError::InvalidServerPort),
            parse_unsigned(setting_or(server_port, "8080"@), 65535) is Some && admin_secret is None
                ==> r == Err::<AppConfig, ConfigError>(ConfigError::MissingAdminSecret),
            parse_unsigned(setting_or(server_port, "8080"@), 65535) is Some && admin_secret is Some
                && parse_unsigned(setting_or(health_check_interval, "1800"@), u64::MAX as nat) is None
                ==> r == Err::<AppConfig, ConfigError>(ConfigError::InvalidHealthCheckInterval),
            parse_unsigned(setting_or(server_port, "8080"@), 65535) is Some && admin_secret is Some
                && parse_unsigned(setting_or(health_check_interval, "1800"@), u64::MAX as nat) is Some
                ==> r is Ok,
            r matches Ok(c) ==> {
                &&& parse_unsigned(setting_or(server_port, "8080"@), 65535) == Some(c.server_port as nat)
                &&& c.database_url@ == setting_or(database_url, "sqlite://data/api_transit.db"@)
                &&& admin_secret == Some(c.admin_secret)
                &&& parse_unsigned(setting_or(health_check_interval, "1800"@), u64::MAX as nat)
                    == Some(c.health_check_interval_secs as nat)
            },
    {
        let port_text = match server_port {
            Some(s) => s,
            None => "8080".to_string(),
        };
        let server_port: u16 = match parse_decimal(port_text.as_str(), 65535) {
            Some(p) => p as u16,
            None => {
                return Err(ConfigError::InvalidServerPort);
            },
        };
        let database_url = match database_url {
            Some(s) => s,
            None => "sqlite://data/api_transit.db".to_string(),
        };
        let admin_secret = match admin_secret {
            Some(s) => s,
            None => {
                return Err(ConfigError::MissingAdminSecret);
            },
        };
        let interval_text = match health_check_interval {
            Some(s) => s,
            None => "1800".to_string(),
        };
        let health_check_interval_secs = match parse_decimal(interval_text.as_str(), u64::MAX) {
            Some(v) => v,
            None => {
                return Err(ConfigError::InvalidHealthCheckInterval);
            },
        };
        Ok(AppConfig { server_port, database_url, admin_secret, health_check_interval_secs })
    }
}

} // verus!

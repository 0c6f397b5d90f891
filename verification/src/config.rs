//! The settings of the service.

use vstd::prelude::*;
use vstd::string::*;
use crate::text::{decimal, decimal_string, parse_decimal, parsed_decimal};

verus! {

/// The port that the service listens on where none is set.
pub const DEFAULT_PORT: u16 = 3000;

/// The seconds that a request may take where no limit is set.
pub const DEFAULT_REQUEST_TIMEOUT_SECS: u64 = 30;

/// The bytes that the body of a request may have where no limit is set.
pub const DEFAULT_MAX_BODY_SIZE: usize = 2097152;

/// The settings of the service.
#[derive(Debug, Clone, PartialEq, Eq)]
pub struct AppConfig {
    pub host: String,
    pub port: u16,
    pub log_level: String,
    pub request_timeout_secs: u64,
    pub max_body_size: usize,
    pub jwt_secret: String,
}

/// The text that is set, or `fallback` where none is.
pub open spec fn text_or(setting: Option<String>, fallback: Seq<char>) -> Seq<char> {
    match setting {
        Some(text) => text@,
        None => fallback,
    }
}

/// The number that is set, or `fallback` where none is set or what is set
/// is not a number in base ten of at most `max`.
pub open spec fn number_or(setting: Option<String>, max: nat, fallback: nat) -> nat {
    match setting {
        Some(text) => match parsed_decimal(text@, max) {
            Some(n) => n,
            None => fallback,
        },
        None => fallback,
    }
}

fn choose_text(setting: Option<String>, fallback: &str) -> (text: String)
    ensures
        text@ == text_or(setting, fallback@),
{
    match setting {
        Some(text) => text,
        None => fallback.to_owned(),
    }
}

fn choose_number(setting: &Option<String>, max: u64, fallback: u64) -> (n: u64)
    requires
        fallback <= max,
    ensures
        n == number_or(*setting, max as nat, fallback as nat),
        n <= max,
{
    match setting {
        Some(text) => match parse_decimal(text.as_str(), max) {
            Some(n) => n,
            None => fallback,
        },
        None => fallback,
    }
}

impl AppConfig {
    /// The settings that the six variables of the environment spell out:
    /// `HOST`, `PORT`, `LOG_LEVEL`, `REQUEST_TIMEOUT_SECS`, `MAX_BODY_SIZE`
    /// and `JWT_SECRET`, each as it is set or `None`. A variable that is not
    /// set, and a number that cannot be read, give way to the default.
    pub fn from_vars(
        host: Option<String>,
        port: Option<String>,
        log_level: Option<String>,
        request_timeout_secs: Option<String>,
        max_body_size: Option<String>,
        jwt_secret: Option<String>,
    ) -> (config: Self)
        ensures
            config.host@ == text_or(host, "127.0.0.1"@),
            config.port == number_or(port, u16::MAX as nat, DEFAULT_PORT as nat),
            config.log_level@ == text_or(log_level, "info"@),
            config.request_timeout_secs == number_or(
                request_timeout_secs,
                u64::MAX as nat,
                DEFAULT_REQUEST_TIMEOUT_SECS as nat,
            ),
            config.max_body_size == number_or(
                max_body_size,
                usize::MAX as nat,
                DEFAULT_MAX_BODY_SIZE as nat,
            ),
            config.jwt_secret@ == text_or(jwt_secret, "default-secret-key-change-in-production"@),
    {
        let port = choose_number(&port, u16::MAX as u64, DEFAULT_PORT as u64);
        let request_timeout_secs = choose_number(
            &request_timeout_secs,
            u64::MAX,
            DEFAULT_REQUEST_TIMEOUT_SECS,
        );
        let max_body_size = choose_number(
            &max_body_size,
            usize::MAX as u64,
            DEFAULT_MAX_BODY_SIZE as u64,
        );
        AppConfig {
            host: choose_text(host, "127.0.0.1"),
            port: port as u16,
            log_level: choose_text(log_level, "info"),
            request_timeout_secs,
            max_body_size: max_body_size as usize,
            jwt_secret: choose_text(jwt_secret, "default-secret-key-change-in-production"),
        }
    }

    /// The address to listen on: the host, a colon, and the port.
    pub fn address(&self) -> (address: String)
        ensures
            address@ == self.host@ + ":"@ + decimal(self.port as nat),
    {
        self.host.clone().concat(":").concat(decimal_string(self.port as u64).as_str())
    }
}

} // verus!

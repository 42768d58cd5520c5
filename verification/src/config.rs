//! The settings of the service.

use vstd::prelude::*;
use vstd::string::*;
use crate::content::DEFAULT_MAX_TEXT_LENGTH;
use crate::decimal::{append_decimal, decimal_text, parse_unsigned, parse_unsigned_text};
use crate::text::chars_of;

verus! {

/// The port that the service listens on where none is configured.
pub const DEFAULT_PORT: u16 = 3000;

/// The settings of the service as plain values: what a `Config` stands for.
pub struct Settings {
    pub host: Seq<char>,
    pub port: u16,
    pub log_level: Seq<char>,
    pub max_url_length: usize,
}

impl Settings {
    /// The settings of a service for which nothing is configured.
    pub open spec fn standard() -> Settings {
        Settings {
            host: "0.0.0.0"@,
            port: DEFAULT_PORT,
            log_level: "info"@,
            max_url_length: DEFAULT_MAX_TEXT_LENGTH,
        }
    }

    /// The address to listen on: host, colon, port.
    pub open spec fn bind_address(self) -> Seq<char> {
        self.host + ":"@ + decimal_text(self.port as nat)
    }

    /// The port that `text` configures: the number it denotes where it
    /// denotes a port, the standard port otherwise.
    pub open spec fn port_from(text: Seq<char>) -> u16 {
        match parse_unsigned_text(text, u16::MAX as nat) {
            Some(port) => port as u16,
            None => DEFAULT_PORT,
        }
    }

    /// The longest text that `text` configures: the number it denotes where
    /// it denotes a length, the standard length otherwise.
    pub open spec fn max_url_length_from(text: Seq<char>) -> usize {
        match parse_unsigned_text(text, usize::MAX as nat) {
            Some(length) => length as usize,
            None => DEFAULT_MAX_TEXT_LENGTH,
        }
    }

    /// The settings that the four optional values configure: each one that is
    /// present takes the place of the standard setting.
    pub open spec fn from_values(
        host: Option<Seq<char>>,
        port: Option<Seq<char>>,
        log_level: Option<Seq<char>>,
        max_url_length: Option<Seq<char>>,
    ) -> Settings {
        Settings {
            host: match host {
                Some(text) => text,
                None => Settings::standard().host,
            },
            port: match port {
                Some(text) => Settings::port_from(text),
                None => Settings::standard().port,
            },
            log_level: match log_level {
                Some(text) => text,
                None => Settings::standard().log_level,
            },
            max_url_length: match max_url_length {
                Some(text) => Settings::max_url_length_from(text),
                None => Settings::standard().max_url_length,
            },
        }
    }
}

/// The settings of the service.
#[derive(Debug)]
pub struct Config {
    pub host: String,
    pub port: u16,
    pub log_level: String,
    pub max_url_length: usize,
}

impl View for Config {
    type V = Settings;

    open spec fn view(&self) -> Settings {
        Settings {
            host: self.host@,
            port: self.port,
            log_level: self.log_level@,
            max_url_length: self.max_url_length,
        }
    }
}

impl Clone for Config {
    fn clone(&self) -> (copy: Self)
        ensures
            copy@ == self@,
    {
        Config {
            host: self.host.clone(),
            port: self.port,
            log_level: self.log_level.clone(),
            max_url_length: self.max_url_length,
        }
    }
}

impl Default for Config {
    fn default() -> (config: Self)
        ensures
            config@ == Settings::standard(),
    {
        Config {
            host: String::from_str("0.0.0.0"),
            port: DEFAULT_PORT,
            log_level: String::from_str("info"),
            max_url_length: DEFAULT_MAX_TEXT_LENGTH,
        }
    }
}

impl Config {
    /// Builds the settings from the values that the environment holds for
    /// host, port, log level and longest text. A port or a length that cannot
    /// be read gives way to the standard one.
    pub fn from_values(
        host: Option<String>,
        port: Option<String>,
        log_level: Option<String>,
        max_url_length: Option<String>,
    ) -> (config: Self)
        ensures
            config@ == Settings::from_values(
                crate::text::optional_text(host),
                crate::text::optional_text(port),
                crate::text::optional_text(log_level),
                crate::text::optional_text(max_url_length),
            ),
    {
        let mut config = Config::default();
        match host {
            Some(text) => {
                config.host = text;
            },
            None => {},
        }
        match port {
            Some(text) => {
                config.port = match parse_unsigned(&chars_of(text.as_str()), 0xffff) {
                    Some(value) => value as u16,
                    None => DEFAULT_PORT,
                };
            },
            None => {},
        }
        match log_level {
            Some(text) => {
                config.log_level = text;
            },
            None => {},
        }
        match max_url_length {
            Some(text) => {
                config.max_url_length = match parse_unsigned(
                    &chars_of(text.as_str()),
                    usize::MAX as u64,
                ) {
                    Some(value) => value as usize,
                    None => DEFAULT_MAX_TEXT_LENGTH,
                };
            },
            None => {},
        }
        config
    }

    /// The address to listen on: host, colon, port.
    pub fn bind_address(&self) -> (address: String)
        ensures
            address@ == self@.bind_address(),
    {
        let mut address = self.host.clone();
        address.append(":");
        append_decimal(&mut address, self.port as u64);
        address
    }
}

} // verus!

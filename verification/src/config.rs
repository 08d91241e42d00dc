//! Configuration value types and their validation rules.

use vstd::prelude::*;
use vstd::string::{StrSliceExecFns, StringExecFns};

use crate::error::Error;
use crate::text::{ascii_lower, concat2, is_blank, spec_all_blank, spec_lower, str_eq,
    str_starts_with};

verus! {

/// An upstream API key: non-blank and at least ten characters.
#[derive(Debug)]
pub struct ApiKey {
    key: String,
}

impl View for ApiKey {
    type V = Seq<char>;

    closed spec fn view(&self) -> Seq<char> {
        self.key@
    }
}

impl ApiKey {
    /// Accepts a key that is non-blank and at least ten characters long;
    /// each rejection carries its own configuration error.
    pub fn new(key: String) -> (r: Result<ApiKey, Error>)
        ensures
            match r {
                Result::Ok(k) => k@ == key@ && !spec_all_blank(key@) && key@.len() >= 10,
                Result::Err(e) => (spec_all_blank(key@) || key@.len() < 10) && (e
                    matches Error::Config { message } && (if spec_all_blank(key@) {
                    message@ == "API key cannot be empty"@
                } else {
                    message@ == "API key too short (minimum 10 characters)"@
                })),
            },
    {
        if is_blank(key.as_str()) {
            return Result::Err(
                Error::Config { message: String::from_str("API key cannot be empty") },
            );
        }
        if key.as_str().unicode_len() < 10 {
            return Result::Err(
                Error::Config {
                    message: String::from_str("API key too short (minimum 10 characters)"),
                },
            );
        }
        Result::Ok(ApiKey { key })
    }

    /// The key itself.
    pub fn as_str(&self) -> (r: &str)
        ensures
            r@ == self@,
    {
        self.key.as_str()
    }
}

/// A listening port: at or above the unprivileged range.
#[derive(Debug, Clone, Copy)]
pub struct Port {
    port: u16,
}

impl View for Port {
    type V = int;

    closed spec fn view(&self) -> int {
        self.port as int
    }
}

impl Port {
    /// Accepts a port at or above 1024.
    pub fn new(port: u16) -> (r: Result<Port, Error>)
        ensures
            match r {
                Result::Ok(p) => port >= 1024 && p@ == port as int,
                Result::Err(e) => port < 1024 && (e matches Error::Config { message } && message@
                    == "Port must be >= 1024"@),
            },
    {
        if port < 1024 {
            return Result::Err(Error::Config { message: String::from_str("Port must be >= 1024") });
        }
        Result::Ok(Port { port })
    }

    /// The port number.
    pub fn as_u16(self) -> (r: u16)
        ensures
            r as int == self@,
    {
        self.port
    }
}

/// The verbosity names the logger accepts.
pub open spec fn spec_is_log_level(s: Seq<char>) -> bool {
    s == "error"@ || s == "warn"@ || s == "info"@ || s == "debug"@ || s == "trace"@
}

/// A log verbosity, held lower-cased.
#[derive(Debug)]
pub struct LogLevel {
    level: String,
}

impl View for LogLevel {
    type V = Seq<char>;

    closed spec fn view(&self) -> Seq<char> {
        self.level@
    }
}

impl LogLevel {
    /// Accepts one of the five verbosity names, in any case, and keeps
    /// the lower-cased form.
    pub fn new(level: &str) -> (r: Result<LogLevel, Error>)
        ensures
            match r {
                Result::Ok(l) => l@ == spec_lower(level@) && spec_is_log_level(spec_lower(level@)),
                Result::Err(e) => !spec_is_log_level(spec_lower(level@)) && (e
                    matches Error::Config { message } && message@ == "Invalid log level: "@
                    + level@),
            },
    {
        let normalized = ascii_lower(level);
        let ok = str_eq(normalized.as_str(), "error") || str_eq(normalized.as_str(), "warn")
            || str_eq(normalized.as_str(), "info") || str_eq(normalized.as_str(), "debug")
            || str_eq(normalized.as_str(), "trace");
        if !ok {
            return Result::Err(Error::Config { message: concat2("Invalid log level: ", level) });
        }
        Result::Ok(LogLevel { level: normalized })
    }

    /// The lower-cased verbosity name.
    pub fn as_str(&self) -> (r: &str)
        ensures
            r@ == self@,
    {
        self.level.as_str()
    }
}

/// The server configuration: upstream credentials and address, and the
/// connection transport's bind address.
#[derive(Debug)]
pub struct Config {
    /// The upstream API key.
    pub outline_api_key: ApiKey,
    /// The upstream API base URL.
    pub outline_api_url: String,
    /// The host the connection transport binds.
    pub http_host: String,
    /// The port the connection transport binds.
    pub http_port: Port,
    /// The log verbosity.
    pub log_level: LogLevel,
}

/// Whether a URL text names one of the two accepted schemes.
pub open spec fn spec_url_scheme_ok(s: Seq<char>) -> bool {
    (s.len() >= "http://"@.len() && s.take("http://"@.len() as int) == "http://"@) || (s.len()
        >= "https://"@.len() && s.take("https://"@.len() as int) == "https://"@)
}

impl Config {
    /// Checks that the API URL uses one of the two accepted schemes.
    pub fn validate(&self) -> (r: Result<(), Error>)
        ensures
            match r {
                Result::Ok(_) => spec_url_scheme_ok(self.outline_api_url@),
                Result::Err(e) => !spec_url_scheme_ok(self.outline_api_url@) && (e
                    matches Error::Config { message } && message@
                    == "API URL must use HTTP or HTTPS"@),
            },
    {
        if str_starts_with(self.outline_api_url.as_str(), "http://") || str_starts_with(
            self.outline_api_url.as_str(),
            "https://",
        ) {
            Result::Ok(())
        } else {
            Result::Err(
                Error::Config { message: String::from_str("API URL must use HTTP or HTTPS") },
            )
        }
    }

    /// Assembles a configuration from environment-sourced values, with
    /// the documented defaults for the absent ones; the first failing
    /// value check is the error.
    pub fn from_values(
        api_key: String,
        api_url: Option<String>,
        host: Option<String>,
        port: Option<u16>,
        log_level: Option<&str>,
    ) -> (r: Result<Config, Error>)
        ensures
            match r {
                Result::Ok(c) => {
                    &&& c.outline_api_key@ == api_key@
                    &&& c.outline_api_url@ == (match api_url {
                        Option::Some(u) => u@,
                        Option::None => "https://app.getoutline.com/api"@,
                    })
                    &&& c.http_host@ == (match host {
                        Option::Some(h) => h@,
                        Option::None => "127.0.0.1"@,
                    })
                    &&& c.http_port@ == (match port {
                        Option::Some(p) => p as int,
                        Option::None => 3000,
                    })
                    &&& c.log_level@ == spec_lower(
                        match log_level {
                            Option::Some(l) => l@,
                            Option::None => "info"@,
                        },
                    )
                    &&& !spec_all_blank(api_key@) && api_key@.len() >= 10
                    &&& (match port {
                        Option::Some(p) => p >= 1024,
                        Option::None => true,
                    })
                },
                Result::Err(e) => {
                    ||| spec_all_blank(api_key@)
                    ||| api_key@.len() < 10
                    ||| (match port {
                        Option::Some(p) => p < 1024,
                        Option::None => false,
                    })
                    ||| !spec_is_log_level(
                        spec_lower(
                            match log_level {
                                Option::Some(l) => l@,
                                Option::None => "info"@,
                            },
                        ),
                    )
                },
            },
    {
        let key = match ApiKey::new(api_key) {
            Result::Ok(k) => k,
            Result::Err(e) => {
                return Result::Err(e);
            },
        };
        let port_value = match port {
            Option::Some(p) => p,
            Option::None => 3000u16,
        };
        let port = match Port::new(port_value) {
            Result::Ok(p) => p,
            Result::Err(e) => {
                return Result::Err(e);
            },
        };
        let level_name: &str = match log_level {
            Option::Some(l) => l,
            Option::None => "info",
        };
        let level = match LogLevel::new(level_name) {
            Result::Ok(l) => l,
            Result::Err(e) => {
                return Result::Err(e);
            },
        };
        Result::Ok(
            Config {
                outline_api_key: key,
                outline_api_url: match api_url {
                    Option::Some(u) => u,
                    Option::None => String::from_str("https://app.getoutline.com/api"),
                },
                http_host: match host {
                    Option::Some(h) => h,
                    Option::None => String::from_str("127.0.0.1"),
                },
                http_port: port,
                log_level: level,
            },
        )
    }

    /// A fixed configuration for tests.
    pub fn for_testing() -> (r: Config)
        ensures
            r.outline_api_key@ == "test-api-key-12345"@,
            r.outline_api_url@ == "https://test.example.com/api"@,
            r.http_host@ == "127.0.0.1"@,
            r.http_port@ == 3000,
            r.log_level@ == "info"@,
    {
        Config {
            outline_api_key: ApiKey { key: String::from_str("test-api-key-12345") },
            outline_api_url: String::from_str("https://test.example.com/api"),
            http_host: String::from_str("127.0.0.1"),
            http_port: Port { port: 3000 },
            log_level: LogLevel { level: String::from_str("info") },
        }
    }
}

} // verus!

//! Server configuration: host, port and environment name, each with a
//! default when the deployment does not set it.

use vstd::prelude::*;
use crate::text::{
    all_decimal_digits, capped_decimal, chars_of, decimal_value, lemma_decimal_value_nonneg,
};

verus! {

pub const DEFAULT_HOST: &'static str = "127.0.0.1";

pub const DEFAULT_PORT: u16 = 8080;

pub const DEFAULT_ENVIRONMENT: &'static str = "development";

/// The digits of a port number: the text without one leading `+`.
pub open spec fn port_digits(s: Seq<char>) -> Seq<char> {
    if s.len() > 1 && s[0] == '+' {
        s.drop_first()
    } else {
        s
    }
}

/// A port number as `str::parse::<u16>` reads it: an optional `+`, then
/// one or more decimal digits whose value fits in 16 bits.
pub open spec fn parsed_port(s: Seq<char>) -> Option<u16> {
    let digits = port_digits(s);
    if digits.len() > 0 && all_decimal_digits(digits) && decimal_value(digits) <= u16::MAX {
        Some(decimal_value(digits) as u16)
    } else {
        None
    }
}

/// Read a port number; `None` for anything `str::parse::<u16>` refuses.
pub fn parse_port(text: &str) -> (r: Option<u16>)
    ensures
        r == parsed_port(text@),
{
    let chars = chars_of(text);
    let n = chars.len();
    let start: usize = if n > 1 && chars[0] == '+' {
        1
    } else {
        0
    };
    proof {
        if n > 1 && chars@[0] == '+' {
            assert(chars@.subrange(1, n as int) =~= text@.drop_first());
        } else {
            assert(chars@.subrange(0, n as int) =~= text@);
        }
        assert(chars@.subrange(start as int, n as int) == port_digits(text@));
    }
    let ghost digits = chars@.subrange(start as int, n as int);
    let r = capped_decimal(chars.as_slice(), start, 65536);
    match r {
        Some(v) => {
            proof {
                lemma_decimal_value_nonneg(digits);
            }
            if v <= 65535 {
                Some(v as u16)
            } else {
                None
            }
        },
        None => None,
    }
}

/// The server configuration.
#[derive(Debug, Clone)]
pub struct Config {
    pub host: String,
    pub port: u16,
    pub environment: String,
}

impl Config {
    /// The configuration from the deployment's settings, each `None` when
    /// unset: a missing host or environment takes its default, and a
    /// missing or unreadable port takes 8080.
    pub fn from_vars(host: Option<String>, port: Option<String>, environment: Option<String>) -> (r: Self)
        ensures
            r.host@ == match host {
                Some(h) => h@,
                None => DEFAULT_HOST@,
            },
            r.port == match port {
                Some(p) => match parsed_port(p@) {
                    Some(v) => v,
                    None => DEFAULT_PORT,
                },
                None => DEFAULT_PORT,
            },
            r.environment@ == match environment {
                Some(e) => e@,
                None => DEFAULT_ENVIRONMENT@,
            },
    {
        let host = match host {
            Some(h) => h,
            None => DEFAULT_HOST.to_owned(),
        };
        let port = match port {
            Some(p) => match parse_port(p.as_str()) {
                Some(v) => v,
                None => DEFAULT_PORT,
            },
            None => DEFAULT_PORT,
        };
        let environment = match environment {
            Some(e) => e,
            None => DEFAULT_ENVIRONMENT.to_owned(),
        };
        Config { host, port, environment }
    }
}

} // verus!

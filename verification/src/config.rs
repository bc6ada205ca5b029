//! Configuration records: plain values handed in by whatever loads the
//! configuration file, and the mapping of a log-level word to a level.

use vstd::prelude::*;

verus! {

/// Where the proxy forwards to.
pub struct UpstreamConfig {
    pub host: String,
    pub port: u16,
}

/// Where and how much to log.
pub struct LogConfig {
    pub path: String,
    pub level: String,
}

/// Where the server listens.
pub struct ServerConfig {
    pub address: String,
}

/// What the message handler needs: the ntor identity and the two secrets.
#[derive(Clone)]
pub struct HandlerConfig {
    pub ntor_server_id: String,
    pub ntor_static_secret: String,
    pub jwt_secret: String,
}

/// The whole configuration.
pub struct Config {
    pub upstream: UpstreamConfig,
    pub log: LogConfig,
    pub server: ServerConfig,
    pub handler: HandlerConfig,
}

/// A log level; `None` from the parser means the word was not recognized
/// and the caller keeps its current level.
#[derive(Clone, Copy, PartialEq, Eq, Structural, Debug)]
pub enum LevelFilter {
    Off,
    Error,
    Warn,
    Info,
    Debug,
    Trace,
}

/// `s` uppercased ASCII-letter by letter.
pub open spec fn spec_ascii_upper(s: Seq<char>) -> Seq<char> {
    Seq::new(
        s.len(),
        |i: int|
            if 'a' <= s[i] && s[i] <= 'z' {
                ((s[i] as u8) - 0x20) as char
            } else {
                s[i]
            },
    )
}

/// Compares `s`, ASCII-uppercased, with `target` character by character.
fn eq_upper(s: &str, target: &str) -> (r: bool)
    ensures
        r == (spec_ascii_upper(s@) == target@),
{
    let len = s.unicode_len();
    if len != target.unicode_len() {
        return false;
    }
    let mut i: usize = 0;
    while i < len
        invariant
            i <= len,
            len == s@.len(),
            len == target@.len(),
            forall|j: int| 0 <= j < i ==> spec_ascii_upper(s@)[j] == target@[j],
        decreases len - i,
    {
        let c = s.get_char(i);
        let up: char = if 'a' <= c && c <= 'z' {
            proof {
                vstd::utf8::char_is_scalar(c);
            }
            ((c as u8) - 0x20) as char
        } else {
            c
        };
        if up != target.get_char(i) {
            return false;
        }
        i += 1;
    }
    proof {
        assert(spec_ascii_upper(s@) =~= target@);
    }
    true
}

/// The level a configured word names, uppercased first; an unrecognized
/// word names no level.
pub open spec fn spec_level_of(level: Seq<char>) -> Option<LevelFilter> {
    let up = spec_ascii_upper(level);
    if up == "INFO"@ {
        Some(LevelFilter::Info)
    } else if up == "DEBUG"@ {
        Some(LevelFilter::Debug)
    } else if up == "WARNING"@ {
        Some(LevelFilter::Warn)
    } else if up == "ERROR"@ {
        Some(LevelFilter::Error)
    } else if up == "TRACE"@ {
        Some(LevelFilter::Trace)
    } else if up == "OFF"@ {
        Some(LevelFilter::Off)
    } else {
        None
    }
}

impl LogConfig {
    /// Maps the configured level word to a level; `None` tells the caller
    /// to keep whatever maximum is already in force.
    pub fn to_level_filter(&self) -> (r: Option<LevelFilter>)
        ensures
            r == spec_level_of(self.level@),
    {
        if eq_upper(self.level.as_str(), "INFO") {
            Some(LevelFilter::Info)
        } else if eq_upper(self.level.as_str(), "DEBUG") {
            Some(LevelFilter::Debug)
        } else if eq_upper(self.level.as_str(), "WARNING") {
            Some(LevelFilter::Warn)
        } else if eq_upper(self.level.as_str(), "ERROR") {
            Some(LevelFilter::Error)
        } else if eq_upper(self.level.as_str(), "TRACE") {
            Some(LevelFilter::Trace)
        } else if eq_upper(self.level.as_str(), "OFF") {
            Some(LevelFilter::Off)
        } else {
            None
        }
    }
}

} // verus!

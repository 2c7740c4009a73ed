//! Start-up options and log levels.

use vstd::prelude::*;
use crate::text::text_is;

verus! {

/// Options the shell was started with.
#[derive(Debug)]
pub struct CliArgs {
    /// Start in fullscreen.
    pub fullscreen: bool,
    /// Start in the TV layout.
    pub tv_mode: bool,
    /// Log level named on the command line, if any.
    pub log_level: Option<String>,
}

impl CliArgs {
    /// Combines the command-line flags: `--windowed` overrides
    /// `--fullscreen`, and `--desktop` overrides `--tv`.
    pub fn from_flags(fullscreen: bool, windowed: bool, tv: bool, desktop: bool, log_level: Option<String>) -> (r: CliArgs)
        ensures
            r.fullscreen == (fullscreen && !windowed),
            r.tv_mode == (tv && !desktop),
            r.log_level == log_level,
    {
        CliArgs {
            fullscreen: if windowed {
                false
            } else {
                fullscreen
            },
            tv_mode: if desktop {
                false
            } else {
                tv
            },
            log_level,
        }
    }
}

#[derive(Debug, Clone, Copy, PartialEq, Eq, Structural)]
pub enum LogLevel {
    Error,
    Warn,
    Info,
    Debug,
    Trace,
}

/// Level that the command line selects; debug unless one of the five level
/// names is given.
pub open spec fn cli_level_spec(name: Option<Seq<char>>) -> LogLevel {
    match name {
        Some(n) => if n == "error"@ {
            LogLevel::Error
        } else if n == "warn"@ {
            LogLevel::Warn
        } else if n == "info"@ {
            LogLevel::Info
        } else if n == "debug"@ {
            LogLevel::Debug
        } else if n == "trace"@ {
            LogLevel::Trace
        } else {
            LogLevel::Debug
        },
        None => LogLevel::Debug,
    }
}

/// Level of a message forwarded from the web view; debug unless it names
/// error, warn or info.
pub open spec fn webview_level_spec(name: Seq<char>) -> LogLevel {
    if name == "error"@ {
        LogLevel::Error
    } else if name == "warn"@ {
        LogLevel::Warn
    } else if name == "info"@ {
        LogLevel::Info
    } else {
        LogLevel::Debug
    }
}

impl LogLevel {
    /// The maximum level to log, from the command line's `--log-level`.
    pub fn from_cli(name: &Option<String>) -> (r: LogLevel)
        ensures
            r == cli_level_spec(match name {
                Some(n) => Some(n@),
                None => None,
            }),
    {
        match name {
            Some(n) => if text_is(n, "error") {
                LogLevel::Error
            } else if text_is(n, "warn") {
                LogLevel::Warn
            } else if text_is(n, "info") {
                LogLevel::Info
            } else if text_is(n, "debug") {
                LogLevel::Debug
            } else if text_is(n, "trace") {
                LogLevel::Trace
            } else {
                LogLevel::Debug
            },
            None => LogLevel::Debug,
        }
    }

    /// The level of a message that the web view forwards.
    pub fn for_webview(name: &String) -> (r: LogLevel)
        ensures
            r == webview_level_spec(name@),
    {
        if text_is(name, "error") {
            LogLevel::Error
        } else if text_is(name, "warn") {
            LogLevel::Warn
        } else if text_is(name, "info") {
            LogLevel::Info
        } else {
            LogLevel::Debug
        }
    }
}

} // verus!

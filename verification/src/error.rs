//! The router's error type: one variant per concern (configuration parse,
//! configuration validation, network, serial, filesystem), each carrying
//! the context needed to locate the failure.

use crate::text::{decimal, push_decimal, push_text, string_from_chars};
use std::path::PathBuf;
use vstd::prelude::*;

verus! {

/// TOML parse error of the `toml` crate.
#[verifier::external_type_specification]
#[verifier::external_body]
pub struct ExTomlDeError(toml::de::Error);

/// I/O error of the standard library.
#[verifier::external_type_specification]
#[verifier::external_body]
pub struct ExIoError(std::io::Error);

/// Serial-port error of the `tokio-serial` crate.
#[verifier::external_type_specification]
#[verifier::external_body]
pub struct ExSerialError(tokio_serial::Error);

/// Owned filesystem path of the standard library.
#[verifier::external_type_specification]
#[verifier::external_body]
pub struct ExPathBuf(PathBuf);

/// The text a `PathBuf` displays.
pub uninterp spec fn path_text(p: PathBuf) -> Seq<char>;

/// `PathBuf::from(&str)`: a path that displays as the given string.
#[verifier::external_body]
fn path_buf_from(s: &str) -> (p: PathBuf)
    ensures
        path_text(p) == s@,
{
    PathBuf::from(s)
}

/// `Path::display` of a path, collected into a string.
#[verifier::external_body]
fn path_display(p: &PathBuf) -> (s: String)
    ensures
        s@ == path_text(*p),
{
    format!("{}", p.display())
}

/// The `Display` text of a TOML parse error (its message with line and
/// column).
#[verifier::external_body]
fn toml_error_text(e: &toml::de::Error) -> String {
    format!("{}", e)
}

/// The `Display` text of an I/O error.
#[verifier::external_body]
fn io_error_text(e: &std::io::Error) -> String {
    format!("{}", e)
}

/// The `Display` text of a serial-port error.
#[verifier::external_body]
fn serial_error_text(e: &tokio_serial::Error) -> String {
    format!("{}", e)
}

/// Errors of the router.
#[derive(Debug)]
pub enum RouterError {
    /// A TOML configuration string failed to parse.
    ConfigParse {
        /// The underlying TOML parse error.
        source: toml::de::Error,
    },
    /// A TOML configuration file failed to parse.
    ConfigParseFile {
        /// Path of the offending file.
        path: PathBuf,
        /// The underlying TOML parse error.
        source: toml::de::Error,
    },
    /// The configuration is well-formed but fails a semantic check.
    ConfigValidation {
        /// Description locating the failure.
        context: String,
    },
    /// Network I/O failed on an endpoint.
    Network {
        /// Name or address of the endpoint.
        endpoint: String,
        /// The underlying I/O error.
        source: std::io::Error,
    },
    /// A serial port failed.
    Serial {
        /// Path of the serial device.
        device: String,
        /// The underlying serial error.
        source: tokio_serial::Error,
    },
    /// Opening a serial port did not finish in time.
    SerialTimeout {
        /// Path of the serial device.
        device: String,
        /// The timeout that elapsed, in whole seconds.
        timeout_secs: u64,
    },
    /// A filesystem operation failed.
    Filesystem {
        /// The path involved.
        path: String,
        /// The underlying I/O error.
        source: std::io::Error,
    },
}

/// Result type of the router.
pub type Result<T> = std::result::Result<T, RouterError>;

impl RouterError {
    /// Wraps a TOML parse error of an inline string.
    pub fn config_parse(source: toml::de::Error) -> (e: Self)
        ensures
            e == (RouterError::ConfigParse { source }),
    {
        RouterError::ConfigParse { source }
    }

    /// Wraps a TOML parse error of the file at `path`.
    pub fn config_parse_file(path: &str, source: toml::de::Error) -> (e: Self)
        ensures
            e matches RouterError::ConfigParseFile { path: p, source: s } && path_text(p) == path@
                && s == source,
    {
        RouterError::ConfigParseFile { path: path_buf_from(path), source }
    }

    /// A semantic validation error with the given context.
    pub fn config_validation(context: &str) -> (e: Self)
        ensures
            e matches RouterError::ConfigValidation { context: c } && c@ == context@,
    {
        RouterError::ConfigValidation { context: context.to_owned() }
    }

    /// Same as [`RouterError::config_validation`].
    pub fn config(msg: &str) -> (e: Self)
        ensures
            e matches RouterError::ConfigValidation { context: c } && c@ == msg@,
    {
        Self::config_validation(msg)
    }

    /// A network error on `endpoint`.
    pub fn network(endpoint: &str, source: std::io::Error) -> (e: Self)
        ensures
            e matches RouterError::Network { endpoint: n, source: s } && n@ == endpoint@ && s
                == source,
    {
        RouterError::Network { endpoint: endpoint.to_owned(), source }
    }

    /// A serial-port error on `device`.
    pub fn serial(device: &str, source: tokio_serial::Error) -> (e: Self)
        ensures
            e matches RouterError::Serial { device: d, source: s } && d@ == device@ && s == source,
    {
        RouterError::Serial { device: device.to_owned(), source }
    }

    /// A serial-open timeout on `device` after `timeout_secs` seconds.
    pub fn serial_timeout(device: &str, timeout_secs: u64) -> (e: Self)
        ensures
            e matches RouterError::SerialTimeout { device: d, timeout_secs: t } && d@ == device@
                && t == timeout_secs,
    {
        RouterError::SerialTimeout { device: device.to_owned(), timeout_secs }
    }

    /// A filesystem error at `path`.
    pub fn filesystem(path: &str, source: std::io::Error) -> (e: Self)
        ensures
            e matches RouterError::Filesystem { path: p, source: s } && p@ == path@ && s == source,
    {
        RouterError::Filesystem { path: path.to_owned(), source }
    }

    /// The message before the underlying error's own text (all of the
    /// message for the variants without an underlying error).
    pub open spec fn message_head(&self) -> Seq<char> {
        match self {
            RouterError::ConfigParse { .. } => "Failed to parse TOML config: "@,
            RouterError::ConfigParseFile { path, .. } => "Failed to parse TOML config file '"@
                + path_text(*path) + "': "@,
            RouterError::ConfigValidation { context } => "Configuration validation error: "@
                + context@,
            RouterError::Network { endpoint, .. } => "Network error on endpoint '"@ + endpoint@
                + "': "@,
            RouterError::Serial { device, .. } => "Serial port error on '"@ + device@ + "': "@,
            RouterError::SerialTimeout { device, timeout_secs } => "Serial port open on '"@
                + device@ + "' timed out after "@ + decimal(*timeout_secs as nat) + "s"@,
            RouterError::Filesystem { path, .. } => "Filesystem error at '"@ + path@ + "': "@,
        }
    }

    /// Whether the variant carries an underlying error whose text ends the
    /// message.
    pub open spec fn has_source(&self) -> bool {
        !(self is ConfigValidation || self is SerialTimeout)
    }

    /// The error's message: [`Self::message_head`] followed, for the
    /// variants that carry one, by the underlying error's text.
    pub fn to_string(&self) -> (s: String)
        ensures
            self.has_source() ==> s@.len() >= self.message_head().len() && s@.take(
                self.message_head().len() as int,
            ) == self.message_head(),
            !self.has_source() ==> s@ == self.message_head(),
    {
        let mut out: Vec<char> = Vec::new();
        let tail = match self {
            RouterError::ConfigParse { source } => {
                push_text(&mut out, "Failed to parse TOML config: ");
                Some(toml_error_text(source))
            },
            RouterError::ConfigParseFile { path, source } => {
                push_text(&mut out, "Failed to parse TOML config file '");
                let shown = path_display(path);
                push_text(&mut out, shown.as_str());
                push_text(&mut out, "': ");
                Some(toml_error_text(source))
            },
            RouterError::ConfigValidation { context } => {
                push_text(&mut out, "Configuration validation error: ");
                push_text(&mut out, context.as_str());
                None
            },
            RouterError::Network { endpoint, source } => {
                push_text(&mut out, "Network error on endpoint '");
                push_text(&mut out, endpoint.as_str());
                push_text(&mut out, "': ");
                Some(io_error_text(source))
            },
            RouterError::Serial { device, source } => {
                push_text(&mut out, "Serial port error on '");
                push_text(&mut out, device.as_str());
                push_text(&mut out, "': ");
                Some(serial_error_text(source))
            },
            RouterError::SerialTimeout { device, timeout_secs } => {
                push_text(&mut out, "Serial port open on '");
                push_text(&mut out, device.as_str());
                push_text(&mut out, "' timed out after ");
                push_decimal(&mut out, *timeout_secs);
                push_text(&mut out, "s");
                None
            },
            RouterError::Filesystem { path, source } => {
                push_text(&mut out, "Filesystem error at '");
                push_text(&mut out, path.as_str());
                push_text(&mut out, "': ");
                Some(io_error_text(source))
            },
        };
        let ghost head = out@;
        assert(head =~= self.message_head());
        if let Some(t) = tail {
            push_text(&mut out, t.as_str());
            assert(out@.take(head.len() as int) =~= head);
        }
        string_from_chars(out.as_slice())
    }

    /// Whether this is a configuration validation error whose context is
    /// `text`.
    pub open spec fn is_validation_with(&self, text: Seq<char>) -> bool {
        self matches RouterError::ConfigValidation { context } && context@ == text
    }

    /// Whether this is a configuration validation error.
    pub open spec fn is_validation(&self) -> bool {
        self is ConfigValidation
    }
}

} // verus!

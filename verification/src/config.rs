//! Router configuration: the TOML schema, defaults, merging of several
//! files, and validation.

pub mod defaults;
pub mod endpoint;
pub mod general;
pub mod load;
pub mod merge;
pub mod socket_addr;
pub mod toml_doc;
pub mod validate;

pub use endpoint::{BaudRate, EndpointConfig, EndpointMode, FlowControl};
pub use general::GeneralConfig;

use crate::error::RouterError;
use endpoint::{decode_endpoint, endpoint_from_value, endpoint_value_ok};
use general::{decode_general, general_from_table, general_table_ok};
use toml_doc::{entry_lookup, lookup, parse_document, toml_document, TomlValue};
use vstd::prelude::*;

verus! {

/// Configuration of the router: general settings and the endpoints.
#[derive(Debug)]
pub struct Config {
    /// General settings.
    pub general: GeneralConfig,
    /// The endpoints, in configuration order.
    pub endpoint: Vec<EndpointConfig>,
}

impl Default for Config {
    /// Default general settings and no endpoint.
    fn default() -> (c: Self)
        ensures
            c.general.is_default(),
            c.endpoint@.len() == 0,
    {
        Config { general: GeneralConfig::default(), endpoint: Vec::new() }
    }
}

/// Whether the `general` entry of a document fits the schema: absent, or
/// a table whose fields are well-typed.
pub open spec fn general_value_ok(g: Option<TomlValue>) -> bool {
    match g {
        None => true,
        Some(TomlValue::Table(es)) => general_table_ok(es@),
        Some(_) => false,
    }
}

/// Whether `c` is what the `general` entry says (all defaults when absent).
pub open spec fn general_from_value(g: Option<TomlValue>, c: GeneralConfig) -> bool {
    match g {
        None => c.is_default(),
        Some(TomlValue::Table(es)) => general_from_table(es@, c),
        Some(_) => false,
    }
}

/// Whether the `endpoint` entry of a document fits the schema: absent, or
/// an array of endpoint tables that fit it.
pub open spec fn endpoints_value_ok(v: Option<TomlValue>) -> bool {
    match v {
        None => true,
        Some(TomlValue::Array(items)) => forall|i: int|
            0 <= i < items@.len() ==> endpoint_value_ok(#[trigger] items@[i]),
        Some(_) => false,
    }
}

/// Whether `eps` are the endpoints the `endpoint` entry lists, in order
/// (none when absent).
pub open spec fn endpoints_from_value(v: Option<TomlValue>, eps: Seq<EndpointConfig>) -> bool {
    match v {
        None => eps.len() == 0,
        Some(TomlValue::Array(items)) => {
            &&& eps.len() == items@.len()
            &&& forall|i: int| 0 <= i < items@.len() ==> endpoint_from_value(#[trigger] items@[i], eps[i])
        },
        Some(_) => false,
    }
}

/// Whether a document (its top-level table) fits the configuration schema.
/// Keys other than `general` and `endpoint` are ignored.
pub open spec fn document_ok(es: Seq<(String, TomlValue)>) -> bool {
    &&& general_value_ok(entry_lookup(es, "general"@))
    &&& endpoints_value_ok(entry_lookup(es, "endpoint"@))
}

/// Whether `c` is the configuration the document describes.
pub open spec fn config_from_document(es: Seq<(String, TomlValue)>, c: Config) -> bool {
    &&& general_from_value(entry_lookup(es, "general"@), c.general)
    &&& endpoints_from_value(entry_lookup(es, "endpoint"@), c.endpoint@)
}

/// The error for a document whose shape does not fit the schema.
fn bad_document(what: &str) -> (e: RouterError)
    ensures
        e.is_validation(),
        e.is_validation_with("Failed to parse config: "@ + what@),
{
    let mut msg = String::from_str("Failed to parse config: ");
    msg.append(what);
    RouterError::config(msg.as_str())
}

/// Reads a configuration from the top-level table of a TOML document.
pub fn decode_document(es: &Vec<(String, TomlValue)>) -> (r: Result<Config, RouterError>)
    ensures
        r is Ok == document_ok(es@),
        r matches Ok(c) ==> config_from_document(es@, c),
        r matches Err(e) ==> e.is_validation(),
{
    let general = match lookup(es, "general") {
        None => GeneralConfig::default(),
        Some(TomlValue::Table(ges)) => decode_general(ges)?,
        Some(_) => return Err(bad_document("[general] is not a table")),
    };
    let mut endpoint: Vec<EndpointConfig> = Vec::new();
    match lookup(es, "endpoint") {
        None => {},
        Some(TomlValue::Array(items)) => {
            let mut i: usize = 0;
            while i < items.len()
                invariant
                    i <= items@.len(),
                    entry_lookup(es@, "endpoint"@) == Some(TomlValue::Array(*items)),
                    endpoint@.len() == i,
                    forall|j: int| 0 <= j < i ==> endpoint_value_ok(#[trigger] items@[j]),
                    forall|j: int| 0 <= j < i ==> endpoint_from_value(#[trigger] items@[j], endpoint@[j]),
                decreases items@.len() - i,
            {
                let e = match decode_endpoint(&items[i]) {
                    Ok(e) => e,
                    Err(err) => {
                        assert(!endpoint_value_ok(items@[i as int]));
                        let ghost its: Vec<TomlValue> = *items;
                        assert(match Some(TomlValue::Array(its)) {
                            Some(TomlValue::Array(x)) => x@ == its@,
                            _ => false,
                        });
                        return Err(err);
                    },
                };
                endpoint.push(e);
                i = i + 1;
            }
        },
        Some(_) => return Err(bad_document("endpoint is not an array of tables")),
    }
    Ok(Config { general, endpoint })
}

impl Config {
    /// Parses a configuration from TOML text and validates it.
    ///
    /// The text must be TOML; its `[general]` table and `[[endpoint]]`
    /// tables must fit the schema (fields of the right type and range;
    /// absent fields take their defaults; other keys are ignored); and the
    /// configuration read must pass [`Config::validate`]. Text that is not
    /// TOML fails with [`RouterError::ConfigParse`] carrying the TOML
    /// parser's error; every other failure is a validation error.
    pub fn parse(toml: &str) -> (r: Result<Config, RouterError>)
        ensures
            toml_document(toml@) is None ==> r matches Err(RouterError::ConfigParse { .. }),
            r matches Err(e) ==> (e is ConfigParse <==> toml_document(toml@) is None),
            r matches Err(e) ==> (e is ConfigParse || e.is_validation()),
            r is Ok ==> toml_document(toml@) is Some,
            toml_document(toml@) matches Some(TomlValue::Table(es)) ==> {
                &&& !document_ok(es@) ==> r is Err
                &&& r matches Ok(c) ==> config_from_document(es@, c) && c.valid()
                &&& (r is Err && document_ok(es@)) ==> exists|c: Config|
                    config_from_document(es@, c) && !c.valid()
            },
    {
        let doc = match parse_document(toml) {
            Ok(d) => d,
            Err(source) => {
                return Err(RouterError::config_parse(source));
            },
        };
        let es = match &doc {
            TomlValue::Table(es) => es,
            _ => return Err(bad_document("the document is not a table")),
        };
        let config = decode_document(es)?;
        match config.validate() {
            Ok(()) => Ok(config),
            Err(e) => Err(e),
        }
    }
}

impl std::str::FromStr for Config {
    type Err = RouterError;

    /// Same as [`Config::parse`].
    fn from_str(s: &str) -> (r: Result<Config, RouterError>)
        ensures
            toml_document(s@) is None ==> r matches Err(RouterError::ConfigParse { .. }),
            r matches Err(e) ==> (e is ConfigParse <==> toml_document(s@) is None),
            r matches Err(e) ==> (e is ConfigParse || e.is_validation()),
            r is Ok ==> toml_document(s@) is Some,
            toml_document(s@) matches Some(TomlValue::Table(es)) ==> {
                &&& !document_ok(es@) ==> r is Err
                &&& r matches Ok(c) ==> config_from_document(es@, c) && c.valid()
                &&& (r is Err && document_ok(es@)) ==> exists|c: Config|
                    config_from_document(es@, c) && !c.valid()
            },
    {
        Config::parse(s)
    }
}

} // verus!

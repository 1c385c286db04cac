//! Tolerant parsing of the configuration document.
//!
//! The document is YAML with one recognized key; the YAML grammar itself is
//! handled by the `serde_yaml` crate behind a trusted wrapper, and everything
//! the pipeline decides from the outcome is verified here.

use vstd::prelude::*;
use vstd::string::*;
use crate::config::{spec_default_start_url, default_start_url, RawKioskConfig};

verus! {

/// What looking a string-valued key up in a YAML document yields, as a
/// function of the document and the key alone:
/// - `Ok(Some(v))`: the document is a mapping (or empty) and holds the key
///   with string value `v`;
/// - `Ok(None)`: the document is a mapping or empty, and holds no string
///   value under the key;
/// - `Err(Some(m))`: the document is not syntactically valid YAML, with
///   `m` describing the failure;
/// - `Err(None)`: the document is valid YAML but not a mapping.
pub uninterp spec fn yaml_string_field(doc: Seq<char>, key: Seq<char>) -> Result<
    Option<Seq<char>>,
    Option<Seq<char>>,
>;

/// How a lookup result read back from the wrapper corresponds to the named
/// outcome above.
pub open spec fn lookup_view(r: Result<Option<String>, Option<String>>) -> Result<
    Option<Seq<char>>,
    Option<Seq<char>>,
> {
    match r {
        Ok(Some(v)) => Ok(Some(v@)),
        Ok(None) => Ok(None),
        Err(Some(m)) => Err(Some(m@)),
        Err(None) => Err(None),
    }
}

/// Relies on `serde_yaml::from_str::<Value>`, `Value::get` and
/// `Value::as_str`: parsing a document and looking a key up in it depend on
/// the document and the key alone. An empty document parses as null and, like
/// a mapping without the key, carries no value; a document that is valid YAML
/// but not a mapping is told apart from a syntax failure.
#[verifier::external_body]
fn yaml_lookup_string(doc: &str, key: &str) -> (r: Result<Option<String>, Option<String>>)
    ensures
        lookup_view(r) == yaml_string_field(doc@, key@),
{
    match serde_yaml::from_str::<serde_yaml::Value>(doc) {
        Ok(serde_yaml::Value::Null) => Ok(None),
        Ok(value @ serde_yaml::Value::Mapping(_)) => {
            Ok(value.get(key).and_then(serde_yaml::Value::as_str).map(String::from))
        },
        Ok(_) => Err(None),
        Err(err) => Err(Some(err.to_string())),
    }
}

/// The recognized key of the configuration document.
pub open spec fn spec_start_url_key() -> Seq<char> {
    "start_url"@
}

/// The description the loader gives a parse failure: the parser's own
/// message where there is one, a fixed text for a well-formed document that
/// is not a mapping.
pub open spec fn spec_parse_error_text(e: Option<Seq<char>>) -> Seq<char> {
    match e {
        Some(m) => m,
        None => "the document is not a mapping"@,
    }
}

/// The start URL a parsed document implies: the value under `start_url`
/// where the document carries one, the compiled-in default otherwise.
pub open spec fn spec_raw_start_url(field: Option<Seq<char>>) -> Seq<char> {
    match field {
        Some(v) => v,
        None => spec_default_start_url(),
    }
}

/// Parses the document tolerantly: an empty or keyless document is valid and
/// implies the default URL; unrecognized keys are ignored; only a document
/// that is not valid mapping syntax is a parse failure, reported as a
/// description of the failure.
pub fn parse_raw_config(contents: &str) -> (r: Result<RawKioskConfig, String>)
    ensures
        match yaml_string_field(contents@, spec_start_url_key()) {
            Ok(field) => r matches Ok(raw) && raw.start_url@ == spec_raw_start_url(field),
            Err(e) => r matches Err(m) && m@ == spec_parse_error_text(e),
        },
{
    match yaml_lookup_string(contents, "start_url") {
        Ok(Some(v)) => Ok(RawKioskConfig { start_url: v }),
        Ok(None) => Ok(RawKioskConfig { start_url: default_start_url() }),
        Err(Some(m)) => Err(m),
        Err(None) => Err(String::from_str("the document is not a mapping")),
    }
}

} // verus!

//! The trusted boundary to the three format libraries.
//!
//! Parsing and serialization are delegated to `serde_json`, `toml` and
//! `serde_yaml`; the generic in-memory value is `serde_json::Value`,
//! which all three libraries can fill and drain through serde. Each
//! outside call stands behind one wrapper here, and everything the rest
//! of the library proves about a conversion rests on these contracts.

use vstd::prelude::*;

verus! {

#[verifier::external_type_specification]
#[verifier::external_body]
pub struct ExJsonValue(serde_json::Value);

#[verifier::external_type_specification]
#[verifier::external_body]
pub struct ExJsonError(serde_json::Error);

#[verifier::external_type_specification]
#[verifier::external_body]
pub struct ExTomlDeError(toml::de::Error);

#[verifier::external_type_specification]
#[verifier::external_body]
pub struct ExTomlSerError(toml::ser::Error);

#[verifier::external_type_specification]
#[verifier::external_body]
pub struct ExYamlError(serde_yaml::Error);

/// Whether `serde_json::from_str` accepts the text as a JSON document
/// when the target is the generic value. Acceptance depends on the
/// text alone.
pub uninterp spec fn json_parses(s: Seq<char>) -> bool;

/// The generic value `serde_json::from_str` yields for a text it
/// accepts. The value depends on the text alone.
pub uninterp spec fn json_parsed(s: Seq<char>) -> serde_json::Value;

/// Whether `toml::from_str` accepts the text as a TOML document when
/// the target is the generic value. Acceptance depends on the text
/// alone.
pub uninterp spec fn toml_parses(s: Seq<char>) -> bool;

/// The generic value `toml::from_str` yields for a text it accepts.
/// The value depends on the text alone.
pub uninterp spec fn toml_parsed(s: Seq<char>) -> serde_json::Value;

/// Whether `serde_yaml::from_str` accepts the text as a YAML document
/// when the target is the generic value. Acceptance depends on the
/// text alone.
pub uninterp spec fn yaml_parses(s: Seq<char>) -> bool;

/// The generic value `serde_yaml::from_str` yields for a text it
/// accepts. The value depends on the text alone.
pub uninterp spec fn yaml_parsed(s: Seq<char>) -> serde_json::Value;

/// The compact JSON encoding `serde_json::to_string` gives the generic
/// value. The text depends on the value alone.
pub uninterp spec fn json_text_of(v: serde_json::Value) -> Seq<char>;

/// Whether `toml::to_string` accepts the generic value as the root of
/// a TOML document. Acceptance depends on the value alone.
pub uninterp spec fn toml_emits(v: serde_json::Value) -> bool;

/// The TOML document `toml::to_string` gives a generic value it
/// accepts. The text depends on the value alone.
pub uninterp spec fn toml_text_of(v: serde_json::Value) -> Seq<char>;

/// The block-style YAML document `serde_yaml::to_string` gives the
/// generic value. The text depends on the value alone.
pub uninterp spec fn yaml_text_of(v: serde_json::Value) -> Seq<char>;

/// Relies on `serde_json::from_str`: it parses the complete text as one
/// JSON value, deterministically in the text; an empty text holds no
/// JSON value and is rejected.
#[verifier::external_body]
pub(crate) fn parse_json(s: &str) -> (r: Result<serde_json::Value, serde_json::Error>)
    ensures
        r is Ok <==> json_parses(s@),
        r is Ok ==> r->Ok_0 == json_parsed(s@),
        s@.len() == 0 ==> r is Err,
{
    serde_json::from_str(s)
}

/// Relies on `toml::from_str`: it parses the complete text as one TOML
/// document, deterministically in the text.
#[verifier::external_body]
pub(crate) fn parse_toml(s: &str) -> (r: Result<serde_json::Value, toml::de::Error>)
    ensures
        r is Ok <==> toml_parses(s@),
        r is Ok ==> r->Ok_0 == toml_parsed(s@),
{
    toml::from_str(s)
}

/// Relies on `serde_yaml::from_str`: it parses the complete text as one
/// YAML document, deterministically in the text.
#[verifier::external_body]
pub(crate) fn parse_yaml(s: &str) -> (r: Result<serde_json::Value, serde_yaml::Error>)
    ensures
        r is Ok <==> yaml_parses(s@),
        r is Ok ==> r->Ok_0 == yaml_parsed(s@),
{
    serde_yaml::from_str(s)
}

/// Relies on `serde_json::to_string`: encoding the generic value as
/// compact JSON cannot fail (its maps carry string keys and its
/// numbers are finite), depends on the value alone, and yields at
/// least one character with no trailing newline.
#[verifier::external_body]
pub(crate) fn emit_json(v: &serde_json::Value) -> (r: Result<String, serde_json::Error>)
    ensures
        r is Ok,
        r->Ok_0@ == json_text_of(*v),
        r->Ok_0@.len() > 0,
        r->Ok_0@.last() != '\n',
{
    serde_json::to_string(v)
}

/// Relies on `toml::to_string`: it encodes the generic value as a TOML
/// document or refuses it (a root that is not a string-keyed map, a
/// null, an unsupported shape), deterministically in the value.
#[verifier::external_body]
pub(crate) fn emit_toml(v: &serde_json::Value) -> (r: Result<String, toml::ser::Error>)
    ensures
        r is Ok <==> toml_emits(*v),
        r is Ok ==> r->Ok_0@ == toml_text_of(*v),
{
    toml::to_string(v)
}

/// Relies on `serde_yaml::to_string`: encoding the generic value as a
/// block-style YAML document cannot fail (the value's `Serialize` does
/// not fail), depends on the value alone, and ends with a trailing
/// newline.
#[verifier::external_body]
pub(crate) fn emit_yaml(v: &serde_json::Value) -> (r: Result<String, serde_yaml::Error>)
    ensures
        r is Ok,
        r->Ok_0@ == yaml_text_of(*v),
        r->Ok_0@.len() > 0,
        r->Ok_0@.last() == '\n',
{
    serde_yaml::to_string(v)
}

/// Relies on the `Display` impl of `serde_json::Error` for the
/// diagnostic text.
#[verifier::external_body]
pub(crate) fn json_error_text(e: &serde_json::Error) -> (r: String) {
    format!("{}", e)
}

/// Relies on the `Display` impl of `toml::de::Error` for the diagnostic
/// text.
#[verifier::external_body]
pub(crate) fn toml_de_error_text(e: &toml::de::Error) -> (r: String) {
    format!("{}", e)
}

/// Relies on the `Display` impl of `toml::ser::Error` for the
/// diagnostic text.
#[verifier::external_body]
pub(crate) fn toml_ser_error_text(e: &toml::ser::Error) -> (r: String) {
    format!("{}", e)
}

/// Relies on the `Display` impl of `serde_yaml::Error` for the
/// diagnostic text.
#[verifier::external_body]
pub(crate) fn yaml_error_text(e: &serde_yaml::Error) -> (r: String) {
    format!("{}", e)
}

} // verus!

//! The conversion pipeline: resolve the two format names, parse the
//! input text into the generic value, serialize the value into the
//! output format, and classify every failure.

use vstd::prelude::*;

use crate::bridge::{
    emit_json, emit_toml, emit_yaml, json_error_text, json_parsed, json_parses, json_text_of,
    parse_json, parse_toml, parse_yaml, toml_de_error_text, toml_emits, toml_parsed, toml_parses,
    toml_ser_error_text, toml_text_of, yaml_error_text, yaml_parsed, yaml_parses, yaml_text_of,
};
use crate::error::ConvError;
use crate::format::{spec_parse_format, Format};

verus! {

/// Whether the text parses as a document of format `f` under the
/// format library that handles `f`.
pub open spec fn spec_parses(f: Format, s: Seq<char>) -> bool {
    match f {
        Format::Json => json_parses(s),
        Format::Toml => toml_parses(s),
        Format::Yaml => yaml_parses(s),
    }
}

/// The generic value a text that parses as format `f` parses to.
pub open spec fn spec_parsed(f: Format, s: Seq<char>) -> serde_json::Value {
    match f {
        Format::Json => json_parsed(s),
        Format::Toml => toml_parsed(s),
        Format::Yaml => yaml_parsed(s),
    }
}

/// Whether format `f` can represent the generic value as a document.
/// JSON and YAML represent every generic value; TOML refuses what its
/// grammar cannot carry (a non-map document root among it).
pub open spec fn spec_emits(f: Format, v: serde_json::Value) -> bool {
    match f {
        Format::Json => true,
        Format::Toml => toml_emits(v),
        Format::Yaml => true,
    }
}

/// The document text format `f` gives a generic value it represents.
pub open spec fn spec_text_of(f: Format, v: serde_json::Value) -> Seq<char> {
    match f {
        Format::Json => json_text_of(v),
        Format::Toml => toml_text_of(v),
        Format::Yaml => yaml_text_of(v),
    }
}

/// What a pair of format names resolves to: both must stand in the
/// allow-list, or the pair is refused.
pub open spec fn spec_resolve(i: Seq<char>, o: Seq<char>) -> Option<(Format, Format)> {
    match (spec_parse_format(i), spec_parse_format(o)) {
        (Some(a), Some(b)) => Some((a, b)),
        _ => None,
    }
}

/// The message a `Config` error carries for an unrecognized name.
pub open spec fn spec_unknown_name_message(name: Seq<char>) -> Seq<char> {
    "unrecognized format name: "@ + name
}

fn unknown_name_message(name: &str) -> (r: String)
    ensures
        r@ == spec_unknown_name_message(name@),
{
    let mut m = String::from_str("unrecognized format name: ");
    m.append(name);
    m
}

/// Resolve the requested input and output format names against the
/// allow-list, case-insensitively. This runs before any input is read:
/// an unknown name is a configuration error, never a parse attempt.
pub fn resolve_formats(input_name: &str, output_name: &str) -> (r: Result<
    (Format, Format),
    ConvError,
>)
    ensures
        r is Ok <==> spec_resolve(input_name@, output_name@) is Some,
        r is Ok ==> r->Ok_0 == spec_resolve(input_name@, output_name@)->Some_0,
        r is Err ==> r->Err_0 is Config,
        spec_parse_format(input_name@) is None ==> r is Err && r->Err_0->Config_0@
            == spec_unknown_name_message(input_name@),
        spec_parse_format(input_name@) is Some && spec_parse_format(output_name@) is None ==> r
            is Err && r->Err_0->Config_0@ == spec_unknown_name_message(output_name@),
{
    let a = Format::parse(input_name);
    let b = Format::parse(output_name);
    match (a, b) {
        (Some(x), Some(y)) => Ok((x, y)),
        (None, _) => Err(ConvError::Config(unknown_name_message(input_name))),
        (_, None) => Err(ConvError::Config(unknown_name_message(output_name))),
    }
}

/// Parse the input text as a document of format `f` into the generic
/// value. Succeeds exactly when the text is a document of `f`, and
/// then yields exactly the value that document denotes; any failure is
/// a `Parse` error carrying the format library's diagnostic. Empty
/// text is never a JSON document.
pub fn parse_value(text: &str, f: Format) -> (r: Result<serde_json::Value, ConvError>)
    ensures
        r is Ok <==> spec_parses(f, text@),
        r is Ok ==> r->Ok_0 == spec_parsed(f, text@),
        r is Err ==> r->Err_0 is Parse,
        f == Format::Json && text@.len() == 0 ==> r is Err,
{
    match f {
        Format::Json => match parse_json(text) {
            Ok(v) => Ok(v),
            Err(e) => Err(ConvError::Parse(json_error_text(&e))),
        },
        Format::Toml => match parse_toml(text) {
            Ok(v) => Ok(v),
            Err(e) => Err(ConvError::Parse(toml_de_error_text(&e))),
        },
        Format::Yaml => match parse_yaml(text) {
            Ok(v) => Ok(v),
            Err(e) => Err(ConvError::Parse(yaml_error_text(&e))),
        },
    }
}

/// Serialize the generic value into format `f`. Succeeds exactly when
/// `f` can represent the value — always for JSON and YAML, and for
/// TOML exactly when its grammar accepts the value — and then yields
/// exactly that format's document text for the value: compact with no
/// trailing newline for JSON, block style with a trailing newline for
/// YAML. Any failure is a `Serialize` error carrying the format
/// library's diagnostic.
pub fn serialize_value(v: &serde_json::Value, f: Format) -> (r: Result<String, ConvError>)
    ensures
        r is Ok <==> spec_emits(f, *v),
        r is Ok ==> r->Ok_0@ == spec_text_of(f, *v),
        r is Err ==> r->Err_0 is Serialize,
        f == Format::Json && r is Ok ==> r->Ok_0@.len() > 0 && r->Ok_0@.last() != '\n',
        f == Format::Yaml && r is Ok ==> r->Ok_0@.len() > 0 && r->Ok_0@.last() == '\n',
{
    match f {
        Format::Json => match emit_json(v) {
            Ok(s) => Ok(s),
            Err(e) => Err(ConvError::Serialize(json_error_text(&e))),
        },
        Format::Toml => match emit_toml(v) {
            Ok(s) => Ok(s),
            Err(e) => Err(ConvError::Serialize(toml_ser_error_text(&e))),
        },
        Format::Yaml => match emit_yaml(v) {
            Ok(s) => Ok(s),
            Err(e) => Err(ConvError::Serialize(yaml_error_text(&e))),
        },
    }
}

/// Convert the input text from format `inf` to format `outf`: parse,
/// then serialize, with no other branching. The run succeeds exactly
/// when the text is a document of `inf` whose value `outf` can
/// represent, and then yields exactly `outf`'s document text for the
/// parsed value. A parse failure and a serialize failure are told
/// apart exactly: the run fails with a `Parse` error precisely when
/// the text is not a document of `inf`, and every other failure is a
/// `Serialize` error. Empty text on the JSON input path always fails
/// with a `Parse` error.
pub fn convert(text: &str, inf: Format, outf: Format) -> (r: Result<String, ConvError>)
    ensures
        r is Ok <==> spec_parses(inf, text@) && spec_emits(outf, spec_parsed(inf, text@)),
        r is Ok ==> r->Ok_0@ == spec_text_of(outf, spec_parsed(inf, text@)),
        r is Err ==> (r->Err_0 is Parse || r->Err_0 is Serialize),
        (r is Err && r->Err_0 is Parse) <==> !spec_parses(inf, text@),
        inf == Format::Json && text@.len() == 0 ==> r is Err && r->Err_0 is Parse,
{
    match parse_value(text, inf) {
        Ok(v) => serialize_value(&v, outf),
        Err(e) => Err(e),
    }
}

/// The exit-code policy of the orchestrator: a run that produced
/// output exits with zero, any failure exits with one.
pub fn process_exit_code(r: &Result<String, ConvError>) -> (c: i32)
    ensures
        c == 0 <==> r is Ok,
        c == 1 <==> r is Err,
{
    match r {
        Ok(_) => 0,
        Err(e) => e.exit_code(),
    }
}

/// Law: a format name outside the allow-list never resolves, whatever
/// stands in the other position; the run is refused at configuration
/// time, before any input is read or parsed.
pub proof fn lemma_unknown_format_rejected(name: Seq<char>, other: Seq<char>)
    requires
        spec_parse_format(name) is None,
    ensures
        spec_resolve(name, other) is None,
        spec_resolve(other, name) is None,
{
}

} // verus!

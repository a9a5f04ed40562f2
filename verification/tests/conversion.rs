use cyd::{ConvError, Format};

fn json(text: &str) -> serde_json::Value {
    serde_json::from_str(text).unwrap()
}

#[test]
fn json_to_yaml_scenario() {
    let out = cyd::convert("{\"a\":1,\"b\":[true,null]}", Format::Json, Format::Yaml).unwrap();
    assert!(out.ends_with('\n'));
    let back: serde_json::Value = serde_yaml::from_str(&out).unwrap();
    assert_eq!(back, json("{\"a\":1,\"b\":[true,null]}"));
    assert!(out.contains("a: 1"));
    let r = cyd::convert("{\"a\":1,\"b\":[true,null]}", Format::Json, Format::Yaml);
    assert_eq!(cyd::process_exit_code(&r), 0);
}

#[test]
fn toml_identity_scenario() {
    let r = cyd::convert("title = \"x\"", Format::Toml, Format::Toml);
    assert_eq!(cyd::process_exit_code(&r), 0);
    assert_eq!(r.unwrap(), "title = \"x\"\n");
}

#[test]
fn yaml_sequence_root_to_toml_fails() {
    let r = cyd::convert("- 1\n- 2\n", Format::Yaml, Format::Toml);
    assert_eq!(cyd::process_exit_code(&r), 1);
    assert!(matches!(r, Err(ConvError::Serialize(_))));
}

#[test]
fn empty_json_input_is_a_parse_error() {
    let r = cyd::convert("", Format::Json, Format::Yaml);
    assert_eq!(cyd::process_exit_code(&r), 1);
    assert!(matches!(r, Err(ConvError::Parse(_))));
}

// The TOML grammar accepts an empty document as an empty table, so an
// empty input on the TOML path converts to an empty map.
#[test]
fn empty_toml_input_is_an_empty_table() {
    let out = cyd::convert("", Format::Toml, Format::Json).unwrap();
    assert_eq!(out, "{}");
}

// The YAML library reads an empty stream as a null document, so an
// empty input on the YAML path converts to null.
#[test]
fn empty_yaml_input_is_null() {
    let out = cyd::convert("", Format::Yaml, Format::Json).unwrap();
    assert_eq!(out, "null");
}

#[test]
fn round_trip_through_all_three_formats() {
    let start = "{\"b\":true,\"m\":{\"k\":\"v\"},\"n\":7,\"s\":[1,2],\"t\":\"x\"}";
    let as_toml = cyd::convert(start, Format::Json, Format::Toml).unwrap();
    let as_yaml = cyd::convert(&as_toml, Format::Toml, Format::Yaml).unwrap();
    let back = cyd::convert(&as_yaml, Format::Yaml, Format::Json).unwrap();
    assert_eq!(json(&back), json(start));
}

#[test]
fn round_trip_json_toml_json() {
    let start = "{\"n\":-3,\"s\":\"hi\",\"seq\":[\"a\",\"b\"]}";
    let as_toml = cyd::convert(start, Format::Json, Format::Toml).unwrap();
    let back = cyd::convert(&as_toml, Format::Toml, Format::Json).unwrap();
    assert_eq!(json(&back), json(start));
}

#[test]
fn round_trip_json_yaml_json() {
    let start = "{\"flag\":false,\"nested\":{\"list\":[1,2,3]},\"word\":\"w\"}";
    let as_yaml = cyd::convert(start, Format::Json, Format::Yaml).unwrap();
    let back = cyd::convert(&as_yaml, Format::Yaml, Format::Json).unwrap();
    assert_eq!(json(&back), json(start));
}

#[test]
fn same_format_conversion_is_idempotent_json() {
    let first = cyd::convert("{ \"a\" : 1 , \"b\" : [ true ] }", Format::Json, Format::Json)
        .unwrap();
    assert_eq!(first, "{\"a\":1,\"b\":[true]}");
    let second = cyd::convert(&first, Format::Json, Format::Json).unwrap();
    assert_eq!(second, first);
}

#[test]
fn same_format_conversion_is_idempotent_toml() {
    let first = cyd::convert("a    = 1\n[t]\nk='v'\n", Format::Toml, Format::Toml).unwrap();
    let second = cyd::convert(&first, Format::Toml, Format::Toml).unwrap();
    assert_eq!(second, first);
}

#[test]
fn same_format_conversion_is_idempotent_yaml() {
    let first = cyd::convert("a:   1\nb:\n  - x\n", Format::Yaml, Format::Yaml).unwrap();
    let second = cyd::convert(&first, Format::Yaml, Format::Yaml).unwrap();
    assert_eq!(second, first);
}

#[test]
fn toml_parse_and_emit_do_real_work() {
    let out = cyd::convert("A = 3", Format::Toml, Format::Json).unwrap();
    assert_eq!(out, "{\"A\":3}");
}

#[test]
fn yaml_parse_does_real_work() {
    let out = cyd::convert("k: true\n", Format::Yaml, Format::Json).unwrap();
    assert_eq!(out, "{\"k\":true}");
}

#[test]
fn key_insertion_order_is_preserved() {
    let out = cyd::convert("{\"z\":1,\"a\":2}", Format::Json, Format::Json).unwrap();
    assert_eq!(out, "{\"z\":1,\"a\":2}");
    let y = cyd::convert("{\"z\":1,\"a\":2}", Format::Json, Format::Yaml).unwrap();
    assert_eq!(y, "z: 1\na: 2\n");
}

#[test]
fn json_output_is_compact_with_no_trailing_newline() {
    let out = cyd::convert("a: 1\n", Format::Yaml, Format::Json).unwrap();
    assert!(!out.ends_with('\n'));
    assert_eq!(out, "{\"a\":1}");
}

#[test]
fn malformed_json_is_a_parse_error() {
    let r = cyd::convert("{\"a\":", Format::Json, Format::Json);
    assert!(matches!(r, Err(ConvError::Parse(_))));
}

#[test]
fn malformed_toml_is_a_parse_error() {
    let r = cyd::convert("= nope", Format::Toml, Format::Json);
    assert!(matches!(r, Err(ConvError::Parse(_))));
}

#[test]
fn malformed_yaml_is_a_parse_error() {
    let r = cyd::convert(": : :", Format::Yaml, Format::Json);
    assert!(matches!(r, Err(ConvError::Parse(_))));
}

#[test]
fn scalar_root_to_toml_is_a_serialize_error() {
    let r = cyd::convert("7", Format::Json, Format::Toml);
    assert!(matches!(r, Err(ConvError::Serialize(_))));
}

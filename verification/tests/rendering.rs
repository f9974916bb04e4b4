use serde_json::Value;
use zmq_json_validator::pretty::{format_failure, format_json, format_parsed, parse_failure};

#[test]
fn format_json_indents_an_object() {
    assert_eq!(
        format_json("{\"a\":1,\"b\":[true,null]}"),
        "{\n  \"a\": 1,\n  \"b\": [\n    true,\n    null\n  ]\n}"
    );
}

#[test]
fn format_json_indents_nested_values() {
    assert_eq!(
        format_json("[{\"txs\":[{\"fee\":5}]},\"s\",-1.5]"),
        "[\n  {\n    \"txs\": [\n      {\n        \"fee\": 5\n      }\n    ]\n  },\n  \"s\",\n  -1.5\n]"
    );
}

#[test]
fn format_json_renders_atoms_and_empty_containers() {
    assert_eq!(format_json("null"), "null");
    assert_eq!(format_json(" true "), "true");
    assert_eq!(format_json("100"), "100");
    assert_eq!(format_json("\"a:b\""), "\"a:b\"");
    assert_eq!(format_json("{}"), "{}");
    assert_eq!(format_json("[]"), "[]");
}

#[test]
fn format_json_ignores_the_layout_of_its_input() {
    let compact = format_json("{\"height\":100,\"hash\":\"abc\"}");
    let spread = format_json("{\n\t\"height\" : 100 ,\n\t\"hash\" : \"abc\"\n}\n");
    assert_eq!(compact, "{\n  \"hash\": \"abc\",\n  \"height\": 100\n}");
    assert_eq!(spread, compact);
}

#[test]
fn format_json_reports_malformed_json_as_text() {
    assert_eq!(
        format_json("{not json"),
        "Error parsing JSON: key must be a string at line 1 column 2"
    );
}

#[test]
fn format_json_reports_an_empty_body_as_text() {
    assert_eq!(
        format_json(""),
        "Error parsing JSON: EOF while parsing a value at line 1 column 0"
    );
}

#[test]
fn format_json_reports_trailing_text() {
    assert_eq!(
        format_json("{} x"),
        "Error parsing JSON: trailing characters at line 1 column 4"
    );
    assert_eq!(
        format_json("[1,2"),
        "Error parsing JSON: EOF while parsing a list at line 1 column 4"
    );
}

#[test]
fn format_json_carries_the_parser_message_unchanged() {
    for text in ["{not json", "", "[1,]", "{\"a\" 1}", "\"open", "01", "nul"] {
        let error = serde_json::from_str::<Value>(text).unwrap_err();
        assert_eq!(format_json(text), format!("Error parsing JSON: {}", error));
    }
}

#[test]
fn format_parsed_renders_a_value() {
    let parsed = serde_json::from_str::<Value>("{\"k\":\"v:w\"}");
    assert_eq!(format_parsed(parsed), "{\n  \"k\": \"v:w\"\n}");
}

#[test]
fn format_parsed_renders_an_error() {
    let parsed = serde_json::from_str::<Value>("[1 2]");
    assert_eq!(
        format_parsed(parsed),
        "Error parsing JSON: expected `,` or `]` at line 1 column 4"
    );
}

#[test]
fn format_json_is_format_parsed_of_the_parse() {
    for text in ["{\"a\":[1,2,{\"b\":null}]}", "{not json", "3.25", ""] {
        assert_eq!(format_json(text), format_parsed(serde_json::from_str::<Value>(text)));
    }
}

#[test]
fn failure_lines_put_the_detail_after_a_fixed_heading() {
    assert_eq!(parse_failure("expected value"), "Error parsing JSON: expected value");
    assert_eq!(parse_failure(""), "Error parsing JSON: ");
    assert_eq!(format_failure("key must be a string"), "Error formatting JSON: key must be a string");
    assert_eq!(format_failure(""), "Error formatting JSON: ");
}

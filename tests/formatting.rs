use json_formatter::format::{finish_rendering, indent_unit};
use json_formatter::{format_json_string, AppError};

fn fmt(text: &str, kind: Option<&str>, width: Option<usize>) -> Result<String, AppError> {
    format_json_string(text.to_string(), kind.map(|k| k.to_string()), width)
}

#[test]
fn two_space_indentation_is_exact() {
    let out = fmt("{\"a\":1}", Some("space"), Some(2)).unwrap();
    assert_eq!(out, "{\n  \"a\": 1\n}");
}

#[test]
fn tab_indentation_ignores_width() {
    let out = fmt("{\"a\":1}", Some("tab"), Some(2)).unwrap();
    assert_eq!(out, "{\n\t\"a\": 1\n}");
    let wide = fmt("{\"a\":1}", Some("tab"), Some(8)).unwrap();
    assert_eq!(wide, "{\n\t\"a\": 1\n}");
}

#[test]
fn four_space_indentation_nests() {
    let out = fmt("{\"a\":[1,{\"b\":null}]}", Some("space"), Some(4)).unwrap();
    assert_eq!(
        out,
        "{\n    \"a\": [\n        1,\n        {\n            \"b\": null\n        }\n    ]\n}"
    );
}

#[test]
fn zero_width_still_breaks_lines() {
    let out = fmt("{\"a\":1,\"b\":2}", Some("space"), Some(0)).unwrap();
    assert_eq!(out, "{\n\"a\": 1,\n\"b\": 2\n}");
}

#[test]
fn no_indentation_given_uses_two_spaces() {
    let out = fmt("[true,false]", None, None).unwrap();
    assert_eq!(out, "[\n  true,\n  false\n]");
}

#[test]
fn key_order_is_kept() {
    let out = fmt("{\"z\":1,\"a\":2}", Some("space"), Some(1)).unwrap();
    assert_eq!(out, "{\n \"z\": 1,\n \"a\": 2\n}");
}

#[test]
fn scalar_values_format_as_themselves() {
    assert_eq!(fmt("\"hi\"", None, None).unwrap(), "\"hi\"");
    assert_eq!(fmt(" 42 ", None, None).unwrap(), "42");
    assert_eq!(fmt("null", None, None).unwrap(), "null");
}

#[test]
fn unquoted_key_is_a_parse_error() {
    let r = fmt("{a:1}", Some("space"), Some(2));
    assert!(matches!(r, Err(AppError::Parse(_))));
    let message = r.unwrap_err().message();
    assert!(message.starts_with("Failed to parse JSON: "));
    assert!(message.len() > "Failed to parse JSON: ".len());
}

#[test]
fn empty_and_truncated_text_are_parse_errors() {
    assert!(matches!(fmt("", None, None), Err(AppError::Parse(_))));
    assert!(matches!(fmt("[1,2", None, None), Err(AppError::Parse(_))));
    assert!(matches!(fmt("{} {}", None, None), Err(AppError::Parse(_))));
}

#[test]
fn formatted_output_parses_to_the_same_value() {
    let inputs = [
        "{\"a\":1,\"b\":[1,2.5,\"x\"],\"c\":{\"d\":null,\"e\":true}}",
        "[]",
        "{}",
        "\"text with \\\"quotes\\\"\"",
        "[-1e3, 0.25, 123456789012]",
    ];
    for text in inputs {
        let original: serde_json::Value = serde_json::from_str(text).unwrap();
        for (kind, width) in [(Some("space"), Some(2)), (Some("tab"), Some(3)), (None, None)] {
            let out = fmt(text, kind, width).unwrap();
            let again: serde_json::Value = serde_json::from_str(&out).unwrap();
            assert_eq!(again, original);
        }
    }
}

#[test]
fn formatting_twice_changes_nothing() {
    let text = "{\"list\":[1,[2,[3]]],\"obj\":{\"k\":\"v\"},\"empty\":[]}";
    for (kind, width) in [(Some("space"), Some(4)), (Some("tab"), Some(4)), (None, None)] {
        let once = fmt(text, kind, width).unwrap();
        let twice = fmt(&once, kind, width).unwrap();
        assert_eq!(once, twice);
    }
}

#[test]
fn indent_unit_is_a_tab_or_spaces() {
    assert_eq!(indent_unit(&Some("tab".to_string()), Some(7)), vec![b'\t']);
    assert_eq!(indent_unit(&Some("space".to_string()), Some(3)), vec![b' '; 3]);
    assert_eq!(indent_unit(&Some("other".to_string()), Some(1)), vec![b' ']);
    assert_eq!(indent_unit(&None, None), vec![b' '; 2]);
    assert_eq!(indent_unit(&None, Some(0)), Vec::<u8>::new());
}

#[test]
fn valid_bytes_become_text() {
    let r = finish_rendering("{\n  \"é\": 1\n}".as_bytes().to_vec());
    assert_eq!(r.unwrap(), "{\n  \"é\": 1\n}");
}

#[test]
fn invalid_bytes_are_an_encoding_error() {
    let r = finish_rendering(vec![b'"', 0xff, b'"']);
    assert!(matches!(r, Err(AppError::Encoding(_))));
    assert!(r.unwrap_err().message().starts_with("Failed to convert to UTF-8: "));
}

#[test]
fn parse_error_carries_the_parser_message() {
    for text in ["{a:1}", "", "[1,]", "{\"a\":1}x"] {
        let expected = serde_json::from_str::<serde_json::Value>(text).unwrap_err().to_string();
        match fmt(text, Some("tab"), Some(3)) {
            Err(AppError::Parse(d)) => assert_eq!(d, expected),
            other => panic!("expected a parse error, got {:?}", other),
        }
        let m = fmt(text, None, None).unwrap_err().message();
        assert_eq!(m, format!("Failed to parse JSON: {}", expected));
    }
}

#[test]
fn tab_keeps_key_order_of_nested_input() {
    let out = fmt("{\"b\":[1,2],\"a\":null}", Some("tab"), Some(4)).unwrap();
    assert_eq!(out, "{\n\t\"b\": [\n\t\t1,\n\t\t2\n\t],\n\t\"a\": null\n}");
}

#[test]
fn no_indentation_equals_two_spaces() {
    let text = "{\"x\":[{},[],{\"y\":\"z\"}]}";
    assert_eq!(fmt(text, None, None).unwrap(), fmt(text, Some("space"), Some(2)).unwrap());
    assert_eq!(fmt(text, Some("space"), None).unwrap(), fmt(text, Some("space"), Some(2)).unwrap());
}

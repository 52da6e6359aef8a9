use fff_mcp::fields::{
    FieldError, FieldValue, deserialize_limit, deserialize_optional_number,
    deserialize_optional_string, deserialize_patterns, deserialize_string, patterns_from_text,
    text_from_text,
};
use fff_mcp::number::Binary64;
use fff_mcp::params::{
    Field, FindFilesParams, GrepParams, MultiGrepParams, ParamsError, Tool, find_field,
};
use fff_mcp::text::trim;
use serde_json::Value;

fn number(v: f64) -> Binary64 {
    Binary64::from_bits(v.to_bits())
}

fn field_value(value: Value) -> FieldValue {
    match value {
        Value::Null => FieldValue::Null,
        Value::Bool(_) => FieldValue::Bool,
        Value::Number(n) => FieldValue::Number(number(n.as_f64().unwrap())),
        Value::String(text) => text_value(&text),
        Value::Array(items) => FieldValue::Array(
            items
                .into_iter()
                .map(|item| item.as_str().map(|s| s.to_string()))
                .collect(),
        ),
        Value::Object(_) => FieldValue::Object,
    }
}

fn text_value(text: &str) -> FieldValue {
    FieldValue::Text {
        text: text.to_string(),
        number: trim(text).parse::<f64>().ok().map(number),
    }
}

fn fields(json: &str) -> Vec<(String, FieldValue)> {
    match serde_json::from_str::<Value>(json).unwrap() {
        Value::Object(map) => map
            .into_iter()
            .map(|(key, value)| (key, field_value(value)))
            .collect(),
        _ => panic!("not an object"),
    }
}

fn grep(json: &str) -> Result<GrepParams, ParamsError> {
    GrepParams::from_fields(fields(json))
}

fn find_files(json: &str) -> Result<FindFilesParams, ParamsError> {
    FindFilesParams::from_fields(fields(json))
}

fn multi_grep(json: &str) -> Result<MultiGrepParams, ParamsError> {
    MultiGrepParams::from_fields(fields(json))
}

#[test]
fn grep_params_accepts_pattern_alias() {
    let via_query = grep(r#"{"query":"foo"}"#).expect("query field");
    assert_eq!(via_query.query, "foo");

    let via_pattern = grep(r#"{"pattern":"foo"}"#).expect("pattern alias");
    assert_eq!(via_pattern.query, "foo");
}

#[test]
fn grep_params_parses_context() {
    let params = grep(r#"{"query":"foo","context":3}"#).expect("context field");
    assert_eq!(params.context, Some(number(3.0)));
}

#[test]
fn context_accepts_numeric_string() {
    let params = grep(r#"{"query":"foo","context":"3"}"#).expect("numeric string");
    assert_eq!(params.context, Some(number(3.0)));
}

#[test]
fn context_ignores_freeform_object() {
    let params = multi_grep(r#"{"patterns":["foo"],"context":{"command":"ls"}}"#)
        .expect("object context ignored");
    assert_eq!(params.context, None);
    assert_eq!(params.patterns, vec!["foo".to_string()]);
}

#[test]
fn grep_params_accepts_constraints_field() {
    let params =
        grep(r#"{"query":"def show","constraints":"*.rs"}"#).expect("constraints field");
    assert_eq!(params.query, "def show");
    assert_eq!(params.constraints.as_deref(), Some("*.rs"));
}

#[test]
fn grep_params_accepts_constraints_array() {
    let params = grep(r#"{"query":"Foo","constraints":["*.rs","!test/"]}"#)
        .expect("constraints array");
    assert_eq!(params.query, "Foo");
    assert_eq!(params.constraints.as_deref(), Some("*.rs !test/"));
}

#[test]
fn grep_params_accepts_stringified_constraints_array() {
    let params = grep(r#"{"query":"Foo","constraints":"[\"*.rs\",\"!test/\"]"}"#)
        .expect("stringified constraints array");
    assert_eq!(params.constraints.as_deref(), Some("*.rs !test/"));
}

#[test]
fn grep_params_accepts_null_constraints() {
    let params = grep(r#"{"query":"Foo","constraints":null}"#).expect("null constraints");
    assert!(params.constraints.is_none());
}

#[test]
fn grep_params_accepts_query_array() {
    let params = grep(r#"{"query":["fn","main"]}"#).expect("query array");
    assert_eq!(params.query, "fn main");
}

#[test]
fn find_files_params_accepts_pattern_alias() {
    let via_query = find_files(r#"{"query":"foo"}"#).expect("query field");
    assert_eq!(via_query.query, "foo");

    let via_pattern = find_files(r#"{"pattern":"foo"}"#).expect("pattern alias");
    assert_eq!(via_pattern.query, "foo");
}

#[test]
fn find_files_params_accepts_query_array() {
    let params = find_files(r#"{"query":["src","main"]}"#).expect("query array");
    assert_eq!(params.query, "src main");
}

#[test]
fn all_fields_are_read() {
    let params = grep(
        r#"{"query":"q","maxResults":7,"cursor":"c1","output_mode":"usage","constraints":"src/","context":2.5}"#,
    )
    .unwrap();
    assert_eq!(params.max_results, Some(number(7.0)));
    assert_eq!(params.cursor.as_deref(), Some("c1"));
    assert_eq!(params.output_mode.as_deref(), Some("usage"));
    assert_eq!(params.constraints.as_deref(), Some("src/"));
    assert_eq!(params.context, Some(number(2.5)));

    let params = multi_grep(
        r#"{"patterns":["a","b"],"maxResults":null,"cursor":null,"output_mode":"count","constraints":["x","y"]}"#,
    )
    .unwrap();
    assert_eq!(params.patterns, vec!["a".to_string(), "b".to_string()]);
    assert_eq!(params.max_results, None);
    assert_eq!(params.cursor, None);
    assert_eq!(params.output_mode.as_deref(), Some("count"));
    assert_eq!(params.constraints.as_deref(), Some("x y"));
    assert_eq!(params.context, None);

    let params = find_files(r#"{"query":"q","maxResults":3,"cursor":"9"}"#).unwrap();
    assert_eq!(params.max_results, Some(number(3.0)));
    assert_eq!(params.cursor.as_deref(), Some("9"));
}

#[test]
fn missing_query_is_the_empty_text() {
    let params = grep("{}").unwrap();
    assert_eq!(params.query, "");
    assert_eq!(params.max_results, None);
    assert_eq!(grep(r#"{"context":3}"#).unwrap().query, "");
    assert_eq!(grep(r#"{"query":null}"#).unwrap().query, "");
    assert_eq!(find_files("{}").unwrap().query, "");
    assert_eq!(find_files(r#"{"pattern":null,"cursor":"c"}"#).unwrap().query, "");
}

#[test]
fn missing_patterns_are_an_error() {
    assert_eq!(
        multi_grep(r#"{"query":"q"}"#).unwrap_err(),
        ParamsError::Missing(Field::Patterns)
    );
    assert_eq!(Field::Query.name(), "query");
    assert_eq!(Field::Patterns.name(), "patterns");
    assert_eq!(Field::MaxResults.name(), "maxResults");
}

#[test]
fn lists_written_as_texts_are_read_back() {
    let all: Vec<String> = (0..0x80u32)
        .chain(0xff..0x102)
        .chain(0x1f600..0x1f602)
        .map(|code| format!("a{}b", char::from_u32(code).unwrap()))
        .collect();
    for items in [
        vec![],
        vec![String::new()],
        vec!["x".to_string(), "x".to_string()],
        vec!["say \"hi\"".to_string(), "C:\\dir".to_string(), "a\tb\nc\u{1}".to_string()],
        all,
    ] {
        let text = serde_json::to_string(&items).unwrap();
        let list = || FieldValue::Array(items.iter().cloned().map(Some).collect());
        assert_eq!(deserialize_patterns(text_value(&text)), Ok(items.clone()));
        assert_eq!(deserialize_patterns(list()), Ok(items.clone()));
        let joined = Ok(Some(items.join(" ")));
        assert_eq!(deserialize_optional_string(text_value(&text)), joined);
        assert_eq!(deserialize_optional_string(list()), joined);
        assert_eq!(deserialize_string(text_value(&text)), Ok(items.join(" ")));
    }
    for text in ["[a-z]+", "[", "[\"a\", 1]", "[\"a\"] b", "plain"] {
        assert_eq!(
            deserialize_optional_string(text_value(text)),
            Ok(Some(text.to_string()))
        );
        assert_eq!(deserialize_patterns(text_value(text)), Ok(vec![text.to_string()]));
    }
}

#[test]
fn query_and_pattern_together_are_a_duplicate() {
    assert_eq!(
        grep(r#"{"pattern":"a","query":"b"}"#).unwrap_err(),
        ParamsError::Duplicate(Field::Query)
    );
    let twice = vec![
        ("cursor".to_string(), text_value("a")),
        ("cursor".to_string(), FieldValue::Bool),
        ("query".to_string(), text_value("q")),
    ];
    assert_eq!(
        FindFilesParams::from_fields(twice).unwrap_err(),
        ParamsError::Duplicate(Field::Cursor)
    );
}

#[test]
fn first_bad_field_is_reported() {
    let bad = vec![
        ("query".to_string(), FieldValue::Bool),
        ("query".to_string(), text_value("q")),
    ];
    assert_eq!(
        GrepParams::from_fields(bad).unwrap_err(),
        ParamsError::Invalid(Field::Query, FieldError::NotText)
    );
    assert_eq!(
        grep(r#"{"query":"q","maxResults":"7"}"#).unwrap_err(),
        ParamsError::Invalid(Field::MaxResults, FieldError::NotLimit)
    );
    assert_eq!(
        grep(r#"{"query":["a",1]}"#).unwrap_err(),
        ParamsError::Invalid(Field::Query, FieldError::NotTextElement)
    );
    assert_eq!(
        grep(r#"{"query":"q","context":true}"#).unwrap_err(),
        ParamsError::Invalid(Field::Context, FieldError::NotNumber)
    );
    assert_eq!(
        multi_grep(r#"{"patterns":3}"#).unwrap_err(),
        ParamsError::Invalid(Field::Patterns, FieldError::NotPatterns)
    );
}

#[test]
fn keys_name_the_fields_of_a_tool() {
    assert_eq!(find_field(Tool::Grep, "pattern"), Some(Field::Query));
    assert_eq!(find_field(Tool::MultiGrep, "pattern"), None);
    assert_eq!(find_field(Tool::MultiGrep, "patterns"), Some(Field::Patterns));
    assert_eq!(find_field(Tool::FindFiles, "context"), None);
    assert_eq!(find_field(Tool::Grep, "max_results"), None);
}

#[test]
fn unknown_fields_are_ignored() {
    let params = find_files(r#"{"context":true,"note":{"a":1},"query":"q"}"#).unwrap();
    assert_eq!(params.query, "q");
    let params = multi_grep(r#"{"pattern":true,"patterns":"x"}"#).unwrap();
    assert_eq!(params.patterns, vec!["x".to_string()]);
}

#[test]
fn patterns_come_in_three_shapes() {
    assert_eq!(
        deserialize_patterns(text_value("[\"a\", \"b\\n\"]")),
        Ok(vec!["a".to_string(), "b\n".to_string()])
    );
    assert_eq!(
        deserialize_patterns(text_value("[a-z]+")),
        Ok(vec!["[a-z]+".to_string()])
    );
    assert_eq!(
        deserialize_patterns(text_value(" [\"a\"]")),
        Ok(vec![" [\"a\"]".to_string()])
    );
    assert_eq!(deserialize_patterns(text_value("[]")), Ok(vec![]));
    assert_eq!(
        deserialize_patterns(FieldValue::Array(vec![Some("p".to_string())])),
        Ok(vec!["p".to_string()])
    );
    assert_eq!(deserialize_patterns(FieldValue::Null), Err(FieldError::NotPatterns));
    assert_eq!(
        patterns_from_text("t".to_string(), None),
        vec!["t".to_string()]
    );
    assert_eq!(patterns_from_text("t".to_string(), Some(vec![])), Vec::<String>::new());
}

#[test]
fn texts_come_in_four_shapes() {
    assert_eq!(deserialize_optional_string(FieldValue::Null), Ok(None));
    assert_eq!(
        deserialize_optional_string(text_value("[1,2]")),
        Ok(Some("[1,2]".to_string()))
    );
    assert_eq!(
        deserialize_optional_string(text_value("[\"a\",\"b\"]")),
        deserialize_optional_string(FieldValue::Array(vec![
            Some("a".to_string()),
            Some("b".to_string())
        ]))
    );
    assert_eq!(
        deserialize_optional_string(FieldValue::Object),
        Err(FieldError::NotText)
    );
    assert_eq!(deserialize_string(FieldValue::Null), Ok(String::new()));
    assert_eq!(
        text_from_text("t".to_string(), Some(vec!["x".to_string(), "y".to_string()])),
        "x y"
    );
}

#[test]
fn numbers_are_read_leniently_but_for_limits() {
    assert_eq!(deserialize_optional_number(&FieldValue::Null), Ok(None));
    assert_eq!(deserialize_optional_number(&text_value(" 2e1 ")), Ok(Some(number(20.0))));
    assert_eq!(deserialize_optional_number(&text_value("three")), Ok(None));
    assert_eq!(deserialize_optional_number(&FieldValue::Array(vec![None])), Ok(None));
    assert_eq!(deserialize_optional_number(&FieldValue::Bool), Err(FieldError::NotNumber));
    assert_eq!(deserialize_limit(&FieldValue::Null), Ok(None));
    assert_eq!(deserialize_limit(&FieldValue::Number(number(1.5))), Ok(Some(number(1.5))));
    assert_eq!(deserialize_limit(&FieldValue::Object), Err(FieldError::NotLimit));
}

#[test]
fn errors_say_what_was_expected() {
    assert_eq!(
        FieldError::NotPatterns.expecting(),
        "a string, an array of strings, or a stringified JSON array"
    );
    assert_eq!(
        FieldError::NotText.expecting(),
        "a string, an array of strings, a stringified JSON array, or null"
    );
    assert_eq!(FieldError::NotTextElement.expecting(), "a string");
    assert_eq!(
        FieldError::NotNumber.expecting(),
        "a number, a numeric string, or null"
    );
    assert_eq!(FieldError::NotLimit.expecting(), "f64");
}

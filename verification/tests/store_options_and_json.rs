use hermes_rs::state::error::Error;
use hermes_rs::state::json::{json_column_text, parse_json_column};
use hermes_rs::state::sqlite::store_connect_options;

#[test]
fn connect_options_for_a_file_path() {
    let opts = match store_connect_options("sqlite:/tmp/hermes-test.db") {
        Ok(o) => o,
        Err(e) => panic!("unexpected error: {}", e.display_text()),
    };
    assert_eq!(opts.get_filename(), std::path::Path::new("/tmp/hermes-test.db"));
    let shown = format!("{opts:?}");
    assert!(shown.contains("create_if_missing: true"));
    assert!(shown.contains("\"journal_mode\": Some(\"WAL\")"));
    assert!(shown.contains("\"foreign_keys\": Some(\"ON\")"));
}

#[test]
fn connect_options_reject_an_unknown_mode() {
    match store_connect_options("sqlite:/tmp/hermes-test.db?mode=bogus") {
        Err(Error::Message(m)) => assert!(m.starts_with("parsing database path: ")),
        Err(e) => panic!("unexpected error kind: {}", e.display_text()),
        Ok(_) => panic!("expected a parse error"),
    }
}

#[test]
fn json_column_absent_and_present() {
    assert!(matches!(parse_json_column(None, "parsing x"), Ok(None)));

    match parse_json_column(Some(r#"{"a":[1,2]}"#), "parsing x") {
        Ok(Some(v)) => assert_eq!(v, {
            let mut m = serde_json::Map::new();
            m.insert("a".to_string(), serde_json::Value::Array(vec![1.into(), 2.into()]));
            serde_json::Value::Object(m)
        }),
        _ => panic!("expected a value"),
    }
}

#[test]
fn json_column_rejects_invalid_text() {
    match parse_json_column(Some("{not json"), "parsing reasoning_details from DB") {
        Err(Error::Message(m)) => {
            assert!(m.starts_with("parsing reasoning_details from DB: "))
        },
        _ => panic!("expected a message error"),
    }
}

#[test]
fn json_column_text_serializes_values() {
    assert!(matches!(json_column_text(None, "serializing x"), Ok(None)));
    let v = serde_json::Value::Array(vec![serde_json::Value::Bool(true), serde_json::Value::Null]);
    match json_column_text(Some(&v), "serializing x") {
        Ok(Some(t)) => assert_eq!(t, "[true,null]"),
        _ => panic!("expected text"),
    }
}

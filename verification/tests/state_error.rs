use hermes_rs::error::FromMessage;
use hermes_rs::state::error::{Context, Error, Result};

#[test]
fn state_result_context_adds_prefix() {
    let r: std::result::Result<(), std::io::Error> =
        Err(std::io::Error::new(std::io::ErrorKind::NotFound, "no such table"));
    let mapped: Result<()> = r.context("fetching session");
    assert_eq!(
        mapped.err().map(|e| e.display_text()),
        Some("fetching session: no such table".to_string())
    );
}

#[test]
fn state_option_context_converts_none() {
    let opt: Option<&str> = None;
    let r: Result<&str> = opt.context("expected a row");
    assert_eq!(r.err().map(|e| e.display_text()), Some("expected a row".to_string()));
}

#[test]
fn state_with_context_on_result_and_option() {
    let err: std::result::Result<(), String> = Err("locked".to_string());
    let r: Result<()> = err.with_context(|| "ending session".to_string());
    assert_eq!(r.err().map(|e| e.display_text()), Some("ending session: locked".to_string()));

    let some: Option<i64> = Some(9);
    let r: Result<i64> = some.with_context(|| panic!("must not be called"));
    assert_eq!(r.ok(), Some(9));
}

#[test]
fn state_error_from_message_and_conversions() {
    let e = Error::from_message("bad row".to_string());
    assert_eq!(e.display_text(), "bad row");

    let sqlx_err = sqlx::Error::RowNotFound;
    let expected = sqlx_err.to_string();
    let e: Error = sqlx_err.into();
    assert!(matches!(e, Error::Sqlx(_)));
    assert_eq!(e.display_text(), expected);

    let json_err = match serde_json::from_str::<serde_json::Value>("[") {
        Err(e) => e,
        Ok(_) => panic!("expected a parse error"),
    };
    let e: Error = json_err.into();
    assert!(matches!(e, Error::Json(_)));
}

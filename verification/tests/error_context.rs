use hermes_rs::error::{Context, Error, FromMessage, Result};

#[test]
fn error_message_displays() {
    let e: Error = Error::message("something went wrong");
    assert_eq!(e.display_text(), "something went wrong");
}

#[test]
fn result_context_adds_prefix() {
    let r: std::result::Result<(), std::io::Error> =
        Err(std::io::Error::new(std::io::ErrorKind::NotFound, "missing"));
    let mapped: Result<()> = r.context("loading config");
    let err_msg = mapped.err().map(|e| e.display_text()).unwrap_or_default();
    assert!(err_msg.contains("loading config"));
    assert!(err_msg.contains("missing"));
}

#[test]
fn option_context_converts_none() {
    let opt: Option<i32> = None;
    let r: Result<i32> = opt.context("expected a value");
    let err_msg = r.err().map(|e| e.display_text()).unwrap_or_default();
    assert_eq!(err_msg, "expected a value");
}

#[test]
fn option_context_passes_some() {
    let opt: Option<i32> = Some(42);
    let r: Result<i32> = opt.context("should not fail");
    assert_eq!(r.ok(), Some(42));
}

#[test]
fn io_error_converts() {
    let io_err = std::io::Error::new(std::io::ErrorKind::PermissionDenied, "denied");
    let e: Error = io_err.into();
    assert!(e.display_text().contains("denied"));
}

#[test]
fn result_context_message_is_context_colon_source() {
    let r: std::result::Result<u8, String> = Err("disk full".to_string());
    let mapped: Result<u8> = r.context("saving");
    match mapped {
        Err(Error::Message(m)) => assert_eq!(m, "saving: disk full"),
        _ => panic!("expected a message error"),
    }
}

#[test]
fn result_context_passes_ok() {
    let r: std::result::Result<u8, String> = Ok(7);
    let mapped: Result<u8> = r.context("saving");
    assert_eq!(mapped.ok(), Some(7));
}

#[test]
fn result_with_context_calls_closure_only_on_error() {
    let ok: std::result::Result<u8, String> = Ok(1);
    let mapped: Result<u8> = ok.with_context(|| panic!("must not be called"));
    assert_eq!(mapped.ok(), Some(1));

    let err: std::result::Result<u8, String> = Err("boom".to_string());
    let mapped: Result<u8> = err.with_context(|| format!("step {}", 3));
    assert_eq!(mapped.err().map(|e| e.display_text()), Some("step 3: boom".to_string()));
}

#[test]
fn option_with_context_uses_closure_text() {
    let none: Option<u8> = None;
    let r: Result<u8> = none.with_context(|| "lazy message".to_string());
    assert_eq!(r.err().map(|e| e.display_text()), Some("lazy message".to_string()));

    let some: Option<u8> = Some(5);
    let r: Result<u8> = some.with_context(|| panic!("must not be called"));
    assert_eq!(r.ok(), Some(5));
}

#[test]
fn other_error_displays_internal_error() {
    let source = std::io::Error::new(std::io::ErrorKind::Other, "hidden");
    let e: Error = Error::other(source);
    assert!(matches!(e, Error::Other { .. }));
    assert_eq!(e.display_text(), "internal error");
}

#[test]
fn json_error_converts_and_displays() {
    let parse = serde_json::from_str::<serde_json::Value>("{not json");
    let json_err = match parse {
        Err(e) => e,
        Ok(_) => panic!("expected a parse error"),
    };
    let expected = json_err.to_string();
    let e: Error = json_err.into();
    assert!(matches!(e, Error::Json(_)));
    assert_eq!(e.display_text(), expected);
}

#[test]
fn from_message_builds_message_variant() {
    let e: Error = Error::from_message("plain".to_string());
    match e {
        Error::Message(m) => assert_eq!(m, "plain"),
        _ => panic!("expected a message error"),
    }
}

use hermes_rs::state::search::{sanitize_fts5_query, search_match_expression};

#[test]
fn sanitize_quotes_a_single_word() {
    assert_eq!(sanitize_fts5_query("rust"), "\"rust\"");
}

#[test]
fn sanitize_removes_special_characters() {
    assert_eq!(sanitize_fts5_query("hello, world!"), "\"hello\" \"world\"");
    assert_eq!(sanitize_fts5_query("C++ & rust-lang"), "\"C\" \"rustlang\"");
    assert_eq!(sanitize_fts5_query("a AND (b OR c*)"), "\"a\" \"AND\" \"b\" \"OR\" \"c\"");
}

#[test]
fn sanitize_collapses_whitespace() {
    assert_eq!(sanitize_fts5_query("  tell\tme \n about  "), "\"tell\" \"me\" \"about\"");
}

#[test]
fn sanitize_keeps_unicode_words() {
    assert_eq!(sanitize_fts5_query("héllo 世界 ٣"), "\"héllo\" \"世界\" \"٣\"");
}

#[test]
fn sanitize_strips_existing_quotes() {
    assert_eq!(sanitize_fts5_query("\"quoted phrase\""), "\"quoted\" \"phrase\"");
}

#[test]
fn sanitize_of_nothing_searchable_is_empty() {
    assert_eq!(sanitize_fts5_query(""), "");
    assert_eq!(sanitize_fts5_query("   "), "");
    assert_eq!(sanitize_fts5_query("*** --- ()"), "");
}

#[test]
fn sanitized_text_has_only_quotes_spaces_and_alphanumerics() {
    let out = sanitize_fts5_query("x:y^z \"w\" NEAR(a, b) {c} ~d");
    assert!(out
        .chars()
        .all(|c| c == '"' || c == ' ' || (c.is_alphanumeric() && !c.is_whitespace())));
    assert_eq!(out, "\"xyz\" \"w\" \"NEARa\" \"b\" \"c\" \"d\"");
}

#[test]
fn search_expression_is_none_for_empty_query() {
    assert_eq!(search_match_expression(""), None);
    assert_eq!(search_match_expression("?!"), None);
}

#[test]
fn search_expression_for_words() {
    assert_eq!(search_match_expression("rust"), Some("\"rust\"".to_string()));
    assert_eq!(search_match_expression("hello world"), Some("\"hello\" \"world\"".to_string()));
}

#[test]
fn sanitize_ignores_deleted_special_characters() {
    assert_eq!(sanitize_fts5_query("rust-lang"), sanitize_fts5_query("rustlang"));
    assert_eq!(sanitize_fts5_query("(a)b"), sanitize_fts5_query("ab"));
}

#[test]
fn sanitize_ignores_the_shape_of_whitespace_runs() {
    assert_eq!(sanitize_fts5_query("a \t\n b"), sanitize_fts5_query("a b"));
    assert_eq!(sanitize_fts5_query("x\u{3000}y"), sanitize_fts5_query("x   y"));
}

#[test]
fn sanitize_is_idempotent() {
    for q in ["hello, world!", "  C++ & rust-lang ", "\"quoted\" (x)", "", "héllo 世界"] {
        let once = sanitize_fts5_query(q);
        assert_eq!(sanitize_fts5_query(&once), once);
    }
}

#[test]
fn sanitize_classifies_every_char_as_std_does() {
    for u in 0u32..=0x10FFFF {
        let c = match char::from_u32(u) {
            Some(c) => c,
            None => continue,
        };
        let out = sanitize_fts5_query(&format!("a{c}b"));
        let expected = if c.is_whitespace() {
            "\"a\" \"b\"".to_string()
        } else if c.is_alphanumeric() {
            format!("\"a{c}b\"")
        } else {
            "\"ab\"".to_string()
        };
        assert_eq!(out, expected, "char U+{u:04X}");
    }
}

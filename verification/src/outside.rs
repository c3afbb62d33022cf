//! Outside types that the library's own types carry.
use vstd::prelude::*;
use serde_json::Error as JsonError;
use std::io::Error as IoError;
use sqlx::Error as SqlxError;
use sqlx::migrate::MigrateError;
use serde_json::Value as JsonValue;
use sqlx::sqlite::SqliteConnectOptions;
use sqlx::sqlite::SqliteJournalMode;

verus! {

/// `std::io::Error`, carried opaquely by the shared error type.
#[verifier::external_type_specification]
#[verifier::external_body]
pub struct ExIoError(IoError);

/// `serde_json::Error`, carried opaquely by both error types.
#[verifier::external_type_specification]
#[verifier::external_body]
pub struct ExJsonError(JsonError);

/// `sqlx::Error`, carried opaquely by the store's error type.
#[verifier::external_type_specification]
#[verifier::external_body]
pub struct ExSqlxError(SqlxError);

/// `sqlx::migrate::MigrateError`, carried opaquely by the store's error type.
#[verifier::external_type_specification]
#[verifier::external_body]
pub struct ExMigrateError(MigrateError);

/// `serde_json::Value`, carried opaquely by a tool's parameter schema.
#[verifier::external_type_specification]
#[verifier::external_body]
pub struct ExJsonValue(JsonValue);

/// `sqlx::sqlite::SqliteConnectOptions`, the options a store connects with.
#[verifier::external_type_specification]
#[verifier::external_body]
pub struct ExSqliteConnectOptions(SqliteConnectOptions);

/// `sqlx::sqlite::SqliteJournalMode`, handed to the connect options.
#[verifier::external_type_specification]
#[verifier::external_body]
pub struct ExSqliteJournalMode(SqliteJournalMode);

/// The derived `Clone` of `serde_json::Value`; nothing is stated of the copy,
/// which callers in this crate only carry.
pub assume_specification[ <JsonValue as Clone>::clone ](value: &JsonValue) -> JsonValue;

} // verus!

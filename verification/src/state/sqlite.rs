//! The connect options of the SQLite session store, built from a database path.
use vstd::prelude::*;
use std::str::FromStr;
use sqlx::sqlite::{SqliteConnectOptions, SqliteJournalMode};
use crate::state::error::{Context, Error};

verus! {

/// Whether `SqliteConnectOptions::from_str` accepts `url`.
pub uninterp spec fn sqlite_url_parses(url: Seq<char>) -> bool;

/// The options `SqliteConnectOptions::from_str` builds from `url` when the
/// process-wide in-memory database counter reads `counter`. The parser reads
/// that counter only for the in-memory database `:memory:` (to name it); it
/// depends on nothing else.
pub uninterp spec fn parsed_sqlite_options(url: Seq<char>, counter: nat) -> SqliteConnectOptions;

/// Whether `s` contains `:memory:` somewhere. A URL without it never names the
/// in-memory database, the one case in which the parser draws a name from a
/// per-process counter.
pub open spec fn mentions_memory_database(s: Seq<char>) -> bool {
    exists|i: int|
        0 <= i && i + 8 <= s.len() && #[trigger] s.subrange(i, i + 8) == seq![
            ':',
            'm',
            'e',
            'm',
            'o',
            'r',
            'y',
            ':',
        ]
}

/// Calls `SqliteConnectOptions::from_str`. Whether it succeeds is named, as a
/// function of `url` alone; the options it builds are named as a function of
/// `url` and of the value the in-memory counter had, which is left open; for a
/// `url` that does not mention `:memory:` the counter is not read.
#[verifier::external_body]
fn parse_sqlite_url(url: &str) -> (r: Result<SqliteConnectOptions, sqlx::Error>)
    ensures
        r is Ok <==> sqlite_url_parses(url@),
        r matches Ok(o) ==> exists|n: nat| o == #[trigger] parsed_sqlite_options(url@, n),
        !mentions_memory_database(url@) ==> (r matches Ok(o) ==> o == parsed_sqlite_options(
            url@,
            0,
        )),
{
    SqliteConnectOptions::from_str(url)
}

/// SQLite journal modes (the `journal_mode` pragma).
#[derive(Debug, Clone, Copy, PartialEq, Eq, Structural)]
pub enum JournalMode {
    Delete,
    Truncate,
    Persist,
    Memory,
    Wal,
    Off,
}

/// The options `SqliteConnectOptions::create_if_missing` returns for `opts`
/// and `create`.
pub uninterp spec fn with_create_if_missing(opts: SqliteConnectOptions, create: bool) -> SqliteConnectOptions;

/// The options `SqliteConnectOptions::journal_mode` returns for `opts` and the
/// sqlx journal mode of the same name as `mode`.
pub uninterp spec fn with_journal_mode(opts: SqliteConnectOptions, mode: JournalMode) -> SqliteConnectOptions;

/// The options `SqliteConnectOptions::foreign_keys` returns for `opts` and `on`.
pub uninterp spec fn with_foreign_keys(opts: SqliteConnectOptions, on: bool) -> SqliteConnectOptions;

/// Calls `SqliteConnectOptions::create_if_missing`, a setter whose result
/// depends on its arguments alone.
#[verifier::external_body]
fn set_create_if_missing(opts: SqliteConnectOptions, create: bool) -> (r: SqliteConnectOptions)
    ensures
        r == with_create_if_missing(opts, create),
{
    opts.create_if_missing(create)
}

/// Calls `SqliteConnectOptions::journal_mode` with the sqlx mode of the same
/// name as `mode`, a setter whose result depends on its arguments alone.
#[verifier::external_body]
fn set_journal_mode(opts: SqliteConnectOptions, mode: JournalMode) -> (r: SqliteConnectOptions)
    ensures
        r == with_journal_mode(opts, mode),
{
    let sqlx_mode = match mode {
        JournalMode::Delete => SqliteJournalMode::Delete,
        JournalMode::Truncate => SqliteJournalMode::Truncate,
        JournalMode::Persist => SqliteJournalMode::Persist,
        JournalMode::Memory => SqliteJournalMode::Memory,
        JournalMode::Wal => SqliteJournalMode::Wal,
        JournalMode::Off => SqliteJournalMode::Off,
    };
    opts.journal_mode(sqlx_mode)
}

/// Calls `SqliteConnectOptions::foreign_keys`, a setter whose result depends
/// on its arguments alone.
#[verifier::external_body]
fn set_foreign_keys(opts: SqliteConnectOptions, on: bool) -> (r: SqliteConnectOptions)
    ensures
        r == with_foreign_keys(opts, on),
{
    opts.foreign_keys(on)
}

/// The store's choices applied to parsed options `p`: create the database if
/// missing, a write-ahead (WAL) journal, and foreign keys enforced.
pub open spec fn with_store_choices(p: SqliteConnectOptions) -> SqliteConnectOptions {
    with_foreign_keys(with_journal_mode(with_create_if_missing(p, true), JournalMode::Wal), true)
}

/// The options the store opens `db_path` with: what sqlx parses from
/// `db_path` itself (for `:memory:`, with whatever name the in-memory counter
/// gave), with the database created if missing, a write-ahead (WAL) journal,
/// and foreign keys enforced. A path that sqlx cannot parse gives the error
/// `"parsing database path: {error}"`.
pub fn store_connect_options(db_path: &str) -> (r: Result<SqliteConnectOptions, Error>)
    ensures
        r is Ok <==> sqlite_url_parses(db_path@),
        r matches Ok(o) ==> exists|p: SqliteConnectOptions| o == #[trigger] with_store_choices(p),
        r matches Ok(o) ==> exists|n: nat|
            o == with_store_choices(#[trigger] parsed_sqlite_options(db_path@, n)),
        !mentions_memory_database(db_path@) ==> (r matches Ok(o) ==> o == with_store_choices(
            parsed_sqlite_options(db_path@, 0),
        )),
        r is Err ==> r matches Err(Error::Message(m)),
        r matches Err(Error::Message(m)) ==> exists|t: String|
            m@ == "parsing database path"@ + ": "@ + t@,
{
    let parsed = match parse_sqlite_url(db_path).context("parsing database path") {
        Ok(opts) => opts,
        Err(e) => return Err(e),
    };
    let ghost p = parsed;
    let opts = set_create_if_missing(parsed, true);
    let opts = set_journal_mode(opts, JournalMode::Wal);
    let opts = set_foreign_keys(opts, true);
    assert(opts == with_store_choices(p));
    Ok(opts)
}

} // verus!

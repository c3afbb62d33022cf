//! The session store's error type, with its own [`Context`] helpers.
use vstd::prelude::*;
use vstd::string::*;
use crate::error::FromMessage;

verus! {

broadcast use vstd::string::group_string_axioms;

/// Errors of the session store.
pub enum Error {
    Message(String),
    Sqlx(sqlx::Error),
    Json(serde_json::Error),
    Migrate(sqlx::migrate::MigrateError),
}

pub type Result<T> = core::result::Result<T, Error>;

impl Error {
    /// The text that the error displays: the message itself, or the display
    /// of the wrapped database, JSON or migration error.
    pub fn display_text(&self) -> (text: String)
        ensures
            match self {
                Error::Message(m) => text@ == m@,
                Error::Sqlx(e) => to_string_from_display_ensures::<sqlx::Error>(e, text),
                Error::Json(e) => to_string_from_display_ensures::<serde_json::Error>(e, text),
                Error::Migrate(e) => to_string_from_display_ensures::<sqlx::migrate::MigrateError>(
                    e,
                    text,
                ),
            },
    {
        match self {
            Error::Message(m) => m.clone(),
            Error::Sqlx(e) => e.to_string(),
            Error::Json(e) => e.to_string(),
            Error::Migrate(e) => e.to_string(),
        }
    }
}

impl FromMessage for Error {
    fn from_message(message: String) -> (e: Self)
        ensures
            e == Error::Message(message),
    {
        Error::Message(message)
    }
}

impl From<sqlx::Error> for Error {
    fn from(e: sqlx::Error) -> (r: Self) {
        Error::Sqlx(e)
    }
}

impl vstd::std_specs::convert::FromSpecImpl<sqlx::Error> for Error {
    open spec fn obeys_from_spec() -> bool {
        true
    }

    open spec fn from_spec(v: sqlx::Error) -> Self {
        Error::Sqlx(v)
    }
}

impl From<serde_json::Error> for Error {
    fn from(e: serde_json::Error) -> (r: Self) {
        Error::Json(e)
    }
}

impl vstd::std_specs::convert::FromSpecImpl<serde_json::Error> for Error {
    open spec fn obeys_from_spec() -> bool {
        true
    }

    open spec fn from_spec(v: serde_json::Error) -> Self {
        Error::Json(v)
    }
}

impl From<sqlx::migrate::MigrateError> for Error {
    fn from(e: sqlx::migrate::MigrateError) -> (r: Self) {
        Error::Migrate(e)
    }
}

impl vstd::std_specs::convert::FromSpecImpl<sqlx::migrate::MigrateError> for Error {
    open spec fn obeys_from_spec() -> bool {
        true
    }

    open spec fn from_spec(v: sqlx::migrate::MigrateError) -> Self {
        Error::Migrate(v)
    }
}

/// `context` and `with_context` on `Result` and `Option`, giving the store's
/// [`Error::Message`].
pub trait Context<T>: Sized {
    fn context(self, context: &str) -> Result<T>;

    fn with_context<F: FnOnce() -> String>(self, f: F) -> Result<T>
        requires
            f.requires(()),
    ;
}

impl<T, E: core::fmt::Display> Context<T> for core::result::Result<T, E> {
    /// On `Err(source)`, the message is `"{context}: {source}"`.
    fn context(self, context: &str) -> (r: Result<T>)
        ensures
            match self {
                Ok(v) => r == Ok::<T, Error>(v),
                Err(source) => r matches Err(Error::Message(m)) && exists|t: String|
                    to_string_from_display_ensures::<E>(&source, t) && m@ == context@ + ": "@
                        + t@,
            },
    {
        match self {
            Ok(v) => Ok(v),
            Err(source) => {
                let text = source.to_string();
                let mut m = context.to_string();
                m.append(": ");
                m.append(text.as_str());
                Err(Error::Message(m))
            },
        }
    }

    /// On `Err(source)`, `f` is called for the context and the message is
    /// `"{context}: {source}"`; on `Ok`, `f` is not called.
    fn with_context<F: FnOnce() -> String>(self, f: F) -> (r: Result<T>)
        ensures
            match self {
                Ok(v) => r == Ok::<T, Error>(v),
                Err(source) => r matches Err(Error::Message(m)) && exists|c: String, t: String|
                    f.ensures((), c) && to_string_from_display_ensures::<E>(&source, t) && m@
                        == c@ + ": "@ + t@,
            },
    {
        match self {
            Ok(v) => Ok(v),
            Err(source) => {
                let c = f();
                let text = source.to_string();
                let mut m = c;
                m.append(": ");
                m.append(text.as_str());
                Err(Error::Message(m))
            },
        }
    }
}

impl<T> Context<T> for Option<T> {
    /// `None` becomes an error whose message is `context`.
    fn context(self, context: &str) -> (r: Result<T>)
        ensures
            match self {
                Some(v) => r == Ok::<T, Error>(v),
                None => r matches Err(Error::Message(m)) && m@ == context@,
            },
    {
        match self {
            Some(v) => Ok(v),
            None => Err(Error::Message(context.to_string())),
        }
    }

    /// `None` becomes an error whose message is what `f` returns; on `Some`,
    /// `f` is not called.
    fn with_context<F: FnOnce() -> String>(self, f: F) -> (r: Result<T>)
        ensures
            match self {
                Some(v) => r == Ok::<T, Error>(v),
                None => r matches Err(Error::Message(m)) && f.ensures((), m),
            },
    {
        match self {
            Some(v) => Ok(v),
            None => Err(Error::Message(f())),
        }
    }
}

} // verus!

//! Shared error type for the crate, the [`FromMessage`] trait, and the
//! [`Context`] helpers that turn a failing `Result` or an empty `Option` into
//! an [`Error::Message`].
use vstd::prelude::*;
use vstd::string::*;

verus! {

broadcast use vstd::string::group_string_axioms;

/// Shared error type.
///
/// `O` is the type of the source that [`Error::Other`] wraps; by default it is
/// any boxed `std::error::Error + Send + Sync`.
pub enum Error<O = Box<dyn std::error::Error + Send + Sync>> {
    /// A plain text error message.
    Message(String),
    /// An I/O error.
    Io(std::io::Error),
    /// A JSON serialization/deserialization error.
    Json(serde_json::Error),
    /// An opaque internal error wrapping another error.
    Other { source: O },
}

/// Convenience alias.
pub type Result<T, O = Box<dyn std::error::Error + Send + Sync>> = core::result::Result<T, Error<O>>;

impl<O> Error<O> {
    /// Create an error from a plain message.
    pub fn message(message: &str) -> (e: Self)
        ensures
            e matches Error::Message(m) && m@ == message@,
    {
        Error::Message(message.to_string())
    }

    /// Wrap an arbitrary error as [`Error::Other`].
    pub fn other<E>(source: E) -> (e: Self) where O: From<E>
        ensures
            e matches Error::Other { source: s } && call_ensures(O::from, (source,), s),
    {
        Error::Other { source: O::from(source) }
    }

    /// The text that the error displays: the message itself, the display of
    /// the wrapped I/O or JSON error, or `internal error`.
    pub fn display_text(&self) -> (text: String)
        ensures
            match self {
                Error::Message(m) => text@ == m@,
                Error::Io(e) => to_string_from_display_ensures::<std::io::Error>(e, text),
                Error::Json(e) => to_string_from_display_ensures::<serde_json::Error>(e, text),
                Error::Other { .. } => text@ == "internal error"@,
            },
    {
        match self {
            Error::Message(m) => m.clone(),
            Error::Io(e) => e.to_string(),
            Error::Json(e) => e.to_string(),
            Error::Other { .. } => "internal error".to_string(),
        }
    }
}

/// Trait for error types that can be constructed from a plain message string.
pub trait FromMessage: Sized {
    fn from_message(message: String) -> Self;
}

impl<O> FromMessage for Error<O> {
    fn from_message(message: String) -> (e: Self)
        ensures
            e == Error::<O>::Message(message),
    {
        Error::Message(message)
    }
}

impl<O> From<std::io::Error> for Error<O> {
    fn from(e: std::io::Error) -> (r: Self) {
        Error::Io(e)
    }
}

impl<O> vstd::std_specs::convert::FromSpecImpl<std::io::Error> for Error<O> {
    open spec fn obeys_from_spec() -> bool {
        true
    }

    open spec fn from_spec(v: std::io::Error) -> Self {
        Error::Io(v)
    }
}

impl<O> From<serde_json::Error> for Error<O> {
    fn from(e: serde_json::Error) -> (r: Self) {
        Error::Json(e)
    }
}

impl<O> vstd::std_specs::convert::FromSpecImpl<serde_json::Error> for Error<O> {
    open spec fn obeys_from_spec() -> bool {
        true
    }

    open spec fn from_spec(v: serde_json::Error) -> Self {
        Error::Json(v)
    }
}

/// `context` and `with_context` on `Result` and `Option`: a failure becomes an
/// [`Error::Message`] that says what was being done.
pub trait Context<T>: Sized {
    fn context<O>(self, context: &str) -> core::result::Result<T, Error<O>>;

    fn with_context<O, F: FnOnce() -> String>(self, f: F) -> core::result::Result<T, Error<O>>
        requires
            f.requires(()),
    ;
}

impl<T, E: core::fmt::Display> Context<T> for core::result::Result<T, E> {
    /// On `Err(source)`, the message is `"{context}: {source}"`.
    fn context<O>(self, context: &str) -> (r: core::result::Result<T, Error<O>>)
        ensures
            match self {
                Ok(v) => r == Ok::<T, Error<O>>(v),
                Err(source) => r matches Err(Error::Message(m)) && exists|t: String|
                    to_string_from_display_ensures::<E>(&source, t) && m@ == context@ + ": "@
                        + t@,
            },
    {
        match self {
            Ok(v) => Ok(v),
            Err(source) => {
                let text = source.to_string();
                let mut m = context.to_string();
                m.append(": ");
                m.append(text.as_str());
                Err(Error::Message(m))
            },
        }
    }

    /// On `Err(source)`, `f` is called for the context and the message is
    /// `"{context}: {source}"`; on `Ok`, `f` is not called.
    fn with_context<O, F: FnOnce() -> String>(self, f: F) -> (r: core::result::Result<
        T,
        Error<O>,
    >)
        ensures
            match self {
                Ok(v) => r == Ok::<T, Error<O>>(v),
                Err(source) => r matches Err(Error::Message(m)) && exists|c: String, t: String|
                    f.ensures((), c) && to_string_from_display_ensures::<E>(&source, t) && m@
                        == c@ + ": "@ + t@,
            },
    {
        match self {
            Ok(v) => Ok(v),
            Err(source) => {
                let c = f();
                let text = source.to_string();
                let mut m = c;
                m.append(": ");
                m.append(text.as_str());
                Err(Error::Message(m))
            },
        }
    }
}

impl<T> Context<T> for Option<T> {
    /// `None` becomes an error whose message is `context`.
    fn context<O>(self, context: &str) -> (r: core::result::Result<T, Error<O>>)
        ensures
            match self {
                Some(v) => r == Ok::<T, Error<O>>(v),
                None => r matches Err(Error::Message(m)) && m@ == context@,
            },
    {
        match self {
            Some(v) => Ok(v),
            None => Err(Error::Message(context.to_string())),
        }
    }

    /// `None` becomes an error whose message is what `f` returns; on `Some`,
    /// `f` is not called.
    fn with_context<O, F: FnOnce() -> String>(self, f: F) -> (r: core::result::Result<T, Error<O>>)
        ensures
            match self {
                Some(v) => r == Ok::<T, Error<O>>(v),
                None => r matches Err(Error::Message(m)) && f.ensures((), m),
            },
    {
        match self {
            Some(v) => Ok(v),
            None => Err(Error::Message(f())),
        }
    }
}

} // verus!

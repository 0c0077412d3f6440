//! The failures of the client, and what each one tells the caller.

use crate::number::NumberError;
use sqlx::Error as StoreError;
use vstd::prelude::*;
use vstd::std_specs::convert::FromSpecImpl;
use vstd::string::{to_string_from_display_ensures, StringExecFns};

verus! {

/// `sqlx::Error`, carried through unread.
#[verifier::external_type_specification]
#[verifier::external_body]
pub struct ExSqlxError(StoreError);

/// A setting that is present but cannot be used.
#[derive(Debug)]
pub enum EnvError {
    /// The settings source holds a value for `key` that is not text.
    NotUnicode { key: String },
    /// The value under `key` is not a number.
    Invalid { key: String, value: String, reason: NumberError },
}

/// An [`EnvError`] with its texts as sequences of characters.
pub enum EnvFailure {
    NotUnicode { key: Seq<char> },
    Invalid { key: Seq<char>, value: Seq<char>, reason: NumberError },
}

impl EnvFailure {
    /// The message of this failure: the key, then what is wrong with its value.
    pub open spec fn text(self) -> Seq<char> {
        match self {
            EnvFailure::NotUnicode { key } => key + " is not valid unicode"@,
            EnvFailure::Invalid { key, value, reason } => key + "="@ + value + ": "@
                + reason.text(),
        }
    }
}

impl View for EnvError {
    type V = EnvFailure;

    open spec fn view(&self) -> EnvFailure {
        match self {
            EnvError::NotUnicode { key } => EnvFailure::NotUnicode { key: key@ },
            EnvError::Invalid { key, value, reason } => EnvFailure::Invalid {
                key: key@,
                value: value@,
                reason: *reason,
            },
        }
    }
}

impl Clone for EnvError {
    fn clone(&self) -> (copy: Self)
        ensures
            copy@ == self@,
    {
        match self {
            EnvError::NotUnicode { key } => EnvError::NotUnicode { key: key.clone() },
            EnvError::Invalid { key, value, reason } => EnvError::Invalid {
                key: key.clone(),
                value: value.clone(),
                reason: *reason,
            },
        }
    }
}

impl EnvError {
    /// The message of this failure.
    pub fn message(&self) -> (text: String)
        ensures
            text@ == self@.text(),
    {
        match self {
            EnvError::NotUnicode { key } => {
                let mut text = String::from_str(key.as_str());
                text.append(" is not valid unicode");
                text
            },
            EnvError::Invalid { key, value, reason } => {
                let mut text = String::from_str(key.as_str());
                text.append("=");
                text.append(value.as_str());
                text.append(": ");
                text.append(reason.describe());
                text
            },
        }
    }
}

/// Everything that can go wrong between reading the settings and the last row.
#[derive(Debug)]
pub enum Error {
    /// A setting could not be read or parsed.
    Env(EnvError),
    /// The connection URL is not one the store accepts.
    Initialize(StoreError),
    /// The pool handed out no connection.
    Acquire(StoreError),
    /// Running the query or decoding a row failed.
    Fetch(StoreError),
    /// The rows of a stream guard were asked for a second time.
    StreamExhausted,
}

/// The failure underneath an [`Error`].
pub enum Source<'a> {
    Env(&'a EnvError),
    Store(&'a StoreError),
}

/// Whether `text` is `heading` followed by what the store's error displays.
pub open spec fn displayed(e: &StoreError, heading: Seq<char>, text: Seq<char>) -> bool {
    exists|detail: String| #[trigger]
        to_string_from_display_ensures::<StoreError>(e, detail) && text == heading + detail@
}

impl Error {
    /// The fixed words that open the message of this error. For a setting's
    /// failure there are none: its own message is passed on.
    pub open spec fn heading(&self) -> Seq<char> {
        match self {
            Error::Env(_) => Seq::empty(),
            Error::Initialize(_) => "Error initializing SqliteDb: "@,
            Error::Acquire(_) => "Error acquiring SqliteDb connection: "@,
            Error::Fetch(_) => "Error fetching rows from SqliteDb: "@,
            Error::StreamExhausted => "Error fetching rows from SqliteDb: "@,
        }
    }

    /// The failure underneath, which only an exhausted stream lacks.
    pub open spec fn cause(&self) -> Option<Source<'_>> {
        match self {
            Error::Env(e) => Some(Source::Env(e)),
            Error::Initialize(e) => Some(Source::Store(e)),
            Error::Acquire(e) => Some(Source::Store(e)),
            Error::Fetch(e) => Some(Source::Store(e)),
            Error::StreamExhausted => None,
        }
    }

    /// Whether `text` is the message of this error: the heading, and behind
    /// it what the failure underneath displays. An exhausted stream, with
    /// nothing underneath, says so.
    pub open spec fn says(&self, text: Seq<char>) -> bool {
        match self {
            Error::Env(e) => text == e@.text(),
            Error::Initialize(e) => displayed(e, self.heading(), text),
            Error::Acquire(e) => displayed(e, self.heading(), text),
            Error::Fetch(e) => displayed(e, self.heading(), text),
            Error::StreamExhausted => text == self.heading() + "Stream Exhausted"@,
        }
    }

    /// The message of this error.
    pub fn message(&self) -> (text: String)
        ensures
            self.says(text@),
            self.heading().is_prefix_of(text@),
    {
        match self {
            Error::Env(e) => e.message(),
            Error::Initialize(e) => headed("Error initializing SqliteDb: ", e.to_string()),
            Error::Acquire(e) => headed("Error acquiring SqliteDb connection: ", e.to_string()),
            Error::Fetch(e) => headed("Error fetching rows from SqliteDb: ", e.to_string()),
            Error::StreamExhausted => headed(
                "Error fetching rows from SqliteDb: ",
                String::from_str("Stream Exhausted"),
            ),
        }
    }

    pub fn source(&self) -> (s: Option<Source<'_>>)
        ensures
            s == self.cause(),
    {
        match self {
            Error::Env(e) => Some(Source::Env(e)),
            Error::Initialize(e) => Some(Source::Store(e)),
            Error::Acquire(e) => Some(Source::Store(e)),
            Error::Fetch(e) => Some(Source::Store(e)),
            Error::StreamExhausted => None,
        }
    }
}

/// `heading` followed by `detail`.
pub fn headed(heading: &str, detail: String) -> (text: String)
    ensures
        text@ == heading@ + detail@,
{
    let mut text = String::from_str(heading);
    text.append(detail.as_str());
    text
}

impl From<EnvError> for Error {
    fn from(e: EnvError) -> (r: Error) {
        Error::Env(e)
    }
}

impl FromSpecImpl<EnvError> for Error {
    open spec fn obeys_from_spec() -> bool {
        true
    }

    open spec fn from_spec(e: EnvError) -> Error {
        Error::Env(e)
    }
}

} // verus!

//! The decisions of a pooled SQLite client, kept apart from the waiting.
//!
//! Settings are resolved from what a settings source answered, queries collect
//! their parameters in call order, and a stream guard hands its query out once.
//! Nothing here suspends: the caller leases connections and runs queries, and
//! passes each outcome in.

pub mod config;
pub mod env;
pub mod error;
pub mod number;
pub mod query;
pub mod stream;

pub use config::{Configuration, Found, Resolved};
pub use env::{Lookup, Setting, Url};
pub use error::{EnvError, Error, Source};
pub use number::NumberError;
pub use query::{Param, Query};
pub use stream::{acquired, fetched, SelectStream, State};

//! The configuration of a pool: where it comes from and what it defaults to.

use crate::env::{
    acquire_timeout, connections, duration_from_secs, idle_timeout, max_connections, max_lifetime,
    min_connections, seconds, url, Lookup, Setting, Url,
};
use crate::error::{EnvError, EnvFailure, Error};
use sqlx::sqlite::SqliteConnectOptions;
use sqlx::Error as StoreError;
use std::str::FromStr;
use std::time::Duration;
use vstd::prelude::*;

verus! {

/// `sqlx::sqlite::SqliteConnectOptions`, carried through unread.
#[verifier::external_type_specification]
#[verifier::external_body]
pub struct ExSqliteConnectOptions(SqliteConnectOptions);

pub const DEFAULT_URL: &'static str = "sqlite:db.sqlite";

pub const DEFAULT_MAX_CONNECTIONS: u32 = 10;

pub const DEFAULT_MIN_CONNECTIONS: u32 = 0;

/// Seconds a caller waits for a connection.
pub const DEFAULT_ACQUIRE_TIMEOUT: u64 = 30;

/// Seconds a connection may live.
pub const DEFAULT_MAX_LIFETIME: u64 = 30 * 60;

/// Seconds a connection may sit idle.
pub const DEFAULT_IDLE_TIMEOUT: u64 = 10 * 60;

pub const DEFAULT_TEST_BEFORE_ACQUIRE: bool = false;

/// What the settings source answered for each of the six settings.
pub struct Found {
    pub url: Lookup,
    pub max_connections: Lookup,
    pub min_connections: Lookup,
    pub acquire_timeout: Lookup,
    pub max_lifetime: Lookup,
    pub idle_timeout: Lookup,
}

impl Found {
    /// The answers of a settings source that holds nothing.
    pub open spec fn nothing(self) -> bool {
        &&& self.url == Ok::<Option<String>, EnvError>(None)
        &&& self.max_connections == Ok::<Option<String>, EnvError>(None)
        &&& self.min_connections == Ok::<Option<String>, EnvError>(None)
        &&& self.acquire_timeout == Ok::<Option<String>, EnvError>(None)
        &&& self.max_lifetime == Ok::<Option<String>, EnvError>(None)
        &&& self.idle_timeout == Ok::<Option<String>, EnvError>(None)
    }
}

/// Everything a pool is built from. The two connection counts are taken as
/// they are set. Where more are to be kept open than may be open at all, the
/// limit wins: see [`Configuration::kept_open`].
#[derive(Debug)]
pub struct Configuration {
    pub url: Url,
    pub max_connections: u32,
    pub min_connections: u32,
    pub acquire_timeout: Duration,
    pub max_lifetime: Duration,
    pub idle_timeout: Duration,
    pub test_before_acquire: bool,
}

/// A [`Configuration`] with its URL as a sequence of characters.
pub struct Resolved {
    pub url: Seq<char>,
    pub max_connections: u32,
    pub min_connections: u32,
    pub acquire_timeout: Duration,
    pub max_lifetime: Duration,
    pub idle_timeout: Duration,
    pub test_before_acquire: bool,
}

impl View for Configuration {
    type V = Resolved;

    open spec fn view(&self) -> Resolved {
        Resolved {
            url: self.url@,
            max_connections: self.max_connections,
            min_connections: self.min_connections,
            acquire_timeout: self.acquire_timeout,
            max_lifetime: self.max_lifetime,
            idle_timeout: self.idle_timeout,
            test_before_acquire: self.test_before_acquire,
        }
    }
}

impl Resolved {
    /// What a namespace with nothing set resolves to.
    pub open spec fn defaults() -> Resolved {
        Resolved {
            url: DEFAULT_URL@,
            max_connections: DEFAULT_MAX_CONNECTIONS,
            min_connections: DEFAULT_MIN_CONNECTIONS,
            acquire_timeout: duration_from_secs(DEFAULT_ACQUIRE_TIMEOUT),
            max_lifetime: duration_from_secs(DEFAULT_MAX_LIFETIME),
            idle_timeout: duration_from_secs(DEFAULT_IDLE_TIMEOUT),
            test_before_acquire: DEFAULT_TEST_BEFORE_ACQUIRE,
        }
    }

    /// The URL that is set, else the default one.
    pub open spec fn url_of(found: Lookup) -> Result<Seq<char>, EnvFailure> {
        match found {
            Err(e) => Err(e@),
            Ok(None) => Ok(DEFAULT_URL@),
            Ok(Some(v)) => Ok(v@),
        }
    }

    pub open spec fn max_lifetime_of(namespace: Seq<char>, found: Found) -> Result<
        Duration,
        EnvFailure,
    > {
        seconds(
            namespace,
            Setting::MaxLifetime,
            found.max_lifetime,
            duration_from_secs(DEFAULT_MAX_LIFETIME),
        )
    }

    pub open spec fn idle_timeout_of(namespace: Seq<char>, found: Found) -> Result<
        Duration,
        EnvFailure,
    > {
        seconds(
            namespace,
            Setting::IdleTimeout,
            found.idle_timeout,
            duration_from_secs(DEFAULT_IDLE_TIMEOUT),
        )
    }

    pub open spec fn max_connections_of(namespace: Seq<char>, found: Found) -> Result<
        u32,
        EnvFailure,
    > {
        connections(
            namespace,
            Setting::MaxConnections,
            found.max_connections,
            DEFAULT_MAX_CONNECTIONS,
        )
    }

    pub open spec fn min_connections_of(namespace: Seq<char>, found: Found) -> Result<
        u32,
        EnvFailure,
    > {
        connections(
            namespace,
            Setting::MinConnections,
            found.min_connections,
            DEFAULT_MIN_CONNECTIONS,
        )
    }

    pub open spec fn acquire_timeout_of(namespace: Seq<char>, found: Found) -> Result<
        Duration,
        EnvFailure,
    > {
        seconds(
            namespace,
            Setting::AcquireTimeout,
            found.acquire_timeout,
            duration_from_secs(DEFAULT_ACQUIRE_TIMEOUT),
        )
    }

    /// The failure that decides, if any setting fails: the settings are taken
    /// in a fixed order (lifetime, idle time, most and fewest connections,
    /// waiting time, URL), and the first that fails is the one reported.
    pub open spec fn first_failure(namespace: Seq<char>, found: Found) -> Option<EnvFailure> {
        if let Err(f) = Resolved::max_lifetime_of(namespace, found) {
            Some(f)
        } else if let Err(f) = Resolved::idle_timeout_of(namespace, found) {
            Some(f)
        } else if let Err(f) = Resolved::max_connections_of(namespace, found) {
            Some(f)
        } else if let Err(f) = Resolved::min_connections_of(namespace, found) {
            Some(f)
        } else if let Err(f) = Resolved::acquire_timeout_of(namespace, found) {
            Some(f)
        } else if let Err(f) = Resolved::url_of(found.url) {
            Some(f)
        } else {
            None
        }
    }

    /// The settings of `namespace`, each one as set or else its default,
    /// unless one of them fails.
    pub open spec fn of(namespace: Seq<char>, found: Found) -> Result<Resolved, EnvFailure> {
        match Resolved::first_failure(namespace, found) {
            Some(f) => Err(f),
            None => Ok(
                Resolved {
                    url: Resolved::url_of(found.url)->Ok_0,
                    max_connections: Resolved::max_connections_of(namespace, found)->Ok_0,
                    min_connections: Resolved::min_connections_of(namespace, found)->Ok_0,
                    acquire_timeout: Resolved::acquire_timeout_of(namespace, found)->Ok_0,
                    max_lifetime: Resolved::max_lifetime_of(namespace, found)->Ok_0,
                    idle_timeout: Resolved::idle_timeout_of(namespace, found)->Ok_0,
                    test_before_acquire: DEFAULT_TEST_BEFORE_ACQUIRE,
                },
            ),
        }
    }
}

/// With nothing set, every setting takes its default, in any namespace.
pub proof fn lemma_nothing_set_gives_defaults(namespace: Seq<char>, found: Found)
    requires
        found.nothing(),
    ensures
        Resolved::of(namespace, found) == Ok::<Resolved, EnvFailure>(Resolved::defaults()),
{
}

/// Resolving fails exactly if one of the six settings fails. No setting is
/// made up for by another, nor by a default.
pub proof fn lemma_fails_with_any_setting(namespace: Seq<char>, found: Found)
    ensures
        Resolved::of(namespace, found) is Err <==> {
            ||| Resolved::url_of(found.url) is Err
            ||| Resolved::max_connections_of(namespace, found) is Err
            ||| Resolved::min_connections_of(namespace, found) is Err
            ||| Resolved::acquire_timeout_of(namespace, found) is Err
            ||| Resolved::max_lifetime_of(namespace, found) is Err
            ||| Resolved::idle_timeout_of(namespace, found) is Err
        },
{
}

/// Whether `SqliteConnectOptions::from_str` takes a text as a connection URL.
pub uninterp spec fn url_accepted(url: Seq<char>) -> bool;

/// `<SqliteConnectOptions as FromStr>::from_str`: the options that a
/// connection URL stands for. Whether the URL is taken depends on its text
/// alone; of the options themselves nothing is claimed.
#[verifier::external_body]
fn parse_url(url: &str) -> (r: Result<SqliteConnectOptions, StoreError>)
    ensures
        r is Ok <==> url_accepted(url@),
{
    SqliteConnectOptions::from_str(url)
}

/// The connect options if the URL was taken, else the failure to initialize.
pub fn initialized(parsed: Result<SqliteConnectOptions, StoreError>) -> (r: Result<
    SqliteConnectOptions,
    Error,
>)
    ensures
        parsed matches Ok(o) ==> r == Ok::<SqliteConnectOptions, Error>(o),
        parsed matches Err(e) ==> r == Err::<SqliteConnectOptions, Error>(Error::Initialize(e)),
{
    match parsed {
        Ok(o) => Ok(o),
        Err(e) => Err(Error::Initialize(e)),
    }
}

impl Configuration {
    /// Resolves the six settings of `namespace` from what the settings source
    /// answered.
    pub fn resolve(namespace: &str, found: Found) -> (r: Result<Configuration, Error>)
        ensures
            Resolved::of(namespace@, found) matches Ok(s) ==> (r matches Ok(c) && c@ == s && (
            c.url is Default <==> found.url matches Ok(None))),
            Resolved::of(namespace@, found) matches Err(f) ==> (r matches Err(Error::Env(e)) && e@
                == f),
    {
        let max_lifetime = max_lifetime(
            namespace,
            found.max_lifetime,
            Duration::from_secs(DEFAULT_MAX_LIFETIME),
        )?;
        let idle_timeout = idle_timeout(
            namespace,
            found.idle_timeout,
            Duration::from_secs(DEFAULT_IDLE_TIMEOUT),
        )?;
        let max_connections = max_connections(
            namespace,
            found.max_connections,
            DEFAULT_MAX_CONNECTIONS,
        )?;
        let min_connections = min_connections(
            namespace,
            found.min_connections,
            DEFAULT_MIN_CONNECTIONS,
        )?;
        let acquire_timeout = acquire_timeout(
            namespace,
            found.acquire_timeout,
            Duration::from_secs(DEFAULT_ACQUIRE_TIMEOUT),
        )?;
        let url = url(found.url, DEFAULT_URL)?;
        Ok(
            Configuration {
                url,
                max_connections,
                min_connections,
                acquire_timeout,
                max_lifetime,
                idle_timeout,
                test_before_acquire: DEFAULT_TEST_BEFORE_ACQUIRE,
            },
        )
    }

    /// The connections that are kept open: as many as `min_connections` asks
    /// for, but never more than `max_connections` allows.
    pub fn kept_open(&self) -> (n: u32)
        ensures
            n == if self.min_connections <= self.max_connections {
                self.min_connections
            } else {
                self.max_connections
            },
    {
        if self.min_connections <= self.max_connections {
            self.min_connections
        } else {
            self.max_connections
        }
    }

    /// The connect options that the URL stands for. No connection is opened:
    /// only the text of the URL decides.
    pub fn connect_options(&self) -> (r: Result<SqliteConnectOptions, Error>)
        ensures
            r is Ok <==> url_accepted(self.url@),
            r matches Err(e) ==> e is Initialize,
    {
        initialized(parse_url(self.url.as_str()))
    }
}

} // verus!

//! Settings: their keys, and what each one resolves to once the settings
//! source has answered.

use crate::error::{EnvError, EnvFailure, Error};
use crate::number::{number_in, parse_number};
use std::time::Duration;
use vstd::prelude::*;
use vstd::string::StringExecFns;

verus! {

/// The six settings of a client.
#[derive(Clone, Copy, Debug, PartialEq, Eq, Structural)]
pub enum Setting {
    Url,
    MaxConnections,
    MinConnections,
    AcquireTimeout,
    MaxLifetime,
    IdleTimeout,
}

impl Setting {
    /// The name of the setting as it stands in a key.
    pub open spec fn text(self) -> Seq<char> {
        match self {
            Setting::Url => "URL"@,
            Setting::MaxConnections => "MAX_CONNECTIONS"@,
            Setting::MinConnections => "MIN_CONNECTIONS"@,
            Setting::AcquireTimeout => "ACQUIRE_TIMEOUT"@,
            Setting::MaxLifetime => "MAX_LIFETIME"@,
            Setting::IdleTimeout => "IDLE_TIMEOUT"@,
        }
    }

    pub fn name(&self) -> (s: &'static str)
        ensures
            s@ == self.text(),
    {
        match self {
            Setting::Url => "URL",
            Setting::MaxConnections => "MAX_CONNECTIONS",
            Setting::MinConnections => "MIN_CONNECTIONS",
            Setting::AcquireTimeout => "ACQUIRE_TIMEOUT",
            Setting::MaxLifetime => "MAX_LIFETIME",
            Setting::IdleTimeout => "IDLE_TIMEOUT",
        }
    }
}

/// The key of a setting: the namespace, an underscore, the setting's name.
pub open spec fn key_text(namespace: Seq<char>, setting: Setting) -> Seq<char> {
    namespace + "_"@ + setting.text()
}

/// Within a namespace no two settings share a key.
pub proof fn lemma_keys_differ(namespace: Seq<char>, a: Setting, b: Setting)
    requires
        key_text(namespace, a) == key_text(namespace, b),
    ensures
        a == b,
{
    reveal_strlit("URL");
    reveal_strlit("MAX_CONNECTIONS");
    reveal_strlit("MIN_CONNECTIONS");
    reveal_strlit("ACQUIRE_TIMEOUT");
    reveal_strlit("MAX_LIFETIME");
    reveal_strlit("IDLE_TIMEOUT");
    let front = namespace + "_"@;
    assert(key_text(namespace, a).skip(front.len() as int) =~= a.text());
    assert(key_text(namespace, b).skip(front.len() as int) =~= b.text());
    assert(a.text()[1] == b.text()[1]);
}

/// The key under which the settings source holds `setting` for `namespace`.
pub fn key(namespace: &str, setting: Setting) -> (k: String)
    ensures
        k@ == key_text(namespace@, setting),
{
    let mut k = String::from_str(namespace);
    k.append("_");
    k.append(setting.name());
    k
}

/// What the settings source answered for one key: no value, a value, or a
/// failure of its own.
pub type Lookup = Result<Option<String>, EnvError>;

/// Where the connection URL came from.
#[derive(Debug)]
pub enum Url {
    /// The settings source held it.
    Env(String),
    /// Nothing was set: the built-in default.
    Default(&'static str),
}

impl View for Url {
    type V = Seq<char>;

    open spec fn view(&self) -> Seq<char> {
        match self {
            Url::Env(v) => v@,
            Url::Default(v) => v@,
        }
    }
}

impl Url {
    /// The URL itself, whichever way it came.
    pub fn as_str(&self) -> (s: &str)
        ensures
            s@ == self@,
    {
        match self {
            Url::Env(v) => v.as_str(),
            Url::Default(v) => v,
        }
    }
}

impl AsRef<str> for Url {
    /// The URL itself, whichever way it came.
    fn as_ref(&self) -> (s: &str)
        ensures
            s@ == self@,
    {
        self.as_str()
    }
}

/// The `Duration` that `Duration::from_secs` makes of a number of seconds.
pub uninterp spec fn duration_from_secs(secs: u64) -> Duration;

/// `Duration::from_secs`: the same seconds give the same `Duration`.
pub assume_specification[ Duration::from_secs ](secs: u64) -> (d: Duration)
    ensures
        d == duration_from_secs(secs),
;

/// What a numeric setting holds: `Ok(None)` where nothing is set, the number
/// where the value spells one of at most `max`, and a failure that names the
/// key otherwise. A failure of the settings source itself is passed on.
pub open spec fn number_found(key: Seq<char>, found: Lookup, max: nat) -> Result<
    Option<nat>,
    EnvFailure,
> {
    match found {
        Err(e) => Err(e@),
        Ok(None) => Ok(None),
        Ok(Some(v)) => match number_in(v@, max) {
            Ok(n) => Ok(Some(n)),
            Err(reason) => Err(EnvFailure::Invalid { key, value: v@, reason }),
        },
    }
}

/// What a setting counted in connections resolves to: the number that is
/// set, else `default`.
pub open spec fn connections(
    namespace: Seq<char>,
    setting: Setting,
    found: Lookup,
    default: u32,
) -> Result<u32, EnvFailure> {
    match number_found(key_text(namespace, setting), found, u32::MAX as nat) {
        Err(f) => Err(f),
        Ok(None) => Ok(default),
        Ok(Some(n)) => Ok(n as u32),
    }
}

/// What a setting counted in seconds resolves to: the seconds that are set,
/// else `default`.
pub open spec fn seconds(
    namespace: Seq<char>,
    setting: Setting,
    found: Lookup,
    default: Duration,
) -> Result<Duration, EnvFailure> {
    match number_found(key_text(namespace, setting), found, u64::MAX as nat) {
        Err(f) => Err(f),
        Ok(None) => Ok(default),
        Ok(Some(n)) => Ok(duration_from_secs(n as u64)),
    }
}

/// A setting that is not set takes its default. One that is set to a number
/// takes that number. One that is set to anything else fails under its key:
/// the default never stands in for a value that is there.
pub proof fn lemma_set_or_default(
    namespace: Seq<char>,
    setting: Setting,
    found: Lookup,
    count: u32,
    span: Duration,
)
    ensures
        found matches Ok(None) ==> {
            &&& connections(namespace, setting, found, count) == Ok::<u32, EnvFailure>(count)
            &&& seconds(namespace, setting, found, span) == Ok::<Duration, EnvFailure>(span)
        },
        found matches Ok(Some(v)) ==> {
            &&& number_in(v@, u32::MAX as nat) matches Ok(n) ==> connections(
                namespace,
                setting,
                found,
                count,
            ) == Ok::<u32, EnvFailure>(n as u32)
            &&& number_in(v@, u64::MAX as nat) matches Ok(n) ==> seconds(
                namespace,
                setting,
                found,
                span,
            ) == Ok::<Duration, EnvFailure>(duration_from_secs(n as u64))
            &&& number_in(v@, u32::MAX as nat) matches Err(reason) ==> connections(
                namespace,
                setting,
                found,
                count,
            ) == Err::<u32, EnvFailure>(
                EnvFailure::Invalid { key: key_text(namespace, setting), value: v@, reason },
            )
            &&& number_in(v@, u64::MAX as nat) matches Err(reason) ==> seconds(
                namespace,
                setting,
                found,
                span,
            ) == Err::<Duration, EnvFailure>(
                EnvFailure::Invalid { key: key_text(namespace, setting), value: v@, reason },
            )
        },
        found matches Err(e) ==> {
            &&& connections(namespace, setting, found, count) == Err::<u32, EnvFailure>(e@)
            &&& seconds(namespace, setting, found, span) == Err::<Duration, EnvFailure>(e@)
        },
{
}

/// The number set for `setting`, if any.
fn number(namespace: &str, setting: Setting, found: Lookup, max: u64) -> (r: Result<
    Option<u64>,
    Error,
>)
    ensures
        found matches Err(e) ==> r == Err::<Option<u64>, Error>(Error::Env(e)),
        number_found(key_text(namespace@, setting), found, max as nat) matches Ok(None) ==> r
            == Ok::<Option<u64>, Error>(None),
        number_found(key_text(namespace@, setting), found, max as nat) matches Ok(Some(n)) ==> r
            == Ok::<Option<u64>, Error>(Some(n as u64)) && n <= max,
        number_found(key_text(namespace@, setting), found, max as nat) matches Err(f) ==> (
        r matches Err(Error::Env(e)) && e@ == f),
{
    match found {
        Err(e) => Err(Error::Env(e)),
        Ok(None) => Ok(None),
        Ok(Some(value)) => match parse_number(value.as_str(), max) {
            Ok(n) => Ok(Some(n)),
            Err(reason) => Err(
                Error::Env(EnvError::Invalid { key: key(namespace, setting), value, reason }),
            ),
        },
    }
}

fn count(namespace: &str, setting: Setting, found: Lookup, default: u32) -> (r: Result<u32, Error>)
    ensures
        found matches Err(e) ==> r == Err::<u32, Error>(Error::Env(e)),
        connections(namespace@, setting, found, default) matches Ok(n) ==> r == Ok::<u32, Error>(n),
        connections(namespace@, setting, found, default) matches Err(f) ==> (r matches Err(
            Error::Env(e),
        ) && e@ == f),
{
    match number(namespace, setting, found, u32::MAX as u64) {
        Err(e) => Err(e),
        Ok(None) => Ok(default),
        Ok(Some(n)) => Ok(n as u32),
    }
}

fn span(namespace: &str, setting: Setting, found: Lookup, default: Duration) -> (r: Result<
    Duration,
    Error,
>)
    ensures
        found matches Err(e) ==> r == Err::<Duration, Error>(Error::Env(e)),
        seconds(namespace@, setting, found, default) matches Ok(d) ==> r == Ok::<Duration, Error>(d),
        seconds(namespace@, setting, found, default) matches Err(f) ==> (r matches Err(
            Error::Env(e),
        ) && e@ == f),
{
    match number(namespace, setting, found, u64::MAX) {
        Err(e) => Err(e),
        Ok(None) => Ok(default),
        Ok(Some(n)) => Ok(Duration::from_secs(n)),
    }
}

/// The connection URL: the one that is set, whatever it reads, else `default`.
/// A failure of the settings source is passed on.
pub fn url(found: Lookup, default: &'static str) -> (r: Result<Url, Error>)
    ensures
        found matches Err(e) ==> r == Err::<Url, Error>(Error::Env(e)),
        found matches Ok(None) ==> r == Ok::<Url, Error>(Url::Default(default)),
        found matches Ok(Some(v)) ==> r == Ok::<Url, Error>(Url::Env(v)),
{
    match found {
        Err(e) => Err(Error::Env(e)),
        Ok(None) => Ok(Url::Default(default)),
        Ok(Some(v)) => Ok(Url::Env(v)),
    }
}

/// The most connections the pool may hold: the number that is set, else
/// `default`.
pub fn max_connections(namespace: &str, found: Lookup, default: u32) -> (r: Result<u32, Error>)
    ensures
        found matches Err(e) ==> r == Err::<u32, Error>(Error::Env(e)),
        connections(namespace@, Setting::MaxConnections, found, default) matches Ok(n) ==> r
            == Ok::<u32, Error>(n),
        connections(namespace@, Setting::MaxConnections, found, default) matches Err(f) ==> (
        r matches Err(Error::Env(e)) && e@ == f),
{
    count(namespace, Setting::MaxConnections, found, default)
}

/// The fewest connections the pool keeps open: the number that is set, else
/// `default`.
pub fn min_connections(namespace: &str, found: Lookup, default: u32) -> (r: Result<u32, Error>)
    ensures
        found matches Err(e) ==> r == Err::<u32, Error>(Error::Env(e)),
        connections(namespace@, Setting::MinConnections, found, default) matches Ok(n) ==> r
            == Ok::<u32, Error>(n),
        connections(namespace@, Setting::MinConnections, found, default) matches Err(f) ==> (
        r matches Err(Error::Env(e)) && e@ == f),
{
    count(namespace, Setting::MinConnections, found, default)
}

/// How long a caller waits for a connection: the seconds that are set, else
/// `default`.
pub fn acquire_timeout(namespace: &str, found: Lookup, default: Duration) -> (r: Result<
    Duration,
    Error,
>)
    ensures
        found matches Err(e) ==> r == Err::<Duration, Error>(Error::Env(e)),
        seconds(namespace@, Setting::AcquireTimeout, found, default) matches Ok(d) ==> r
            == Ok::<Duration, Error>(d),
        seconds(namespace@, Setting::AcquireTimeout, found, default) matches Err(f) ==> (
        r matches Err(Error::Env(e)) && e@ == f),
{
    span(namespace, Setting::AcquireTimeout, found, default)
}

/// How long a connection may live: the seconds that are set, else `default`.
pub fn max_lifetime(namespace: &str, found: Lookup, default: Duration) -> (r: Result<
    Duration,
    Error,
>)
    ensures
        found matches Err(e) ==> r == Err::<Duration, Error>(Error::Env(e)),
        seconds(namespace@, Setting::MaxLifetime, found, default) matches Ok(d) ==> r
            == Ok::<Duration, Error>(d),
        seconds(namespace@, Setting::MaxLifetime, found, default) matches Err(f) ==> (
        r matches Err(Error::Env(e)) && e@ == f),
{
    span(namespace, Setting::MaxLifetime, found, default)
}

/// How long a connection may sit idle: the seconds that are set, else
/// `default`.
pub fn idle_timeout(namespace: &str, found: Lookup, default: Duration) -> (r: Result<
    Duration,
    Error,
>)
    ensures
        found matches Err(e) ==> r == Err::<Duration, Error>(Error::Env(e)),
        seconds(namespace@, Setting::IdleTimeout, found, default) matches Ok(d) ==> r
            == Ok::<Duration, Error>(d),
        seconds(namespace@, Setting::IdleTimeout, found, default) matches Err(f) ==> (
        r matches Err(Error::Env(e)) && e@ == f),
{
    span(namespace, Setting::IdleTimeout, found, default)
}

} // verus!

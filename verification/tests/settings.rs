use sqlitedb::{Configuration, EnvError, Error, Found, Lookup, NumberError, Setting, Url};
use std::time::Duration;

fn set(value: &str) -> Lookup {
    Ok(Some(value.to_string()))
}

fn nothing() -> Found {
    Found {
        url: Ok(None),
        max_connections: Ok(None),
        min_connections: Ok(None),
        acquire_timeout: Ok(None),
        max_lifetime: Ok(None),
        idle_timeout: Ok(None),
    }
}

fn invalid(r: Result<Configuration, Error>) -> (String, String, NumberError) {
    match r {
        Err(Error::Env(EnvError::Invalid { key, value, reason })) => (key, value, reason),
        other => panic!("expected an invalid setting, got {:?}", other),
    }
}

#[test]
fn key_joins_namespace_and_setting() {
    assert_eq!(sqlitedb::env::key("APP", Setting::Url), "APP_URL");
    assert_eq!(sqlitedb::env::key("APP", Setting::MaxConnections), "APP_MAX_CONNECTIONS");
    assert_eq!(sqlitedb::env::key("APP", Setting::MinConnections), "APP_MIN_CONNECTIONS");
    assert_eq!(sqlitedb::env::key("APP", Setting::AcquireTimeout), "APP_ACQUIRE_TIMEOUT");
    assert_eq!(sqlitedb::env::key("APP", Setting::MaxLifetime), "APP_MAX_LIFETIME");
    assert_eq!(sqlitedb::env::key("APP", Setting::IdleTimeout), "APP_IDLE_TIMEOUT");
}

#[test]
fn key_of_an_empty_namespace_keeps_the_underscore() {
    assert_eq!(sqlitedb::env::key("", Setting::Url), "_URL");
}

#[test]
fn setting_names() {
    assert_eq!(Setting::Url.name(), "URL");
    assert_eq!(Setting::IdleTimeout.name(), "IDLE_TIMEOUT");
}

#[test]
fn parse_number_reads_decimal_digits() {
    assert_eq!(sqlitedb::number::parse_number("0", 10), Ok(0));
    assert_eq!(sqlitedb::number::parse_number("42", 100), Ok(42));
    assert_eq!(sqlitedb::number::parse_number("007", 100), Ok(7));
    assert_eq!(sqlitedb::number::parse_number("+5", 100), Ok(5));
    assert_eq!(sqlitedb::number::parse_number("100", 100), Ok(100));
}

#[test]
fn parse_number_reaches_the_largest_values() {
    assert_eq!(
        sqlitedb::number::parse_number("4294967295", u32::MAX as u64),
        Ok(4294967295)
    );
    assert_eq!(
        sqlitedb::number::parse_number("18446744073709551615", u64::MAX),
        Ok(u64::MAX)
    );
    assert_eq!(
        sqlitedb::number::parse_number("000000000000000000000000000018446744073709551615", u64::MAX),
        Ok(u64::MAX)
    );
}

#[test]
fn parse_number_refuses_what_is_too_large() {
    assert_eq!(sqlitedb::number::parse_number("101", 100), Err(NumberError::Overflow));
    assert_eq!(
        sqlitedb::number::parse_number("4294967296", u32::MAX as u64),
        Err(NumberError::Overflow)
    );
    assert_eq!(
        sqlitedb::number::parse_number("18446744073709551616", u64::MAX),
        Err(NumberError::Overflow)
    );
    assert_eq!(
        sqlitedb::number::parse_number("99999999999999999999999", u64::MAX),
        Err(NumberError::Overflow)
    );
    assert_eq!(sqlitedb::number::parse_number("5", 4), Err(NumberError::Overflow));
    assert_eq!(sqlitedb::number::parse_number("1", 0), Err(NumberError::Overflow));
    assert_eq!(sqlitedb::number::parse_number("0", 0), Ok(0));
}

#[test]
fn parse_number_refuses_an_empty_text() {
    assert_eq!(sqlitedb::number::parse_number("", 100), Err(NumberError::Empty));
}

#[test]
fn parse_number_refuses_what_is_no_digit() {
    for text in ["+", "-", "-1", "++1", "1+", " 1", "1 ", "1_0", "0x10", "ten", "1.5", "٣", "1e3"] {
        assert_eq!(
            sqlitedb::number::parse_number(text, u64::MAX),
            Err(NumberError::InvalidDigit),
            "{:?}",
            text
        );
    }
}

#[test]
fn parse_number_reports_what_stops_the_reading_first() {
    assert_eq!(sqlitedb::number::parse_number("101x", 100), Err(NumberError::Overflow));
    assert_eq!(sqlitedb::number::parse_number("10x1", 100), Err(NumberError::InvalidDigit));
    assert_eq!(sqlitedb::number::parse_number("x101", 100), Err(NumberError::InvalidDigit));
}

#[test]
fn parse_number_agrees_with_std() {
    let texts = [
        "", "+", "-", "0", "+0", "-0", "1", "12", "0012", "+12", "4294967295", "4294967296",
        "42949672950", "99999999999x", "x99999999999", "12 ", " 12", "1_2", "12a", "١٢",
    ];
    for text in texts {
        let ours = sqlitedb::number::parse_number(text, u32::MAX as u64).ok();
        let theirs = text.parse::<u32>().ok().map(|n| n as u64);
        assert_eq!(ours, theirs, "{:?}", text);
    }
}

#[test]
fn parse_number_fails_for_the_reason_std_gives() {
    let texts = [
        "", "+", "-", "-0", "4294967296", "42949672950", "99999999999x", "x99999999999",
        "4294967295x", "12 ", " 12", "1_2", "12a", "+-1", "0000000000004294967296",
    ];
    for text in texts {
        let ours = sqlitedb::number::parse_number(text, u32::MAX as u64).unwrap_err();
        let theirs = match text.parse::<u32>().unwrap_err().kind() {
            std::num::IntErrorKind::Empty => NumberError::Empty,
            std::num::IntErrorKind::InvalidDigit => NumberError::InvalidDigit,
            std::num::IntErrorKind::PosOverflow => NumberError::Overflow,
            other => panic!("{:?} for {:?}", other, text),
        };
        assert_eq!(ours, theirs, "{:?}", text);
        let message = text.parse::<u32>().unwrap_err().to_string();
        assert_eq!(ours.describe(), message, "{:?}", text);
    }
}

#[test]
fn number_error_describes_itself() {
    assert_eq!(NumberError::Empty.describe(), "cannot parse integer from empty string");
    assert_eq!(NumberError::InvalidDigit.describe(), "invalid digit found in string");
    assert_eq!(NumberError::Overflow.describe(), "number too large to fit in target type");
}

#[test]
fn unset_url_is_the_default() {
    match sqlitedb::env::url(Ok(None), "sqlite:db.sqlite") {
        Ok(Url::Default(v)) => assert_eq!(v, "sqlite:db.sqlite"),
        other => panic!("{:?}", other),
    }
}

#[test]
fn set_url_is_taken_as_it_is() {
    match sqlitedb::env::url(set(" sqlite::memory: "), "sqlite:db.sqlite") {
        Ok(Url::Env(v)) => assert_eq!(v, " sqlite::memory: "),
        other => panic!("{:?}", other),
    }
}

#[test]
fn url_passes_a_failed_lookup_on() {
    let failed = Err(EnvError::NotUnicode { key: "APP_URL".to_string() });
    match sqlitedb::env::url(failed, "sqlite:db.sqlite") {
        Err(Error::Env(EnvError::NotUnicode { key })) => assert_eq!(key, "APP_URL"),
        other => panic!("{:?}", other),
    }
}

#[test]
fn url_reads_the_same_either_way() {
    assert_eq!(Url::Env("a".to_string()).as_str(), "a");
    assert_eq!(Url::Default("b").as_str(), "b");
    let by_trait: &str = Url::Default("c").as_ref();
    assert_eq!(by_trait, "c");
}

#[test]
fn unset_connections_take_the_default() {
    assert!(matches!(sqlitedb::env::max_connections("APP", Ok(None), 10), Ok(10)));
    assert!(matches!(sqlitedb::env::min_connections("APP", Ok(None), 0), Ok(0)));
    assert!(matches!(sqlitedb::env::min_connections("APP", Ok(None), 7), Ok(7)));
}

#[test]
fn set_connections_take_the_value() {
    assert!(matches!(sqlitedb::env::max_connections("APP", set("25"), 10), Ok(25)));
    assert!(matches!(sqlitedb::env::min_connections("APP", set("3"), 0), Ok(3)));
    assert!(matches!(sqlitedb::env::max_connections("APP", set("0"), 10), Ok(0)));
    assert!(matches!(
        sqlitedb::env::max_connections("APP", set("4294967295"), 10),
        Ok(u32::MAX)
    ));
}

#[test]
fn invalid_connections_fail_under_their_key() {
    match sqlitedb::env::max_connections("APP", set("ten"), 10) {
        Err(Error::Env(EnvError::Invalid { key, value, reason })) => {
            assert_eq!(key, "APP_MAX_CONNECTIONS");
            assert_eq!(value, "ten");
            assert_eq!(reason, NumberError::InvalidDigit);
        }
        other => panic!("{:?}", other),
    }
    match sqlitedb::env::min_connections("APP", set("4294967296"), 0) {
        Err(Error::Env(EnvError::Invalid { key, value, reason })) => {
            assert_eq!(key, "APP_MIN_CONNECTIONS");
            assert_eq!(value, "4294967296");
            assert_eq!(reason, NumberError::Overflow);
        }
        other => panic!("{:?}", other),
    }
}

#[test]
fn an_empty_value_is_not_the_default() {
    match sqlitedb::env::max_connections("APP", set(""), 10) {
        Err(Error::Env(EnvError::Invalid { key, value, reason })) => {
            assert_eq!(key, "APP_MAX_CONNECTIONS");
            assert_eq!(value, "");
            assert_eq!(reason, NumberError::Empty);
        }
        other => panic!("{:?}", other),
    }
}

#[test]
fn connections_pass_a_failed_lookup_on() {
    let failed = Err(EnvError::NotUnicode { key: "APP_MAX_CONNECTIONS".to_string() });
    match sqlitedb::env::max_connections("APP", failed, 10) {
        Err(Error::Env(EnvError::NotUnicode { key })) => assert_eq!(key, "APP_MAX_CONNECTIONS"),
        other => panic!("{:?}", other),
    }
}

#[test]
fn unset_durations_take_the_default() {
    let d = Duration::from_millis(1500);
    assert_eq!(sqlitedb::env::acquire_timeout("APP", Ok(None), d).unwrap(), d);
    assert_eq!(sqlitedb::env::max_lifetime("APP", Ok(None), d).unwrap(), d);
    assert_eq!(sqlitedb::env::idle_timeout("APP", Ok(None), d).unwrap(), d);
}

#[test]
fn set_durations_are_whole_seconds() {
    let d = Duration::from_secs(30);
    assert_eq!(
        sqlitedb::env::acquire_timeout("APP", set("5"), d).unwrap(),
        Duration::from_secs(5)
    );
    assert_eq!(
        sqlitedb::env::max_lifetime("APP", set("3600"), d).unwrap(),
        Duration::from_secs(3600)
    );
    assert_eq!(
        sqlitedb::env::idle_timeout("APP", set("0"), d).unwrap(),
        Duration::from_secs(0)
    );
    assert_eq!(
        sqlitedb::env::idle_timeout("APP", set("18446744073709551615"), d).unwrap(),
        Duration::from_secs(u64::MAX)
    );
}

#[test]
fn invalid_durations_fail_under_their_key() {
    let d = Duration::from_secs(30);
    let cases: [(fn(&str, Lookup, Duration) -> Result<Duration, Error>, &str); 3] = [
        (sqlitedb::env::acquire_timeout, "APP_ACQUIRE_TIMEOUT"),
        (sqlitedb::env::max_lifetime, "APP_MAX_LIFETIME"),
        (sqlitedb::env::idle_timeout, "APP_IDLE_TIMEOUT"),
    ];
    for (resolve, expected) in cases {
        match resolve("APP", set("1.5"), d) {
            Err(Error::Env(EnvError::Invalid { key, value, reason })) => {
                assert_eq!(key, expected);
                assert_eq!(value, "1.5");
                assert_eq!(reason, NumberError::InvalidDigit);
            }
            other => panic!("{:?}", other),
        }
    }
    match sqlitedb::env::idle_timeout("APP", set("18446744073709551616"), d) {
        Err(Error::Env(EnvError::Invalid { reason, .. })) => {
            assert_eq!(reason, NumberError::Overflow)
        }
        other => panic!("{:?}", other),
    }
}

#[test]
fn nothing_set_gives_the_defaults() {
    let config = Configuration::resolve("APP", nothing()).unwrap();
    assert!(matches!(config.url, Url::Default("sqlite:db.sqlite")));
    assert_eq!(config.max_connections, 10);
    assert_eq!(config.min_connections, 0);
    assert_eq!(config.acquire_timeout, Duration::from_secs(30));
    assert_eq!(config.max_lifetime, Duration::from_secs(1800));
    assert_eq!(config.idle_timeout, Duration::from_secs(600));
    assert!(!config.test_before_acquire);
}

#[test]
fn default_constants() {
    assert_eq!(sqlitedb::config::DEFAULT_URL, "sqlite:db.sqlite");
    assert_eq!(sqlitedb::config::DEFAULT_MAX_CONNECTIONS, 10);
    assert_eq!(sqlitedb::config::DEFAULT_MIN_CONNECTIONS, 0);
    assert_eq!(sqlitedb::config::DEFAULT_ACQUIRE_TIMEOUT, 30);
    assert_eq!(sqlitedb::config::DEFAULT_MAX_LIFETIME, 1800);
    assert_eq!(sqlitedb::config::DEFAULT_IDLE_TIMEOUT, 600);
    assert!(!sqlitedb::config::DEFAULT_TEST_BEFORE_ACQUIRE);
}

#[test]
fn everything_set_is_taken() {
    let found = Found {
        url: set("sqlite::memory:"),
        max_connections: set("4"),
        min_connections: set("2"),
        acquire_timeout: set("1"),
        max_lifetime: set("120"),
        idle_timeout: set("60"),
    };
    let config = Configuration::resolve("APP", found).unwrap();
    assert_eq!(config.url.as_str(), "sqlite::memory:");
    assert!(matches!(config.url, Url::Env(_)));
    assert_eq!(config.max_connections, 4);
    assert_eq!(config.min_connections, 2);
    assert_eq!(config.acquire_timeout, Duration::from_secs(1));
    assert_eq!(config.max_lifetime, Duration::from_secs(120));
    assert_eq!(config.idle_timeout, Duration::from_secs(60));
    assert!(!config.test_before_acquire);
}

#[test]
fn one_setting_set_leaves_the_others_at_their_defaults() {
    let mut found = nothing();
    found.min_connections = set("3");
    let config = Configuration::resolve("APP", found).unwrap();
    assert_eq!(config.min_connections, 3);
    assert_eq!(config.max_connections, 10);
    assert_eq!(config.acquire_timeout, Duration::from_secs(30));
}

#[test]
fn fewest_above_most_is_taken_as_set() {
    let mut found = nothing();
    found.min_connections = set("20");
    found.max_connections = set("5");
    let config = Configuration::resolve("APP", found).unwrap();
    assert_eq!(config.min_connections, 20);
    assert_eq!(config.max_connections, 5);
    assert_eq!(config.kept_open(), 5);
}

#[test]
fn fewest_below_most_is_kept_open() {
    let mut found = nothing();
    found.min_connections = set("2");
    let config = Configuration::resolve("APP", found).unwrap();
    assert_eq!(config.kept_open(), 2);
    let mut found = nothing();
    found.min_connections = set("10");
    assert_eq!(Configuration::resolve("APP", found).unwrap().kept_open(), 10);
}

#[test]
fn one_invalid_setting_fails_the_whole() {
    let mut found = nothing();
    found.acquire_timeout = set("soon");
    let (key, value, reason) = invalid(Configuration::resolve("APP", found));
    assert_eq!(key, "APP_ACQUIRE_TIMEOUT");
    assert_eq!(value, "soon");
    assert_eq!(reason, NumberError::InvalidDigit);
}

#[test]
fn the_first_invalid_setting_decides() {
    let all = Found {
        url: Err(EnvError::NotUnicode { key: "APP_URL".to_string() }),
        max_connections: set("c"),
        min_connections: set("d"),
        acquire_timeout: set("e"),
        max_lifetime: set("a"),
        idle_timeout: set("b"),
    };
    assert_eq!(invalid(Configuration::resolve("APP", all)).0, "APP_MAX_LIFETIME");

    let mut found = nothing();
    found.idle_timeout = set("b");
    found.max_connections = set("c");
    assert_eq!(invalid(Configuration::resolve("APP", found)).0, "APP_IDLE_TIMEOUT");

    let mut found = nothing();
    found.max_connections = set("c");
    found.min_connections = set("d");
    assert_eq!(invalid(Configuration::resolve("APP", found)).0, "APP_MAX_CONNECTIONS");

    let mut found = nothing();
    found.min_connections = set("d");
    found.acquire_timeout = set("e");
    assert_eq!(invalid(Configuration::resolve("APP", found)).0, "APP_MIN_CONNECTIONS");

    let mut found = nothing();
    found.acquire_timeout = set("e");
    found.url = Err(EnvError::NotUnicode { key: "APP_URL".to_string() });
    assert_eq!(invalid(Configuration::resolve("APP", found)).0, "APP_ACQUIRE_TIMEOUT");

    let mut found = nothing();
    found.url = Err(EnvError::NotUnicode { key: "APP_URL".to_string() });
    assert!(matches!(
        Configuration::resolve("APP", found),
        Err(Error::Env(EnvError::NotUnicode { .. }))
    ));
}

#[test]
fn resolving_twice_gives_the_same() {
    let found = || Found {
        url: set("sqlite:a.db"),
        max_connections: set("4"),
        min_connections: Ok(None),
        acquire_timeout: set("1"),
        max_lifetime: Ok(None),
        idle_timeout: set("60"),
    };
    let a = Configuration::resolve("APP", found()).unwrap();
    let b = Configuration::resolve("APP", found()).unwrap();
    assert_eq!(format!("{:?}", a), format!("{:?}", b));
}

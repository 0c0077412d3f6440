use sqlitedb::{Configuration, Error, Found, Lookup};

fn with_url(url: Lookup) -> Configuration {
    let found = Found {
        url,
        max_connections: Ok(None),
        min_connections: Ok(None),
        acquire_timeout: Ok(None),
        max_lifetime: Ok(None),
        idle_timeout: Ok(None),
    };
    Configuration::resolve("APP", found).unwrap()
}

fn set(value: &str) -> Lookup {
    Ok(Some(value.to_string()))
}

#[test]
fn the_default_url_gives_connect_options() {
    assert!(with_url(Ok(None)).connect_options().is_ok());
}

#[test]
fn a_file_that_is_not_there_still_gives_connect_options() {
    assert!(with_url(set("sqlite:/nowhere/at/all/db.sqlite")).connect_options().is_ok());
}

#[test]
fn a_memory_url_gives_connect_options() {
    assert!(with_url(set("sqlite::memory:")).connect_options().is_ok());
    assert!(with_url(set("sqlite://db.sqlite?mode=rwc")).connect_options().is_ok());
}

#[test]
fn an_unknown_mode_fails_to_initialize() {
    assert!(matches!(
        with_url(set("sqlite:db.sqlite?mode=sideways")).connect_options(),
        Err(Error::Initialize(sqlx::Error::Configuration(_)))
    ));
}

#[test]
fn an_unknown_parameter_fails_to_initialize() {
    assert!(matches!(
        with_url(set("sqlite:db.sqlite?colour=blue")).connect_options(),
        Err(Error::Initialize(_))
    ));
}

#[test]
fn initialized_passes_the_options_on_and_names_the_failure() {
    assert!(matches!(
        sqlitedb::config::initialized(Err(sqlx::Error::PoolClosed)),
        Err(Error::Initialize(sqlx::Error::PoolClosed))
    ));
    let options = with_url(set("sqlite::memory:")).connect_options().unwrap();
    let shown = format!("{:?}", options);
    let passed = sqlitedb::config::initialized(Ok(options)).unwrap();
    assert_eq!(format!("{:?}", passed), shown);
}

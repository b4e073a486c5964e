use pagepool::BuildError;
use pagepool::Error;
use pagepool::OptionalExt;
use pagepool::StoreError;

#[test]
fn optional_wraps_present_value() {
    let r: Result<i32, Error> = Ok(5);
    let r = r.optional();
    assert!(matches!(r, Ok(Some(5))));
}

#[test]
fn optional_turns_not_found_into_none() {
    let r: Result<i32, Error> = Err(Error::Diesel(StoreError::NotFound));
    let r = r.optional();
    assert!(matches!(r, Ok(None)));
}

#[test]
fn optional_passes_other_store_errors_through() {
    let r: Result<i32, Error> =
        Err(Error::Diesel(StoreError::Other("duplicate key".to_string())));
    match r.optional() {
        Err(Error::Diesel(StoreError::Other(m))) => assert_eq!(m, "duplicate key"),
        _ => panic!("expected the store error unchanged"),
    }
}

#[test]
fn optional_passes_pool_errors_through() {
    let r: Result<i32, Error> = Err(Error::Pool("exhausted".to_string()));
    match r.optional() {
        Err(Error::Pool(m)) => assert_eq!(m, "exhausted"),
        _ => panic!("expected the pool error unchanged"),
    }
}

#[test]
fn error_messages() {
    assert_eq!(
        Error::Diesel(StoreError::NotFound).message(),
        "Diesel: Record not found"
    );
    assert_eq!(
        Error::Diesel(StoreError::Other("boom".to_string())).message(),
        "Diesel: boom"
    );
    assert_eq!(
        Error::Connection("refused".to_string()).message(),
        "Connection: refused"
    );
    assert_eq!(
        Error::Pool("timed out".to_string()).message(),
        "Database pool: timed out"
    );
}

#[test]
fn build_error_other() {
    let e = BuildError::other("no url".to_string());
    match &e {
        BuildError::Other(m) => assert_eq!(m, "no url"),
        _ => panic!("expected a configuration error"),
    }
    assert_eq!(e.message(), "no url");
}

#[test]
fn build_error_messages() {
    assert_eq!(
        BuildError::Connection(Error::Connection("refused".to_string())).message(),
        "testing connection: Connection: refused"
    );
    assert_eq!(BuildError::Pool("bad url".to_string()).message(), "bad url");
}

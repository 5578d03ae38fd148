use mau_cli::error::Error;

#[test]
fn io_error_becomes_read_error() {
    let source = std::io::Error::new(std::io::ErrorKind::NotFound, "no such file");
    match Error::from(source) {
        Error::ReadDBError(inner) => {
            assert_eq!(inner.kind(), std::io::ErrorKind::NotFound);
            assert_eq!(inner.to_string(), "no such file");
        }
        other => panic!("unexpected error: {:?}", other),
    }
}

#[test]
fn json_error_becomes_parse_error() {
    let source = serde_json::from_str::<serde_json::Value>("[{").unwrap_err();
    let line = source.line();
    let column = source.column();
    match Error::from(source) {
        Error::ParseDBError(inner) => {
            assert!(inner.is_eof());
            assert_eq!((inner.line(), inner.column()), (line, column));
        }
        other => panic!("unexpected error: {:?}", other),
    }
}

#[test]
fn question_mark_converts_store_errors() {
    fn read() -> Result<(), Error> {
        Err(std::io::Error::new(std::io::ErrorKind::PermissionDenied, "locked"))?;
        Ok(())
    }
    fn parse() -> Result<(), Error> {
        serde_json::from_str::<Vec<u8>>("{}")?;
        Ok(())
    }
    assert!(matches!(read(), Err(Error::ReadDBError(_))));
    assert!(matches!(parse(), Err(Error::ParseDBError(_))));
}

#[test]
fn index_error_names_index_and_length() {
    let error = Error::IndexError { index: 4, len: 2 };
    assert!(matches!(error, Error::IndexError { index: 4, len: 2 }));
    assert_eq!(format!("{:?}", error), "IndexError { index: 4, len: 2 }");
}

#[test]
fn error_is_reachable_from_the_crate_root() {
    let error: mau_cli::Error = Error::IndexError { index: 0, len: 0 };
    assert!(matches!(error, mau_cli::Error::IndexError { index: 0, len: 0 }));
}

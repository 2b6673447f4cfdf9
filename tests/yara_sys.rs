use rs_yara::yara_sys::{
    Error, MetaType, ERROR_CALLBACK_ERROR, ERROR_CORRUPT_FILE, ERROR_COULD_NOT_ATTACH_TO_PROCESS,
    ERROR_COULD_NOT_MAP_FILE, ERROR_COULD_NOT_OPEN_FILE, ERROR_INSUFFICIENT_MEMORY,
    ERROR_INTERNAL_FATAL_ERROR, ERROR_INVALID_FILE, ERROR_SCAN_TIMEOUT, ERROR_SUCCESS,
    ERROR_SYNTAX_ERROR, ERROR_TOO_MANY_MATCHES, ERROR_UNSUPPORTED_FILE_VERSION,
};

#[test]
fn test_error_from_code() {
    assert_eq!(Ok(()), Error::from_code(ERROR_SUCCESS as i32));
    assert_eq!(
        Err(Error::InsufficientMemory),
        Error::from_code(ERROR_INSUFFICIENT_MEMORY as i32)
    );
    assert_eq!(Err(Error::ScanTimeout), Error::from_code(ERROR_SCAN_TIMEOUT as i32));
}

#[test]
fn test_to_string() {
    assert_eq!(
        "Callback returned an error",
        Error::CallbackError.to_string()
    );
    assert_eq!(
        "Callback returned an error",
        Error::CallbackError.description()
    );
}

#[test]
fn every_known_code_has_its_kind() {
    let table = [
        (ERROR_CALLBACK_ERROR, Error::CallbackError),
        (ERROR_CORRUPT_FILE, Error::CorruptFile),
        (ERROR_COULD_NOT_ATTACH_TO_PROCESS, Error::CouldNotAttach),
        (ERROR_COULD_NOT_MAP_FILE, Error::CouldNotMapFile),
        (ERROR_COULD_NOT_OPEN_FILE, Error::CouldNotOpenFile),
        (ERROR_INSUFFICIENT_MEMORY, Error::InsufficientMemory),
        (ERROR_INTERNAL_FATAL_ERROR, Error::InternalFatalError),
        (ERROR_INVALID_FILE, Error::InvalidFile),
        (ERROR_SCAN_TIMEOUT, Error::ScanTimeout),
        (ERROR_SYNTAX_ERROR, Error::SyntaxError),
        (ERROR_TOO_MANY_MATCHES, Error::TooManyMatches),
        (ERROR_UNSUPPORTED_FILE_VERSION, Error::UnsupportedFileVersion),
    ];
    for (code, kind) in table {
        assert_eq!(Err(kind), Error::from_code(code as i32));
    }
}

#[test]
fn unrecognized_codes_are_kept() {
    assert_eq!(Err(Error::Unknown(5)), Error::from_code(5));
    assert_eq!(Err(Error::Unknown(-1)), Error::from_code(-1));
    assert_eq!(Err(Error::Unknown(1000)), Error::from_code(1000));
    assert_eq!("Unknown Yara error", Error::Unknown(5).to_string());
}

#[test]
fn descriptions_of_kinds() {
    assert_eq!("Timeouted during scan", Error::ScanTimeout.description());
    assert_eq!("Syntax error in rule", Error::SyntaxError.to_string());
    assert_eq!("Rule file is corrupt", Error::CorruptFile.description());
}

#[test]
fn meta_type_codes() {
    assert_eq!(Ok(MetaType::Null), MetaType::from_code(0));
    assert_eq!(Ok(MetaType::Integer), MetaType::from_code(1));
    assert_eq!(Ok(MetaType::String), MetaType::from_code(2));
    assert_eq!(Ok(MetaType::Boolean), MetaType::from_code(3));
    assert_eq!(Err(7), MetaType::from_code(7));
    assert_eq!(Err(-2), MetaType::from_code(-2));
}

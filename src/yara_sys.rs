//! Status codes and discriminants of the native engine.
use vstd::prelude::*;

verus! {

pub const ERROR_SUCCESS: u32 = 0;
pub const ERROR_INSUFFICIENT_MEMORY: u32 = 1;
pub const ERROR_COULD_NOT_ATTACH_TO_PROCESS: u32 = 2;
pub const ERROR_COULD_NOT_OPEN_FILE: u32 = 3;
pub const ERROR_COULD_NOT_MAP_FILE: u32 = 4;
pub const ERROR_INVALID_FILE: u32 = 6;
pub const ERROR_CORRUPT_FILE: u32 = 7;
pub const ERROR_UNSUPPORTED_FILE_VERSION: u32 = 8;
pub const ERROR_SYNTAX_ERROR: u32 = 11;
pub const ERROR_SCAN_TIMEOUT: u32 = 26;
pub const ERROR_CALLBACK_ERROR: u32 = 28;
pub const ERROR_TOO_MANY_MATCHES: u32 = 30;
pub const ERROR_INTERNAL_FATAL_ERROR: u32 = 31;

pub const META_TYPE_NULL: u32 = 0;
pub const META_TYPE_INTEGER: u32 = 1;
pub const META_TYPE_STRING: u32 = 2;
pub const META_TYPE_BOOLEAN: u32 = 3;

pub const STRING_GFLAGS_NULL: u32 = 0x1000;

pub const YARA_ERROR_LEVEL_ERROR: u32 = 0;
pub const YARA_ERROR_LEVEL_WARNING: u32 = 1;

pub const SCAN_FLAGS_FAST_MODE: u32 = 1;
pub const SCAN_FLAGS_PROCESS_MEMORY: u32 = 2;
pub const SCAN_FLAGS_NO_TRYCATCH: u32 = 4;

/// Failure kinds reported by the engine through its status codes.
#[derive(Clone, Copy, Debug, PartialEq, Eq, Structural)]
pub enum Error {
    /// Callback returned an error
    CallbackError,
    /// Rule file is corrupt
    CorruptFile,
    /// Could not attach to process
    CouldNotAttach,
    /// File could not be mapped into memory
    CouldNotMapFile,
    /// File could not be opened
    CouldNotOpenFile,
    /// Insufficient memory to complete the operation
    InsufficientMemory,
    /// Internal fatal error
    InternalFatalError,
    /// File is not a valid rules file
    InvalidFile,
    /// Timeouted during scan
    ScanTimeout,
    /// Syntax error in rule
    SyntaxError,
    /// Too many matches
    TooManyMatches,
    /// Rule file version is not supported
    UnsupportedFileVersion,
    /// Unknown Yara error
    Unknown(i32),
}

/// The failure kind named by a non-zero status code.
pub open spec fn error_of_code(code: i32) -> Error {
    if code == ERROR_CALLBACK_ERROR as i32 {
        Error::CallbackError
    } else if code == ERROR_CORRUPT_FILE as i32 {
        Error::CorruptFile
    } else if code == ERROR_COULD_NOT_ATTACH_TO_PROCESS as i32 {
        Error::CouldNotAttach
    } else if code == ERROR_COULD_NOT_MAP_FILE as i32 {
        Error::CouldNotMapFile
    } else if code == ERROR_COULD_NOT_OPEN_FILE as i32 {
        Error::CouldNotOpenFile
    } else if code == ERROR_INSUFFICIENT_MEMORY as i32 {
        Error::InsufficientMemory
    } else if code == ERROR_INTERNAL_FATAL_ERROR as i32 {
        Error::InternalFatalError
    } else if code == ERROR_INVALID_FILE as i32 {
        Error::InvalidFile
    } else if code == ERROR_SCAN_TIMEOUT as i32 {
        Error::ScanTimeout
    } else if code == ERROR_SYNTAX_ERROR as i32 {
        Error::SyntaxError
    } else if code == ERROR_TOO_MANY_MATCHES as i32 {
        Error::TooManyMatches
    } else if code == ERROR_UNSUPPORTED_FILE_VERSION as i32 {
        Error::UnsupportedFileVersion
    } else {
        Error::Unknown(code)
    }
}

/// What a status code means: success for zero, the named failure otherwise.
pub open spec fn result_of_code(code: i32) -> Result<(), Error> {
    if code == ERROR_SUCCESS as i32 {
        Ok(())
    } else {
        Err(error_of_code(code))
    }
}

impl Error {
    pub fn from_code(code: i32) -> (r: Result<(), Error>)
        ensures
            r == result_of_code(code),
    {
        if code == ERROR_SUCCESS as i32 {
            return Ok(());
        }
        let e = if code == ERROR_CALLBACK_ERROR as i32 {
            Error::CallbackError
        } else if code == ERROR_CORRUPT_FILE as i32 {
            Error::CorruptFile
        } else if code == ERROR_COULD_NOT_ATTACH_TO_PROCESS as i32 {
            Error::CouldNotAttach
        } else if code == ERROR_COULD_NOT_MAP_FILE as i32 {
            Error::CouldNotMapFile
        } else if code == ERROR_COULD_NOT_OPEN_FILE as i32 {
            Error::CouldNotOpenFile
        } else if code == ERROR_INSUFFICIENT_MEMORY as i32 {
            Error::InsufficientMemory
        } else if code == ERROR_INTERNAL_FATAL_ERROR as i32 {
            Error::InternalFatalError
        } else if code == ERROR_INVALID_FILE as i32 {
            Error::InvalidFile
        } else if code == ERROR_SCAN_TIMEOUT as i32 {
            Error::ScanTimeout
        } else if code == ERROR_SYNTAX_ERROR as i32 {
            Error::SyntaxError
        } else if code == ERROR_TOO_MANY_MATCHES as i32 {
            Error::TooManyMatches
        } else if code == ERROR_UNSUPPORTED_FILE_VERSION as i32 {
            Error::UnsupportedFileVersion
        } else {
            Error::Unknown(code)
        };
        Err(e)
    }

    /// The human-readable message of each kind.
    pub open spec fn spec_description(self) -> Seq<char> {
        match self {
            Error::CallbackError => "Callback returned an error"@,
            Error::CorruptFile => "Rule file is corrupt"@,
            Error::CouldNotAttach => "Could not attach to process"@,
            Error::CouldNotMapFile => "File could not be mapped into memory"@,
            Error::CouldNotOpenFile => "File could not be opened"@,
            Error::InsufficientMemory => "Insufficient memory to complete the operation"@,
            Error::InternalFatalError => "Internal fatal error"@,
            Error::InvalidFile => "File is not a valid rules file"@,
            Error::ScanTimeout => "Timeouted during scan"@,
            Error::SyntaxError => "Syntax error in rule"@,
            Error::TooManyMatches => "Too many matches"@,
            Error::UnsupportedFileVersion => "Rule file version is not supported"@,
            Error::Unknown(_) => "Unknown Yara error"@,
        }
    }

    pub fn description(&self) -> (r: &'static str)
        ensures
            r@ == self.spec_description(),
    {
        match self {
            Error::CallbackError => "Callback returned an error",
            Error::CorruptFile => "Rule file is corrupt",
            Error::CouldNotAttach => "Could not attach to process",
            Error::CouldNotMapFile => "File could not be mapped into memory",
            Error::CouldNotOpenFile => "File could not be opened",
            Error::InsufficientMemory => "Insufficient memory to complete the operation",
            Error::InternalFatalError => "Internal fatal error",
            Error::InvalidFile => "File is not a valid rules file",
            Error::ScanTimeout => "Timeouted during scan",
            Error::SyntaxError => "Syntax error in rule",
            Error::TooManyMatches => "Too many matches",
            Error::UnsupportedFileVersion => "Rule file version is not supported",
            Error::Unknown(_) => "Unknown Yara error",
        }
    }

    pub fn to_string(&self) -> (r: String)
        ensures
            r@ == self.spec_description(),
    {
        String::from_str(self.description())
    }
}

/// Discriminant of a native metadata entry.
#[derive(Clone, Copy, Debug, PartialEq, Eq, Structural)]
pub enum MetaType {
    Null,
    Integer,
    String,
    Boolean,
}

/// The metadata discriminant named by a type code, if any.
pub open spec fn meta_type_of_code(code: i32) -> Option<MetaType> {
    if code == META_TYPE_NULL as i32 {
        Some(MetaType::Null)
    } else if code == META_TYPE_INTEGER as i32 {
        Some(MetaType::Integer)
    } else if code == META_TYPE_STRING as i32 {
        Some(MetaType::String)
    } else if code == META_TYPE_BOOLEAN as i32 {
        Some(MetaType::Boolean)
    } else {
        None
    }
}

impl MetaType {
    pub fn from_code(code: i32) -> (r: Result<Self, i32>)
        ensures
            meta_type_of_code(code) matches Some(t) ==> r == Ok::<MetaType, i32>(t),
            meta_type_of_code(code) is None ==> r == Err::<MetaType, i32>(code),
    {
        if code == META_TYPE_NULL as i32 {
            Ok(MetaType::Null)
        } else if code == META_TYPE_INTEGER as i32 {
            Ok(MetaType::Integer)
        } else if code == META_TYPE_STRING as i32 {
            Ok(MetaType::String)
        } else if code == META_TYPE_BOOLEAN as i32 {
            Ok(MetaType::Boolean)
        } else {
            Err(code)
        }
    }
}

} // verus!

//! Error taxonomy: configuration errors, which are fatal at startup,
//! and the application-level errors that the HTTP boundary turns into
//! an envelope with a transport status code.

use vstd::prelude::*;

verus! {

/// A configuration error. Every variant is terminal for process
/// startup: no partial configuration is ever returned alongside one.
#[derive(Debug)]
pub enum EnvConfigError {
    /// A required environment variable is missing or resolved to an
    /// empty value; `var_name` names it exactly.
    MissingVar { var_name: String },
    /// An override carried a value that does not parse to the type of
    /// the field it names.
    InvalidValue { var_name: String, value: String },
    /// A merged configuration failed a section's semantic validation.
    InvalidConfig(String),
    /// The configuration file was present but could not be parsed.
    FileParse(String),
}

/// Abstract value of an `EnvConfigError`.
pub ghost enum EnvConfigErrorV {
    MissingVar { var_name: Seq<char> },
    InvalidValue { var_name: Seq<char>, value: Seq<char> },
    InvalidConfig(Seq<char>),
    FileParse(Seq<char>),
}

impl View for EnvConfigError {
    type V = EnvConfigErrorV;

    open spec fn view(&self) -> EnvConfigErrorV {
        match self {
            EnvConfigError::MissingVar { var_name } => EnvConfigErrorV::MissingVar {
                var_name: var_name@,
            },
            EnvConfigError::InvalidValue { var_name, value } => EnvConfigErrorV::InvalidValue {
                var_name: var_name@,
                value: value@,
            },
            EnvConfigError::InvalidConfig(msg) => EnvConfigErrorV::InvalidConfig(msg@),
            EnvConfigError::FileParse(msg) => EnvConfigErrorV::FileParse(msg@),
        }
    }
}

/// A file-upload error, carried as plain descriptions.
#[derive(Debug)]
pub enum FileUploadError {
    Multipart(String),
    FileSizeExceeded(usize),
    FileTypeNotAllowed(String),
    UploadFailed(String),
    MissingField(String),
}

/// An application error, as the HTTP boundary sees it. Variants that
/// wrap a failure of an outside component carry its description.
#[derive(Debug)]
pub enum AppError {
    Config(EnvConfigError),
    Database(String),
    Http { status: u16 },
    Io(String),
    Serde(String),
    Validation(String),
    General(String),
    FileHandle(FileUploadError),
}

impl AppError {
    /// The transport status code and user-facing message for this
    /// error: validation errors answer with their own message and 400,
    /// client-data errors with 400 and a fixed message, everything
    /// internal with 500 and a fixed message, and an `Http` error with
    /// the status it carries.
    pub fn status_and_message(&self) -> (r: (u16, String))
        ensures
            match self {
                AppError::Config(_) => r.0 == 500 && r.1@ == "Configuration error"@,
                AppError::Database(_) => r.0 == 500 && r.1@ == "Database error"@,
                AppError::Validation(msg) => r.0 == 400 && r.1@ == msg@,
                AppError::Io(_) => r.0 == 500 && r.1@ == "IO error"@,
                AppError::Serde(_) => r.0 == 400 && r.1@ == "Invalid data format"@,
                AppError::General(_) => r.0 == 500 && r.1@ == "Internal server error"@,
                AppError::FileHandle(_) => r.0 == 400 && r.1@ == "File upload error"@,
                AppError::Http { status } => r.0 == status && r.1@ == "Request error"@,
            },
    {
        match self {
            AppError::Config(_) => (500, "Configuration error".to_owned()),
            AppError::Database(_) => (500, "Database error".to_owned()),
            AppError::Validation(msg) => (400, msg.clone()),
            AppError::Io(_) => (500, "IO error".to_owned()),
            AppError::Serde(_) => (400, "Invalid data format".to_owned()),
            AppError::General(_) => (500, "Internal server error".to_owned()),
            AppError::FileHandle(_) => (400, "File upload error".to_owned()),
            AppError::Http { status } => (*status, "Request error".to_owned()),
        }
    }
}

} // verus!

//! The errors of the API server, each with the HTTP status and the text it is
//! reported with.

use vstd::prelude::*;
use vstd::string::StringExecFns;

verus! {

/// The JSON body of an error response.
#[derive(Debug, Clone, PartialEq)]
pub struct ErrorOutput {
    pub error: String,
}

impl ErrorOutput {
    pub fn new(error: &str) -> (out: ErrorOutput)
        ensures
            out.error@ == error@,
    {
        ErrorOutput { error: String::from_str(error) }
    }
}

/// Everything that can go wrong while a request is served. A variant that
/// stands for a failure of the database, the password hasher, the token
/// library, the header parser or the file system carries that failure's text.
#[derive(Debug, Clone, PartialEq)]
pub enum AppError {
    EmailAlreadyExists(String),
    SqlxError(String),
    PasswordHashError(String),
    AnyError(String),
    HttpHeaderError(String),
    CreateChatError(String),
    NotFound(String),
    IoError(String),
    Unauthorized(String),
    UpdateChatError(String),
    ChatFileError(String),
    CreateMessageError(String),
}

impl AppError {
    /// The text that the variant carries.
    pub open spec fn detail(self) -> Seq<char> {
        match self {
            AppError::EmailAlreadyExists(s) => s@,
            AppError::SqlxError(s) => s@,
            AppError::PasswordHashError(s) => s@,
            AppError::AnyError(s) => s@,
            AppError::HttpHeaderError(s) => s@,
            AppError::CreateChatError(s) => s@,
            AppError::NotFound(s) => s@,
            AppError::IoError(s) => s@,
            AppError::Unauthorized(s) => s@,
            AppError::UpdateChatError(s) => s@,
            AppError::ChatFileError(s) => s@,
            AppError::CreateMessageError(s) => s@,
        }
    }

    /// What is written before the carried text when the error is reported.
    pub open spec fn prefix(self) -> Seq<char> {
        match self {
            AppError::EmailAlreadyExists(_) => "Email already exists: "@,
            AppError::SqlxError(_) => "sqlx error: "@,
            AppError::PasswordHashError(_) => "password hashing error: "@,
            AppError::AnyError(_) => "general error: "@,
            AppError::HttpHeaderError(_) => "http header parse error: "@,
            AppError::CreateChatError(_) => "create chat error: "@,
            AppError::NotFound(_) => "Not found: "@,
            AppError::IoError(_) => "io error: "@,
            AppError::Unauthorized(_) => "Unauthorized: "@,
            AppError::UpdateChatError(_) => "Update chat error: "@,
            AppError::ChatFileError(_) => ""@,
            AppError::CreateMessageError(_) => "create message error: "@,
        }
    }

    /// The HTTP status that the error is answered with.
    pub open spec fn spec_status(self) -> u16 {
        match self {
            AppError::SqlxError(_) => 500,
            AppError::PasswordHashError(_) => 422,
            AppError::AnyError(_) => 500,
            AppError::EmailAlreadyExists(_) => 409,
            AppError::HttpHeaderError(_) => 400,
            AppError::CreateChatError(_) => 400,
            AppError::NotFound(_) => 404,
            AppError::IoError(_) => 500,
            AppError::Unauthorized(_) => 401,
            AppError::UpdateChatError(_) => 400,
            AppError::ChatFileError(_) => 400,
            AppError::CreateMessageError(_) => 400,
        }
    }

    pub fn status_code(&self) -> (code: u16)
        ensures
            code == self.spec_status(),
    {
        match self {
            AppError::SqlxError(_) => 500,
            AppError::PasswordHashError(_) => 422,
            AppError::AnyError(_) => 500,
            AppError::EmailAlreadyExists(_) => 409,
            AppError::HttpHeaderError(_) => 400,
            AppError::CreateChatError(_) => 400,
            AppError::NotFound(_) => 404,
            AppError::IoError(_) => 500,
            AppError::Unauthorized(_) => 401,
            AppError::UpdateChatError(_) => 400,
            AppError::ChatFileError(_) => 400,
            AppError::CreateMessageError(_) => 400,
        }
    }

    /// The error as one line of text: the variant's prefix, then what it
    /// carries.
    pub fn message(&self) -> (text: String)
        ensures
            text@ == self.prefix() + self.detail(),
    {
        let (prefix, detail): (&str, &String) = match self {
            AppError::EmailAlreadyExists(s) => ("Email already exists: ", s),
            AppError::SqlxError(s) => ("sqlx error: ", s),
            AppError::PasswordHashError(s) => ("password hashing error: ", s),
            AppError::AnyError(s) => ("general error: ", s),
            AppError::HttpHeaderError(s) => ("http header parse error: ", s),
            AppError::CreateChatError(s) => ("create chat error: ", s),
            AppError::NotFound(s) => ("Not found: ", s),
            AppError::IoError(s) => ("io error: ", s),
            AppError::Unauthorized(s) => ("Unauthorized: ", s),
            AppError::UpdateChatError(s) => ("Update chat error: ", s),
            AppError::ChatFileError(s) => ("", s),
            AppError::CreateMessageError(s) => ("create message error: ", s),
        };
        String::from_str(prefix).concat(detail.as_str())
    }

    /// The body of the response that reports the error.
    pub fn output(&self) -> (out: ErrorOutput)
        ensures
            out.error@ == self.prefix() + self.detail(),
    {
        ErrorOutput { error: self.message() }
    }
}

} // verus!

//! The errors of the library, and how each reads to the user.

use vstd::prelude::*;
use crate::status::{status_text, status_message};

verus! {

/// What can be wrong with the stored credentials.
#[derive(Clone, Copy, Debug, PartialEq, Eq, Structural)]
pub enum CredentialsFault {
    /// The home directory is not known, so the file has no path.
    HomeUnknown,
    /// The file is not there, or cannot be read.
    NotFound,
    /// The file lacks one of the two fields.
    Malformed,
}

/// What can go wrong between sending the request and holding the tasks,
/// other than a response that reports failure.
#[derive(Debug, PartialEq, Eq)]
pub enum HttpFault {
    /// No response came. The text is the transport's own account.
    Transport(String),
    /// A response came whose body is not the list of tasks expected. The
    /// text says what was wrong with it.
    Decode(String),
}

/// Everything that can go wrong in one of the three operations.
#[derive(Debug, PartialEq, Eq)]
pub enum AppError {
    /// The credentials cannot be located, found or understood.
    CredentialsError(CredentialsFault),
    /// The service answered with this status, which reports no success.
    FetchTasksError(u16),
    /// The desktop notification was not delivered.
    NotificationError(String),
    /// A file operation failed. The text is the system's own account.
    IoError(String),
    /// The request failed, or the response could not be decoded.
    HttpError(HttpFault),
}

impl CredentialsFault {
    /// The fault in words.
    pub open spec fn text(self) -> Seq<char> {
        match self {
            CredentialsFault::HomeUnknown => "Could not determine home directory"@,
            CredentialsFault::NotFound => "API keys file not found"@,
            CredentialsFault::Malformed => "Invalid API keys file format"@,
        }
    }

    /// The fault in words.
    pub fn message(self) -> (r: &'static str)
        ensures
            r@ == self.text(),
    {
        match self {
            CredentialsFault::HomeUnknown => "Could not determine home directory",
            CredentialsFault::NotFound => "API keys file not found",
            CredentialsFault::Malformed => "Invalid API keys file format",
        }
    }
}

impl HttpFault {
    /// The account that the fault carries.
    pub open spec fn text(self) -> Seq<char> {
        match self {
            HttpFault::Transport(detail) => detail@,
            HttpFault::Decode(detail) => detail@,
        }
    }
}

impl AppError {
    /// The error as one line for the user: what failed, a colon, and the
    /// particulars.
    pub open spec fn text(self) -> Seq<char> {
        match self {
            AppError::CredentialsError(fault) => "Failed to save credentials: "@ + fault.text(),
            AppError::FetchTasksError(status) => "Failed to fetch tasks: "@
                + "API returned status: "@ + status_text(status),
            AppError::NotificationError(detail) => "Notification error: "@ + detail@,
            AppError::IoError(detail) => "IO error: "@ + detail@,
            AppError::HttpError(fault) => "HTTP error: "@ + fault.text(),
        }
    }

    /// The error as one line for the user.
    pub fn message(&self) -> (r: String)
        ensures
            r@ == self.text(),
    {
        match self {
            AppError::CredentialsError(fault) => {
                let mut r = String::from_str("Failed to save credentials: ");
                r.append(fault.message());
                r
            },
            AppError::FetchTasksError(status) => {
                let mut r = String::from_str("Failed to fetch tasks: ");
                r.append("API returned status: ");
                let line = status_message(*status);
                r.append(line.as_str());
                r
            },
            AppError::NotificationError(detail) => {
                let mut r = String::from_str("Notification error: ");
                r.append(detail.as_str());
                r
            },
            AppError::IoError(detail) => {
                let mut r = String::from_str("IO error: ");
                r.append(detail.as_str());
                r
            },
            AppError::HttpError(fault) => {
                let mut r = String::from_str("HTTP error: ");
                match fault {
                    HttpFault::Transport(detail) => r.append(detail.as_str()),
                    HttpFault::Decode(detail) => r.append(detail.as_str()),
                }
                r
            },
        }
    }
}

} // verus!

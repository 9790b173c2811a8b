//! Errors of the login automation and the categories a session reports.

use vstd::prelude::*;
use vstd::string::*;

verus! {

/// The kind of failure that ended a session.
#[derive(Debug, Clone, Copy, PartialEq, Eq, Structural)]
pub enum ErrorCategory {
    /// The login (browser automation, credentials, MFA) failed.
    Authentication,
    /// The tunnel could not be started or kept up.
    Connection,
    /// The system around the session failed (missing tools, files, permissions).
    System,
}

/// Failures of the browser login flow.
#[derive(Debug, Clone)]
pub enum AuthError {
    AuthenticationFailed { reason: String, suggest_manual_mode: bool, suggest_clear_cache: bool },
    InvalidUsername { message: String },
    UsernameWarning { warning_text: String },
    IncorrectPassword { message: String },
    BrowserError { message: String },
    Cancelled,
}

/// The text an `AuthError` is reported with.
pub open spec fn auth_error_text(e: AuthError) -> Seq<char> {
    match e {
        AuthError::AuthenticationFailed { reason, .. } => reason@,
        AuthError::InvalidUsername { message } => message@,
        AuthError::UsernameWarning { warning_text } => warning_text@,
        AuthError::IncorrectPassword { message } => message@,
        AuthError::BrowserError { message } => message@,
        AuthError::Cancelled => "Operation cancelled by user"@,
    }
}

impl AuthError {
    /// The category under which a session records this error: a browser
    /// that could not be started or was lost is a failure of the system
    /// around the login; everything else is an authentication failure.
    pub fn category(&self) -> (c: ErrorCategory)
        ensures
            c == (if *self is BrowserError { ErrorCategory::System } else { ErrorCategory::Authentication }),
    {
        match self {
            AuthError::BrowserError { .. } => ErrorCategory::System,
            _ => ErrorCategory::Authentication,
        }
    }

    /// The text this error is reported with.
    pub fn message(&self) -> (s: String)
        ensures
            s@ == auth_error_text(*self),
    {
        match self {
            AuthError::AuthenticationFailed { reason, .. } => reason.clone(),
            AuthError::InvalidUsername { message } => message.clone(),
            AuthError::UsernameWarning { warning_text } => warning_text.clone(),
            AuthError::IncorrectPassword { message } => message.clone(),
            AuthError::BrowserError { message } => message.clone(),
            AuthError::Cancelled => String::from_str("Operation cancelled by user"),
        }
    }
}

} // verus!

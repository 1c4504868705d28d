//! The error type of the library and the text that each error reads as.

use crate::text::{decimal_text, join2, join3, join5, u64_decimal};
use vstd::prelude::*;

verus! {

#[verifier::external_type_specification]
#[verifier::external_body]
pub struct ExCronError(cron::error::Error);

/// Everything that can stop a transfer job.
#[derive(Debug)]
pub enum AppError {
    /// A local read or write failed; the text is the system's.
    Io(String),
    /// A profile or configuration document could not be read.
    Yaml(String),
    /// A structural defect of a profile, found before any I/O.
    Validation(String),
    /// The named environment variable is not set.
    EnvVarNotFound(String),
    /// No credential could be resolved, or the session is not authenticated.
    AuthenticationFailed(String),
    /// A scheduled trigger has no schedule.
    MissingSchedule,
    /// A schedule that the cron parser rejected.
    InvalidCronSchedule { expression: String, source: cron::error::Error },
    /// A key-based method without a key reference.
    MissingPrivateKeyReference,
    /// A file is larger than the configured ceiling.
    SizeExceeded { path: String, size: u64, max_mb: u64 },
    /// The session or the remote side failed during a transfer.
    Transfer(String),
    /// A hook command exited with failure or could not be run.
    HookFailed { profile_id: String, job_type: String, detail: String },
    /// The transfer failed and the on-error hook failed too: both causes.
    Composed { original: Box<AppError>, on_error: Box<AppError> },
}

/// The content of an error, as the contracts speak of it.
pub enum ErrorView {
    Io(Seq<char>),
    Yaml(Seq<char>),
    Validation(Seq<char>),
    EnvVarNotFound(Seq<char>),
    AuthenticationFailed(Seq<char>),
    MissingSchedule,
    InvalidCronSchedule(Seq<char>),
    MissingPrivateKeyReference,
    SizeExceeded { path: Seq<char>, size: u64, max_mb: u64 },
    Transfer(Seq<char>),
    HookFailed { profile_id: Seq<char>, job_type: Seq<char>, detail: Seq<char> },
    Composed { original: Box<ErrorView>, on_error: Box<ErrorView> },
}

pub open spec fn error_view(e: AppError) -> ErrorView
    decreases e,
{
    match e {
        AppError::Io(m) => ErrorView::Io(m@),
        AppError::Yaml(m) => ErrorView::Yaml(m@),
        AppError::Validation(m) => ErrorView::Validation(m@),
        AppError::EnvVarNotFound(n) => ErrorView::EnvVarNotFound(n@),
        AppError::AuthenticationFailed(m) => ErrorView::AuthenticationFailed(m@),
        AppError::MissingSchedule => ErrorView::MissingSchedule,
        AppError::InvalidCronSchedule { expression, .. } => ErrorView::InvalidCronSchedule(expression@),
        AppError::MissingPrivateKeyReference => ErrorView::MissingPrivateKeyReference,
        AppError::SizeExceeded { path, size, max_mb } => ErrorView::SizeExceeded { path: path@, size, max_mb },
        AppError::Transfer(m) => ErrorView::Transfer(m@),
        AppError::HookFailed { profile_id, job_type, detail } =>
            ErrorView::HookFailed { profile_id: profile_id@, job_type: job_type@, detail: detail@ },
        AppError::Composed { original, on_error } => ErrorView::Composed {
            original: Box::new(error_view(*original)),
            on_error: Box::new(error_view(*on_error)),
        },
    }
}

/// The content of a result whose error is an `AppError`.
pub open spec fn outcome<T>(r: Result<T, AppError>) -> Result<T, ErrorView> {
    match r {
        Ok(v) => Ok(v),
        Err(e) => Err(error_view(e)),
    }
}

/// The text that an error reads as.
pub open spec fn view_text(e: ErrorView) -> Seq<char>
    decreases e,
{
    match e {
        ErrorView::Io(m) => "I/O error: "@ + m,
        ErrorView::Yaml(m) => "YAML deserialization error: "@ + m,
        ErrorView::Validation(m) => "Validation error: "@ + m,
        ErrorView::EnvVarNotFound(n) => "Environment variable '"@ + n + "' not found or invalid."@,
        ErrorView::AuthenticationFailed(m) => "Authentication failed: "@ + m,
        ErrorView::MissingSchedule => "Schedule is required when trigger type is 'schedule'."@,
        ErrorView::InvalidCronSchedule(expression) => "Invalid cron schedule '"@ + expression + "'"@,
        ErrorView::MissingPrivateKeyReference => "Private key reference is missing in the authentication config."@,
        ErrorView::SizeExceeded { path, max_mb, .. } =>
            "File '"@ + path + "' exceeds max allowed size ("@ + decimal_text(max_mb as nat) + " MB)"@,
        ErrorView::Transfer(m) => "Transfer error: "@ + m,
        ErrorView::HookFailed { profile_id, job_type, detail } =>
            job_type + " command failed for profile '"@ + profile_id + "': "@ + detail,
        ErrorView::Composed { original, on_error } =>
            "Transfer failed and on-error command also failed: Original: "@ + view_text(*original)
                + ", On-error: "@ + view_text(*on_error),
    }
}

pub open spec fn error_text(e: AppError) -> Seq<char> {
    view_text(error_view(e))
}

impl AppError {
    /// The text of the error, as `error_text` gives it.
    pub fn message(&self) -> (r: String)
        ensures
            r@ == error_text(*self),
        decreases self,
    {
        match self {
            AppError::Io(m) => {
                join2("I/O error: ", m.as_str())
            },
            AppError::Yaml(m) => join2("YAML deserialization error: ", m.as_str()),
            AppError::Validation(m) => join2("Validation error: ", m.as_str()),
            AppError::EnvVarNotFound(n) => join3("Environment variable '", n.as_str(), "' not found or invalid."),
            AppError::AuthenticationFailed(m) => join2("Authentication failed: ", m.as_str()),
            AppError::MissingSchedule => String::from_str("Schedule is required when trigger type is 'schedule'."),
            AppError::InvalidCronSchedule { expression, .. } => join3("Invalid cron schedule '", expression.as_str(), "'"),
            AppError::MissingPrivateKeyReference => String::from_str(
                "Private key reference is missing in the authentication config.",
            ),
            AppError::SizeExceeded { path, max_mb, .. } => {
                let mb = u64_decimal(*max_mb);
                join5("File '", path.as_str(), "' exceeds max allowed size (", mb.as_str(), " MB)")
            },
            AppError::Transfer(m) => join2("Transfer error: ", m.as_str()),
            AppError::HookFailed { profile_id, job_type, detail } => {
                let mut s = join3(job_type.as_str(), " command failed for profile '", profile_id.as_str());
                s.append("': ");
                s.append(detail.as_str());
                s
            },
            AppError::Composed { original, on_error } => {
                let first = original.message();
                let second = on_error.message();
                let mut r = join3(
                    "Transfer failed and on-error command also failed: Original: ",
                    first.as_str(),
                    ", On-error: ",
                );
                r.append(second.as_str());
                r
            },
        }
    }
}

} // verus!

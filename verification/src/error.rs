//! The error taxonomy of the library.
//!
//! Every failure a library function can report is one of these variants;
//! each function's contract says exactly which variant comes on which
//! input.

use vstd::prelude::*;

use crate::exit_code::AppExitCode;

verus! {

/// All failure classes of the library and its embedding binary.
#[derive(Debug)]
pub enum AppError {
    /// A program could not be started (missing or not executable).
    Spawn(String),
    /// A process ran but exited with a non-zero status.
    NonZeroExit,
    /// Captured bytes were not valid UTF-8, or a payload was malformed.
    Decode(String),
    /// A network or TLS failure while talking to the remote registry.
    Transport(String),
    /// A malformed local package-listing line.
    Parse(String),
    /// Any other failure, carried as a message.
    Other(String),
}

pub type AppResult<T> = Result<T, AppError>;

impl AppError {
    /// A user-facing rendering of the error.
    pub fn message(&self) -> (m: String)
        ensures
            (match self {
                AppError::Spawn(s) => m@ == s@,
                AppError::NonZeroExit => m@ == "Exited with non-zero exit code"@,
                AppError::Decode(s) => m@ == s@,
                AppError::Transport(s) => m@ == s@,
                AppError::Parse(s) => m@ == s@,
                AppError::Other(s) => m@ == s@,
            }),
    {
        match self {
            AppError::Spawn(s) => s.clone(),
            AppError::NonZeroExit => "Exited with non-zero exit code".to_owned(),
            AppError::Decode(s) => s.clone(),
            AppError::Transport(s) => s.clone(),
            AppError::Parse(s) => s.clone(),
            AppError::Other(s) => s.clone(),
        }
    }
}

impl From<String> for AppError {
    fn from(string: String) -> (r: AppError) {
        AppError::Other(string)
    }
}

impl vstd::std_specs::convert::FromSpecImpl<String> for AppError {
    open spec fn obeys_from_spec() -> bool {
        true
    }

    open spec fn from_spec(string: String) -> AppError {
        AppError::Other(string)
    }
}

/// Unwraps a result whose failure would end the whole process; the
/// caller must already know the operation succeeded.
pub trait SilentUnwrap<T>: Sized {
    spec fn unwrap_allowed(&self) -> bool;

    spec fn unwrapped_value(&self) -> T;

    fn silent_unwrap(self, exit_code: AppExitCode) -> (t: T)
        requires
            self.unwrap_allowed(),
        ensures
            t == self.unwrapped_value(),
    ;
}

impl<T> SilentUnwrap<T> for AppResult<T> {
    open spec fn unwrap_allowed(&self) -> bool {
        self is Ok
    }

    open spec fn unwrapped_value(&self) -> T {
        self->Ok_0
    }

    fn silent_unwrap(self, exit_code: AppExitCode) -> (t: T) {
        match self {
            Ok(val) => val,
            Err(_) => vstd::pervasive::unreached(),
        }
    }
}

} // verus!

//! Process-wide exit codes, one per failure class, so that calling
//! scripts can branch on why the program stopped.

use vstd::prelude::*;

verus! {

/// Defined exit codes for the program.
#[derive(Clone, Copy, Debug, PartialEq, Eq, Structural)]
pub enum AppExitCode {
    RunAsRoot,
    FailedCreatingPaths,
    MissingDeps,
    UserCancellation,
    PacmanError,
    GitError,
    MakePkgError,
    ConfigParseError,
    Other,
}

impl AppExitCode {
    /// The numeric code handed to the operating system for this failure class.
    pub open spec fn spec_code(&self) -> i32 {
        match self {
            AppExitCode::RunAsRoot => 1,
            AppExitCode::FailedCreatingPaths => 2,
            AppExitCode::MissingDeps => 3,
            AppExitCode::UserCancellation => 4,
            AppExitCode::PacmanError => 5,
            AppExitCode::GitError => 6,
            AppExitCode::MakePkgError => 7,
            AppExitCode::ConfigParseError => 8,
            AppExitCode::Other => 63,
        }
    }

    /// Each failure class maps to a distinct fixed code.
    #[verifier::when_used_as_spec(spec_code)]
    pub fn code(&self) -> (c: i32)
        ensures
            c == self.spec_code(),
    {
        match self {
            AppExitCode::RunAsRoot => 1,
            AppExitCode::FailedCreatingPaths => 2,
            AppExitCode::MissingDeps => 3,
            AppExitCode::UserCancellation => 4,
            AppExitCode::PacmanError => 5,
            AppExitCode::GitError => 6,
            AppExitCode::MakePkgError => 7,
            AppExitCode::ConfigParseError => 8,
            AppExitCode::Other => 63,
        }
    }
}

} // verus!

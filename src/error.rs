//! What can stop an install, by the phase that failed.

use vstd::prelude::*;

verus! {

/// Why a directory is not a usable virtual environment.
#[derive(Debug, PartialEq, Eq)]
pub enum EnvironmentProblem {
    /// The interpreter check ran but found no interpreter at the path.
    NotAnInterpreter,
    /// The check found an interpreter, but at another path than the one asked
    /// about.
    ForeignInterpreter { executable: String },
    /// The interpreter check itself could not run.
    CheckFailed { cause: String },
    /// The environment's directories could not be opened for writing.
    BadLayout { cause: String },
}

/// The error of an install, labelled with the phase that failed.
#[derive(Debug, PartialEq, Eq)]
pub enum InstallError {
    /// `path` is not a usable virtual environment or interpreter; nothing was
    /// compiled.
    InvalidEnvironment { path: String, problem: EnvironmentProblem },
    /// The build configuration could not be turned into a build context.
    InvalidConfiguration { cause: String },
    /// The native toolchain failed; nothing was built.
    ToolchainFailure { cause: String },
    /// The toolchain succeeded but produced no artifact of kind `kind`.
    BuildIncomplete { kind: String },
    /// Something was built but could not be placed at `destination`.
    InstallationFailed { destination: String, cause: String },
}

/// The model of an [`EnvironmentProblem`].
pub enum ProblemView {
    NotAnInterpreter,
    ForeignInterpreter { executable: Seq<char> },
    CheckFailed { cause: Seq<char> },
    BadLayout { cause: Seq<char> },
}

/// The model of an [`InstallError`].
pub enum ErrorView {
    InvalidEnvironment { path: Seq<char>, problem: ProblemView },
    InvalidConfiguration { cause: Seq<char> },
    ToolchainFailure { cause: Seq<char> },
    BuildIncomplete { kind: Seq<char> },
    InstallationFailed { destination: Seq<char>, cause: Seq<char> },
}

impl View for EnvironmentProblem {
    type V = ProblemView;

    open spec fn view(&self) -> ProblemView {
        match self {
            EnvironmentProblem::NotAnInterpreter => ProblemView::NotAnInterpreter,
            EnvironmentProblem::ForeignInterpreter { executable } => ProblemView::ForeignInterpreter {
                executable: executable@,
            },
            EnvironmentProblem::CheckFailed { cause } => ProblemView::CheckFailed { cause: cause@ },
            EnvironmentProblem::BadLayout { cause } => ProblemView::BadLayout { cause: cause@ },
        }
    }
}

impl View for InstallError {
    type V = ErrorView;

    open spec fn view(&self) -> ErrorView {
        match self {
            InstallError::InvalidEnvironment { path, problem } => ErrorView::InvalidEnvironment {
                path: path@,
                problem: problem@,
            },
            InstallError::InvalidConfiguration { cause } => ErrorView::InvalidConfiguration {
                cause: cause@,
            },
            InstallError::ToolchainFailure { cause } => ErrorView::ToolchainFailure { cause: cause@ },
            InstallError::BuildIncomplete { kind } => ErrorView::BuildIncomplete { kind: kind@ },
            InstallError::InstallationFailed { destination, cause } => ErrorView::InstallationFailed {
                destination: destination@,
                cause: cause@,
            },
        }
    }
}

/// The model of the outcome of an install.
pub open spec fn outcome_view(r: Result<(), InstallError>) -> Result<(), ErrorView> {
    match r {
        Ok(()) => Ok(()),
        Err(e) => Err(e@),
    }
}

} // verus!

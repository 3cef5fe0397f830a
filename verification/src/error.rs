//! Failures of the commands and the exit status they map to.

use vstd::prelude::*;

verus! {

/// Why a command could not be carried out.
#[derive(Clone, Copy, Debug, PartialEq, Eq, Structural)]
pub enum ServeError {
    /// The bare repository could not be created at the given location.
    RepositoryCreationFailed,
    /// The path does not open as a repository.
    RepositoryOpenFailed,
    /// The default branch pointer could not be set.
    HeadUpdateFailed,
    /// `info/refs` or `info/packs` could not be produced or written.
    ServerInfoWriteFailed,
    /// The serving root holds no bare repository.
    NoRepositoriesFound,
    /// A command line value (port, address, flag) was not acceptable.
    InvalidArgument,
}

/// The steps of the commands that can fail.
#[derive(Clone, Copy, Debug, PartialEq, Eq, Structural)]
pub enum Step {
    /// Reading the command line.
    ReadArguments,
    /// Scanning the serving root for repositories.
    ScanRoot,
    /// Creating the bare repository with its default branch.
    CreateRepository,
    /// Setting the configuration flags of a new repository.
    ConfigureRepository,
    /// Writing the hook of a new repository.
    InstallHook,
    /// Reading the repository for, or writing, the discovery files.
    WriteServerInfo,
    /// Opening an existing repository.
    OpenRepository,
    /// Pointing HEAD at a branch.
    UpdateHead,
}

/// The error that a failure of `step` is reported as.  A repository that
/// could not be created, configured or given its hook was not created.
pub open spec fn error_of(step: Step) -> ServeError {
    match step {
        Step::ReadArguments => ServeError::InvalidArgument,
        Step::ScanRoot => ServeError::NoRepositoriesFound,
        Step::CreateRepository => ServeError::RepositoryCreationFailed,
        Step::ConfigureRepository => ServeError::RepositoryCreationFailed,
        Step::InstallHook => ServeError::RepositoryCreationFailed,
        Step::WriteServerInfo => ServeError::ServerInfoWriteFailed,
        Step::OpenRepository => ServeError::RepositoryOpenFailed,
        Step::UpdateHead => ServeError::HeadUpdateFailed,
    }
}

/// Names the error of a step that failed.  Every such error ends the
/// command; nothing is retried and nothing is undone.
pub fn failure_of(step: Step) -> (error: ServeError)
    ensures
        error == error_of(step),
{
    match step {
        Step::ReadArguments => ServeError::InvalidArgument,
        Step::ScanRoot => ServeError::NoRepositoriesFound,
        Step::CreateRepository | Step::ConfigureRepository | Step::InstallHook => {
            ServeError::RepositoryCreationFailed
        },
        Step::WriteServerInfo => ServeError::ServerInfoWriteFailed,
        Step::OpenRepository => ServeError::RepositoryOpenFailed,
        Step::UpdateHead => ServeError::HeadUpdateFailed,
    }
}

/// Exit status of a successful command, and of a session that ran out.
pub const EXIT_SUCCESS: i32 = 0;

/// Exit status of every failed command; failures are not told apart.
pub const EXIT_FAILURE: i32 = 1;

/// The exit status that belongs to the outcome of a command.
pub open spec fn exit_status<T>(outcome: Result<T, ServeError>) -> i32 {
    if outcome is Ok {
        EXIT_SUCCESS
    } else {
        EXIT_FAILURE
    }
}

/// Maps the outcome of a command to the process exit status: `0` for
/// success, `1` for any failure.
pub fn exit_code<T>(outcome: &Result<T, ServeError>) -> (code: i32)
    ensures
        code == exit_status(*outcome),
        code == 0 <==> *outcome is Ok,
        code == 1 <==> *outcome is Err,
{
    match outcome {
        Ok(_) => EXIT_SUCCESS,
        Err(_) => EXIT_FAILURE,
    }
}

} // verus!

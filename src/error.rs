use vstd::prelude::*;
use crate::path::BackendPath;

verus! {

/// Why an attempt to bring the backend up did not succeed.
#[derive(Debug)]
pub enum BackendError {
    /// No candidate interpreter command could be found.
    InterpreterNotFound,
    /// No candidate directory held the backend; every path tried is kept.
    DirectoryNotFound { tried: Vec<BackendPath> },
    /// The operating system refused to create the process.
    SpawnFailed { cause: String, command: String },
    /// The lock guarding the process handle could not be taken.
    LockFailed,
    /// The backend never answered its health endpoint.
    HealthTimeout,
}

/// The machine-readable prefix of each error kind.
pub open spec fn error_code_of(e: BackendError) -> Seq<char> {
    match e {
        BackendError::InterpreterNotFound => "PYTHON_NOT_FOUND"@,
        BackendError::DirectoryNotFound { .. } => "BACKEND_DIR_NOT_FOUND"@,
        BackendError::SpawnFailed { .. } => "SPAWN_FAILED"@,
        BackendError::LockFailed => "LOCK_ERROR"@,
        BackendError::HealthTimeout => "HEALTH_TIMEOUT"@,
    }
}

impl BackendError {
    /// The code that prefixes this error's message at the shell boundary.
    pub fn code(&self) -> (r: &'static str)
        ensures
            r@ == error_code_of(*self),
    {
        match self {
            BackendError::InterpreterNotFound => "PYTHON_NOT_FOUND",
            BackendError::DirectoryNotFound { .. } => "BACKEND_DIR_NOT_FOUND",
            BackendError::SpawnFailed { .. } => "SPAWN_FAILED",
            BackendError::LockFailed => "LOCK_ERROR",
            BackendError::HealthTimeout => "HEALTH_TIMEOUT",
        }
    }
}

} // verus!

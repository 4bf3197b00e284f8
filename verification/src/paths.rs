//! Resolved backend locations, validated once at construction.
//!
//! The backend working directory and the environment-definition file must
//! already exist, and the log directory must exist or have been created;
//! the host probes the filesystem and reports what it found, and
//! construction fails closed on the first missing requirement.
use vstd::prelude::*;

verus! {

/// Why the supervisor could not be constructed: a required path is missing
/// or could not be made.
#[derive(Clone, Copy, PartialEq, Eq, Structural, Debug)]
pub enum ConstructionError {
    BackendDirMissing,
    EnvFileMissing,
    LogDirUnavailable,
}

/// The three locations the supervisor works with, known to be present.
pub struct BackendPaths {
    pub backend_dir: String,
    pub env_file: String,
    pub log_dir: String,
}

/// The outcome construction owes for a given probe: the first missing
/// requirement in backend-directory, environment-file, log-directory order,
/// or nothing when all three are available.
pub open spec fn construction_failure(
    backend_dir_exists: bool,
    env_file_exists: bool,
    log_dir_ready: bool,
) -> Option<ConstructionError> {
    if !backend_dir_exists {
        Some(ConstructionError::BackendDirMissing)
    } else if !env_file_exists {
        Some(ConstructionError::EnvFileMissing)
    } else if !log_dir_ready {
        Some(ConstructionError::LogDirUnavailable)
    } else {
        None
    }
}

impl BackendPaths {
    /// Accept the probed locations, failing closed when any requirement is
    /// missing. Succeeds exactly when the backend directory and the
    /// environment file exist and the log directory is present or was
    /// created.
    pub fn new(
        backend_dir: String,
        backend_dir_exists: bool,
        env_file: String,
        env_file_exists: bool,
        log_dir: String,
        log_dir_ready: bool,
    ) -> (r: Result<BackendPaths, ConstructionError>)
        ensures
            (r is Ok) == (backend_dir_exists && env_file_exists && log_dir_ready),
            r matches Ok(p) ==> p.backend_dir@ == backend_dir@ && p.env_file@ == env_file@
                && p.log_dir@ == log_dir@,
            r matches Err(e) ==> Some(e) == construction_failure(
                backend_dir_exists,
                env_file_exists,
                log_dir_ready,
            ),
    {
        if !backend_dir_exists {
            Err(ConstructionError::BackendDirMissing)
        } else if !env_file_exists {
            Err(ConstructionError::EnvFileMissing)
        } else if !log_dir_ready {
            Err(ConstructionError::LogDirUnavailable)
        } else {
            Ok(BackendPaths { backend_dir, env_file, log_dir })
        }
    }
}

} // verus!

use vstd::prelude::*;

verus! {

/// Everything that can go wrong in the sandbox launcher and the artifact cache.
#[derive(Debug, PartialEq, Eq)]
pub enum CliError {
    /// The home directory of the host user could not be found.
    EnvironmentResolution,
    /// The host user or group id is not the one the sandbox account uses.
    DockerPermissionSafety(String),
    /// The container runtime exited unsuccessfully, with this code.
    SubprocessFailure(i32),
    /// A freshly downloaded tarball was not where the download put it.
    MissingTarball,
    /// Nothing is stashed under `<name>/<code>`.
    MissingStashArtifact(String),
    /// The storage backend could not resolve or download a component.
    Transport(String),
    /// A tarball could not be decompressed or unpacked.
    Extraction(String),
    /// Creating, copying or removing a file or directory failed.
    Filesystem(String),
}

impl CliError {
    /// A copy of this error.
    pub fn duplicate(&self) -> (r: CliError)
        ensures
            r == *self,
    {
        match self {
            CliError::EnvironmentResolution => CliError::EnvironmentResolution,
            CliError::DockerPermissionSafety(m) => CliError::DockerPermissionSafety(m.clone()),
            CliError::SubprocessFailure(c) => CliError::SubprocessFailure(*c),
            CliError::MissingTarball => CliError::MissingTarball,
            CliError::MissingStashArtifact(m) => CliError::MissingStashArtifact(m.clone()),
            CliError::Transport(m) => CliError::Transport(m.clone()),
            CliError::Extraction(m) => CliError::Extraction(m.clone()),
            CliError::Filesystem(m) => CliError::Filesystem(m.clone()),
        }
    }
}

/// The result type of every fallible operation of this crate.
pub type LalResult<T> = Result<T, CliError>;

} // verus!

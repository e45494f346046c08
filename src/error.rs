use vstd::prelude::*;

verus! {

/// Every way an invocation can fail.
#[derive(Debug, Clone, Copy, PartialEq, Eq, Structural)]
pub enum DxError {
    /// The command line could not be read.
    BadArgs,
    /// The platform reports no per-user configuration root.
    ConfigMissing,
    /// The configuration directory could not be created or read.
    ConfigUnreadable,
    /// No directory of that name stands under the configuration directory.
    CommandNotFound,
    /// The command directory holds no `docker-compose.yml`.
    ManifestMissing,
    /// Neither `docker-compose` nor `podman-compose` is on the search path.
    ComposerMissing,
    /// The compose tool could not be started.
    SpawnFailed,
    /// The build phase ended without success.
    BuildFailed,
    /// The user interrupted the run phase.
    Interrupted,
}

} // verus!

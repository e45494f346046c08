use vstd::prelude::*;
use vstd::string::*;

use crate::error::DxError;

verus! {

/// Relies on which::which: the path of an executable of that name found on
/// the search path, or `None` when there is none. A path that is not valid
/// text is reported as `None` too. The answer depends on the environment and
/// the disk, so nothing is promised of it.
#[verifier::external_body]
fn find_executable(name: &str) -> (r: Option<String>) {
    match which::which(name) {
        Ok(p) => p.into_os_string().into_string().ok(),
        Err(_) => None,
    }
}

/// The compose tool to use, given what the search found for
/// `docker-compose` and for `podman-compose`: the first is preferred.
pub fn select_composer(docker: Option<String>, podman: Option<String>) -> (r: Result<
    String,
    DxError,
>)
    ensures
        match (docker, podman) {
            (Some(d), _) => r is Ok && r->Ok_0@ == d@,
            (None, Some(p)) => r is Ok && r->Ok_0@ == p@,
            (None, None) => r == Err::<String, DxError>(DxError::ComposerMissing),
        },
{
    match docker {
        Some(d) => Ok(d),
        None => match podman {
            Some(p) => Ok(p),
            None => Err(DxError::ComposerMissing),
        },
    }
}

/// The names of the compose tools, in the order of preference:
/// `docker-compose`, then `podman-compose`.
pub fn composer_candidates() -> (r: (String, String))
    ensures
        r.0@ == "docker-compose"@,
        r.1@ == "podman-compose"@,
{
    (String::from_str("docker-compose"), String::from_str("podman-compose"))
}

/// Searches the path for the preferred compose tool, then for the other one
/// (see `composer_candidates`), and picks as `select_composer` does. Fails
/// with `ComposerMissing` when neither is found.
pub fn locate_composer() -> (r: Result<String, DxError>)
    ensures
        r is Err ==> r == Err::<String, DxError>(DxError::ComposerMissing),
{
    let (preferred, fallback) = composer_candidates();
    let docker = find_executable(preferred.as_str());
    if docker.is_some() {
        return select_composer(docker, None);
    }
    let podman = find_executable(fallback.as_str());
    select_composer(None, podman)
}

} // verus!

use vstd::prelude::*;
use vstd::string::*;

use crate::error::DxError;
use crate::plan::strs;

verus! {

/// `base/name`, with no second separator when `base` already ends in one.
pub open spec fn join_spec(base: Seq<char>, name: Seq<char>) -> Seq<char> {
    if base.len() > 0 && base.last() == '/' {
        base + name
    } else {
        base + seq!['/'] + name
    }
}

/// The directory name of this application under the configuration root.
pub open spec fn app_dir_name() -> Seq<char> {
    "dxrun"@
}

/// The configuration directory under a given per-user configuration root.
pub open spec fn config_dir_spec(root: Seq<char>) -> Seq<char> {
    join_spec(root, app_dir_name())
}

/// The name of the compose manifest inside a command directory.
pub open spec fn manifest_name() -> Seq<char> {
    "docker-compose.yml"@
}

/// Joins a path and a name with one `/` between them.
pub fn join_path(base: &str, name: &str) -> (r: String)
    ensures
        r@ == join_spec(base@, name@),
{
    let mut r = String::from_str(base);
    let n = base.unicode_len();
    if !(n > 0 && base.get_char(n - 1) == '/') {
        r.append("/");
        proof {
            reveal_strlit("/");
        }
    }
    r.append(name);
    r
}

/// Relies on dirs::config_dir: the platform's per-user configuration root,
/// or `None` where the platform reports none. A reported root that is not
/// valid text comes back as `Some(None)`. The answer depends on the
/// environment, so nothing is promised of it.
#[verifier::external_body]
fn user_config_root() -> (r: Option<Option<String>>) {
    match dirs::config_dir() {
        Some(p) => Some(p.into_os_string().into_string().ok()),
        None => None,
    }
}

/// The configuration directory for a reported root: `ConfigMissing` when
/// the platform reported none, `ConfigUnreadable` when the reported root
/// is not valid text.
pub fn config_dir_from_root(root: Option<Option<String>>) -> (r: Result<String, DxError>)
    ensures
        match root {
            Some(Some(p)) => r is Ok && r->Ok_0@ == config_dir_spec(p@),
            Some(None) => r == Err::<String, DxError>(DxError::ConfigUnreadable),
            None => r == Err::<String, DxError>(DxError::ConfigMissing),
        },
{
    match root {
        Some(Some(p)) => Ok(join_path(p.as_str(), "dxrun")),
        Some(None) => Err(DxError::ConfigUnreadable),
        None => Err(DxError::ConfigMissing),
    }
}

/// The configuration directory, `<config root>/dxrun`. The directory is not
/// created here; the caller creates it when missing.
pub fn get_config_dir() -> (r: Result<String, DxError>)
    ensures
        r is Ok ==> exists|root: Seq<char>| r->Ok_0@ == config_dir_spec(root),
        r is Err ==> r == Err::<String, DxError>(DxError::ConfigMissing) || r == Err::<
            String,
            DxError,
        >(DxError::ConfigUnreadable),
{
    let root = user_config_root();
    config_dir_from_root(root)
}

/// The directory of a command: `<config dir>/<name>`.
pub fn command_dir(config_dir: &str, name: &str) -> (r: String)
    ensures
        r@ == join_spec(config_dir@, name@),
{
    join_path(config_dir, name)
}

/// The manifest of a command directory: `<dir>/docker-compose.yml`.
pub fn manifest_path(dir: &str) -> (r: String)
    ensures
        r@ == join_spec(dir@, manifest_name()),
{
    join_path(dir, "docker-compose.yml")
}

/// The lines that list the available commands: a banner, then `- <name>`
/// for each name in the order given.
pub open spec fn list_lines_spec(names: Seq<Seq<char>>) -> Seq<Seq<char>> {
    seq!["Available Options:"@] + names.map_values(|n: Seq<char>| "- "@ + n)
}

/// The lines printed in list mode.
pub fn list_lines(names: &Vec<String>) -> (r: Vec<String>)
    ensures
        strs(r@) == list_lines_spec(strs(names@)),
{
    let mut r: Vec<String> = Vec::new();
    r.push(String::from_str("Available Options:"));
    let mut j: usize = 0;
    while j < names.len()
        invariant
            j <= names.len(),
            strs(r@) == list_lines_spec(strs(names@).take(j as int)),
        decreases names.len() - j,
    {
        let ghost before = strs(r@);
        let mut line = String::from_str("- ");
        line.append(names[j].as_str());
        r.push(line);
        proof {
            let ns = strs(names@);
            assert(ns.take(j + 1) =~= ns.take(j as int).push(ns[j as int]));
            assert(strs(r@) =~= before.push("- "@ + ns[j as int]));
            assert(list_lines_spec(ns.take(j + 1)) =~= list_lines_spec(ns.take(j as int)).push(
                "- "@ + ns[j as int],
            ));
        }
        j += 1;
    }
    proof {
        assert(strs(names@).take(names.len() as int) =~= strs(names@));
    }
    r
}

} // verus!

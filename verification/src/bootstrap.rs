//! Where the Tor client's persistent state lives.
//!
//! The onion service's long-term private key is stored under this tree, so
//! the application directory and the Tor directory under it are restricted
//! to their owner. The paths are computed here; creating them and setting
//! their mode is filesystem work done outside this core, with the mode
//! declared here.

use vstd::prelude::*;

verus! {

/// POSIX mode the data directories must carry: owner-only access, never
/// group or world.
pub const OWNER_ONLY_MODE: u32 = 0o700;

/// The resolved directory layout: the application's own directory and the
/// Tor state directory under it.
#[derive(Clone, Debug)]
pub struct DataDirs {
    /// `<base>/ghost-freedom-kit`
    pub app_dir: String,
    /// `<base>/ghost-freedom-kit/tor`
    pub tor_dir: String,
}

/// Path join with a single separator.
pub open spec fn spec_join(base: Seq<char>, name: Seq<char>) -> Seq<char> {
    base + "/"@ + name
}

/// The application directory under a base directory.
pub open spec fn spec_app_dir(base: Seq<char>) -> Seq<char> {
    spec_join(base, "ghost-freedom-kit"@)
}

/// The Tor state directory under a base directory.
pub open spec fn spec_tor_dir(base: Seq<char>) -> Seq<char> {
    spec_join(spec_app_dir(base), "tor"@)
}

/// Joins one path component onto a base path.
pub fn join_path(base: &str, name: &str) -> (r: String)
    ensures
        r@ == spec_join(base@, name@),
{
    let mut r = String::from_str(base);
    r.append("/");
    r.append(name);
    r
}

/// Resolves the directory layout from a base directory: the platform's data
/// directory when one is known, the current directory otherwise.
pub fn resolve_data_dirs(platform_base: Option<String>) -> (r: DataDirs)
    ensures
        platform_base matches Some(b) ==> r.app_dir@ == spec_app_dir(b@) && r.tor_dir@
            == spec_tor_dir(b@),
        platform_base is None ==> r.app_dir@ == spec_app_dir("."@) && r.tor_dir@ == spec_tor_dir(
            "."@,
        ),
{
    let base: String = match platform_base {
        Some(b) => b,
        None => String::from_str("."),
    };
    let app_dir = join_path(base.as_str(), "ghost-freedom-kit");
    let tor_dir = join_path(app_dir.as_str(), "tor");
    DataDirs { app_dir, tor_dir }
}

/// Relies on dirs::data_dir: the platform's per-user data directory, if the
/// platform defines one. The value depends on the environment, so nothing is
/// promised of it.
#[verifier::external_body]
fn platform_data_dir() -> (r: Option<String>) {
    dirs::data_dir().map(|p| p.to_string_lossy().into_owned())
}

/// The default directory layout: under the platform's data directory when
/// one is known, else under the current directory. Whatever the platform
/// answered, the layout is the resolved form of some base directory.
pub fn default_data_dirs() -> (r: DataDirs)
    ensures
        exists|base: Seq<char>|
            r.app_dir@ == spec_app_dir(base) && r.tor_dir@ == #[trigger] spec_tor_dir(base),
{
    let base = platform_data_dir();
    let ghost gbase = base;
    let r = resolve_data_dirs(base);
    proof {
        match gbase {
            Some(b) => {
                assert(r.app_dir@ == spec_app_dir(b@) && r.tor_dir@ == spec_tor_dir(b@));
            },
            None => {
                assert(r.app_dir@ == spec_app_dir("."@) && r.tor_dir@ == spec_tor_dir("."@));
            },
        }
    }
    r
}

} // verus!

//! Resolution of the sidecar's working directory.
//!
//! On the platform family with a conventional per-user application-support
//! directory, the working directory is `<home>/<convention>/<app id>`; on
//! every other platform it is the directory containing the running
//! executable. When neither can be determined, resolution yields the empty
//! string, the sentinel for "no directory override": downstream components
//! must then inject no working-directory override and no dependent
//! environment variables.

use vstd::prelude::*;
use vstd::string::StringExecFns;

verus! {

/// The platform family the host runs on: the family with a conventional
/// per-user application-support directory, and everything else.
#[derive(Clone, Copy, PartialEq, Eq, Structural, Debug)]
pub enum Platform {
    MacOs,
    Other,
}

/// Path appended to the home directory on the per-user-data platform
/// family: the platform convention plus the application identifier.
pub open spec fn user_data_subpath() -> Seq<char> {
    "/Library/Application Support/com.sekiyo.skydrama"@
}

/// Holds of a resolved working directory on the per-user-data platform
/// family: it ends in the conventional per-user subpath.
pub open spec fn has_user_data_suffix(s: Seq<char>) -> bool {
    &&& s.len() >= user_data_subpath().len()
    &&& s.subrange(s.len() - user_data_subpath().len(), s.len() as int) == user_data_subpath()
}

/// Relies on dirs::home_dir: yields the user's home directory when the
/// platform can determine one, and None otherwise. The outcome depends on
/// the environment, so nothing is assumed of the returned path itself.
#[verifier::external_body]
fn detect_home_dir() -> (r: Option<String>) {
    dirs::home_dir().map(|p| p.to_string_lossy().to_string())
}

/// Computes the working directory from the platform family and the two
/// host facts it may depend on: the home directory and the directory
/// containing the running executable, either of which may be unknown.
/// The empty result means "no directory override".
pub fn resolve_work_dir(platform: Platform, home: &Option<String>, exe_parent: &Option<String>) -> (r: String)
    ensures
        platform == Platform::MacOs ==> (home matches Some(h) ==> r@ == h@ + user_data_subpath()),
        platform == Platform::MacOs && home is None ==> r@.len() == 0,
        platform == Platform::Other ==> (exe_parent matches Some(p) ==> r@ == p@),
        platform == Platform::Other && exe_parent is None ==> r@.len() == 0,
{
    match platform {
        Platform::MacOs => {
            match home {
                Some(h) => {
                    let mut dir = h.clone();
                    dir.append("/Library/Application Support/com.sekiyo.skydrama");
                    dir
                },
                None => String::new(),
            }
        },
        Platform::Other => {
            match exe_parent {
                Some(p) => p.clone(),
                None => String::new(),
            }
        },
    }
}

/// Resolves the working directory from the host itself: the home
/// directory is detected here, so on the per-user-data platform family
/// the result is either empty (home undeterminable) or a path ending in
/// the conventional per-user subpath, whatever the environment held.
pub fn resolve_work_dir_from_host(platform: Platform, exe_parent: &Option<String>) -> (r: String)
    ensures
        platform == Platform::MacOs ==> r@.len() == 0 || has_user_data_suffix(r@),
        platform == Platform::Other ==> (exe_parent matches Some(p) ==> r@ == p@),
        platform == Platform::Other && exe_parent is None ==> r@.len() == 0,
{
    match platform {
        Platform::MacOs => {
            let home = detect_home_dir();
            let r = resolve_work_dir(Platform::MacOs, &home, exe_parent);
            proof {
                if home is Some {
                    assert(r@.subrange(
                        r@.len() - user_data_subpath().len(),
                        r@.len() as int,
                    ) =~= user_data_subpath());
                }
            }
            r
        },
        Platform::Other => resolve_work_dir(Platform::Other, &None, exe_parent),
    }
}

} // verus!

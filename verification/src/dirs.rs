//! The process-wide cache locations: layer blobs, raw blobs and container
//! bundles all live under the platform's cache directory for this
//! project.
//!
//! Which base directory that is depends on the process environment, so
//! nothing more is promised of it than that each location is the named
//! sub-directory of some base.
use vstd::prelude::*;

verus! {

/// Reverse-domain qualifier of the project's platform directories.
pub const QUALIFIER: &'static str = "dev";

/// Organization segment of the project's platform directories.
pub const ORGANIZATION: &'static str = "doe";

/// Application segment of the project's platform directories.
pub const NAME: &'static str = "doe";

#[verifier::external_type_specification]
#[verifier::external_body]
pub struct ExProjectDirs(directories::ProjectDirs);

/// Relies on `directories::ProjectDirs::from`: the platform's project
/// directories for a qualifier/organization/application triple, or
/// nothing when no home directory is known.
#[verifier::external_body]
fn project_dirs_from(qualifier: &str, organization: &str, application: &str) -> Option<
    directories::ProjectDirs,
> {
    directories::ProjectDirs::from(qualifier, organization, application)
}

/// Relies on `directories::ProjectDirs::cache_dir`: the project's cache
/// directory; the value depends on the process environment.
#[verifier::external_body]
fn cache_dir_of(dirs: &directories::ProjectDirs) -> String {
    dirs.cache_dir().to_string_lossy().into_owned()
}

/// `sub_directory` under the project's cache directory, when the platform
/// knows one.
pub fn cache_dir(sub_directory: &str) -> (r: Option<String>)
    ensures
        r matches Some(p) ==> exists|b: Seq<char>|
            p@ == crate::spec_path_join(b, sub_directory@),
{
    match project_dirs_from(QUALIFIER, ORGANIZATION, NAME) {
        Some(dirs) => {
            let base = cache_dir_of(&dirs);
            let p = crate::path_join(base.as_str(), sub_directory);
            proof {
                assert(p@ == crate::spec_path_join(base@, sub_directory@));
            }
            Some(p)
        },
        None => None,
    }
}

/// The layer cache: one directory per content-addressed filesystem diff.
pub fn layer_dir() -> (r: Option<String>)
    ensures
        r matches Some(p) ==> exists|b: Seq<char>| p@ == crate::spec_path_join(b, "layers"@),
{
    cache_dir("layers")
}

/// The blob cache.
pub fn blob_dir() -> (r: Option<String>)
    ensures
        r matches Some(p) ==> exists|b: Seq<char>| p@ == crate::spec_path_join(b, "blobs"@),
{
    cache_dir("blobs")
}

/// The per-container bundle root: one directory per container name.
pub fn containers() -> (r: Option<String>)
    ensures
        r matches Some(p) ==> exists|b: Seq<char>| p@ == crate::spec_path_join(b, "containers"@),
{
    cache_dir("containers")
}

} // verus!

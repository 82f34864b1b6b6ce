//! Where the player keeps its configuration, themes and cache.
//!
//! Each location is the platform's directory of that kind with a `minim`
//! directory under it. The platform's directory depends on the environment,
//! so each location also has a function that takes that directory as given.

use std::path::PathBuf;

use vstd::prelude::*;

verus! {

/// The path that `PathBuf::push` makes of `base` and `part`.
pub uninterp spec fn joined_path(base: Seq<char>, part: Seq<char>) -> Seq<char>;

/// Relies on `PathBuf::push`: `part` appended to `base` (or replacing it,
/// where `part` is absolute); the result depends on the two strings alone.
#[verifier::external_body]
fn join(base: &str, part: &str) -> (r: String)
    ensures
        r@ == joined_path(base@, part@),
{
    let mut path = PathBuf::from(base);
    path.push(part);
    path.to_string_lossy().into_owned()
}

/// Relies on `dirs::config_dir`: the user's configuration directory, where
/// the platform has one. It depends on the environment: nothing is promised.
#[verifier::external_body]
fn platform_config_dir() -> Option<String> {
    match dirs::config_dir() {
        Some(p) => Some(p.to_string_lossy().into_owned()),
        None => None,
    }
}

/// Relies on `dirs::cache_dir`: the user's cache directory, where the
/// platform has one. It depends on the environment: nothing is promised.
#[verifier::external_body]
fn platform_cache_dir() -> Option<String> {
    match dirs::cache_dir() {
        Some(p) => Some(p.to_string_lossy().into_owned()),
        None => None,
    }
}

/// The player's own directory under `root`.
pub open spec fn app_dir(root: Seq<char>) -> Seq<char> {
    joined_path(root, "minim"@)
}

pub open spec fn config_file_path(config_root: Seq<char>) -> Seq<char> {
    joined_path(app_dir(config_root), "config.toml"@)
}

pub open spec fn theme_dir_path(config_root: Seq<char>) -> Seq<char> {
    joined_path(app_dir(config_root), "themes"@)
}

/// The player's directory under the platform directory `root`.
pub fn app_dir_in(root: &str) -> (r: String)
    ensures
        r@ == app_dir(root@),
{
    join(root, "minim")
}

/// The configuration file, for the platform configuration directory `config_root`.
pub fn config_file_in(config_root: &str) -> (r: String)
    ensures
        r@ == config_file_path(config_root@),
{
    let dir = app_dir_in(config_root);
    join(dir.as_str(), "config.toml")
}

/// The theme directory, for the platform configuration directory `config_root`.
pub fn theme_dir_in(config_root: &str) -> (r: String)
    ensures
        r@ == theme_dir_path(config_root@),
{
    let dir = app_dir_in(config_root);
    join(dir.as_str(), "themes")
}

/// The player's cache directory, where the platform has a cache directory.
pub fn cache_dir() -> (r: Option<String>)
    ensures
        r matches Some(p) ==> exists|root: Seq<char>| p@ == app_dir(root),
{
    match platform_cache_dir() {
        Some(root) => Some(app_dir_in(root.as_str())),
        None => None,
    }
}

/// The player's configuration directory, where the platform has one.
pub fn config_dir() -> (r: Option<String>)
    ensures
        r matches Some(p) ==> exists|root: Seq<char>| p@ == app_dir(root),
{
    match platform_config_dir() {
        Some(root) => Some(app_dir_in(root.as_str())),
        None => None,
    }
}

/// The configuration file, where the platform has a configuration directory.
pub fn config_file() -> (r: Option<String>)
    ensures
        r matches Some(p) ==> exists|root: Seq<char>| p@ == config_file_path(root),
{
    match platform_config_dir() {
        Some(root) => Some(config_file_in(root.as_str())),
        None => None,
    }
}

/// The theme directory, where the platform has a configuration directory.
pub fn theme_dir() -> (r: Option<String>)
    ensures
        r matches Some(p) ==> exists|root: Seq<char>| p@ == theme_dir_path(root),
{
    match platform_config_dir() {
        Some(root) => Some(theme_dir_in(root.as_str())),
        None => None,
    }
}

} // verus!

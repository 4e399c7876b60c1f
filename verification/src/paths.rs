//! Paths and well-known directories.
//!
//! Paths are handled as text. Splitting and joining them is left to the
//! standard library, and the user's directories to the `dirs` crate; this
//! module gives those calls a contract and builds the locations of the two
//! stored documents from them.

use crate::sites::text_of;
use vstd::prelude::*;
use vstd::string::*;

verus! {

/// The final component of a path as `std::path::Path::file_name` reads it:
/// none for a path that ends in `..` or that has no component to name.
pub uninterp spec fn path_file_name(path: Seq<char>) -> Option<Seq<char>>;

/// The path that `std::path::Path::join` makes of a base and a child.
pub uninterp spec fn path_joined(base: Seq<char>, child: Seq<char>) -> Seq<char>;

/// Trusted: calls `std::path::Path::file_name` on the path that `path`
/// spells. The result depends on the text of the path alone; it is named,
/// not described. A component cut from valid text is valid text, so turning
/// it back into a `String` loses nothing.
#[verifier::external_body]
pub(crate) fn file_name(path: &str) -> (r: Option<String>)
    ensures
        text_of(r) == path_file_name(path@),
{
    match std::path::Path::new(path).file_name() {
        Some(name) => Some(name.to_string_lossy().to_string()),
        None => None,
    }
}

/// Trusted: calls `std::path::Path::join` on the paths that `base` and
/// `child` spell. The result depends on the two texts alone; it is named,
/// not described.
#[verifier::external_body]
pub(crate) fn join(base: &str, child: &str) -> (r: String)
    ensures
        r@ == path_joined(base@, child@),
{
    std::path::Path::new(base).join(child).to_string_lossy().to_string()
}

/// Trusted: calls `dirs::home_dir`, which reads the environment and the
/// user database. Nothing is claimed about what comes back. Bytes of the
/// directory that are not valid text are replaced when it is turned into a
/// `String`.
#[verifier::external_body]
pub(crate) fn home_dir() -> (r: Option<String>) {
    match dirs::home_dir() {
        Some(dir) => Some(dir.to_string_lossy().to_string()),
        None => None,
    }
}

/// Trusted: calls `dirs::config_dir`, which reads the environment and the
/// user database. Nothing is claimed about what comes back. Bytes of the
/// directory that are not valid text are replaced when it is turned into a
/// `String`.
#[verifier::external_body]
pub(crate) fn config_dir() -> (r: Option<String>) {
    match dirs::config_dir() {
        Some(dir) => Some(dir.to_string_lossy().to_string()),
        None => None,
    }
}

pub const FALLBACK_CONFIG_DIR: &'static str = "/tmp";

pub const APP_DIR: &'static str = "servermark";

pub const REGISTRY_FILE: &'static str = "sites.json";

pub const SELECTION_FILE: &'static str = "webserver.json";

pub const PROJECTS_DIR: &'static str = "Code";

pub const FALLBACK_PROJECTS_DIR: &'static str = "/home";

/// Where a stored document called `file` lies, given the user's
/// configuration directory: below `servermark` in that directory, or in
/// `/tmp` where the user has none.
pub open spec fn document_location(config_dir: Option<Seq<char>>, file: Seq<char>) -> Seq<char> {
    path_joined(
        path_joined(
            match config_dir {
                Some(dir) => dir,
                None => FALLBACK_CONFIG_DIR@,
            },
            APP_DIR@,
        ),
        file,
    )
}

/// The directory that new projects are created in by default, given the
/// user's home directory: `Code` below it, or `/home` for a user without one.
pub open spec fn default_projects_dir(home: Option<Seq<char>>) -> Seq<char> {
    match home {
        Some(dir) => path_joined(dir, PROJECTS_DIR@),
        None => FALLBACK_PROJECTS_DIR@,
    }
}

/// Where a stored document called `file` lies, given the user's
/// configuration directory.
pub fn document_path(config_dir: &Option<String>, file: &str) -> (r: String)
    ensures
        r@ == document_location(text_of(*config_dir), file@),
{
    let app_dir = match config_dir {
        Some(dir) => join(dir.as_str(), APP_DIR),
        None => join(FALLBACK_CONFIG_DIR, APP_DIR),
    };
    join(app_dir.as_str(), file)
}

/// The directory that new projects are created in by default, given the
/// user's home directory.
pub fn projects_dir(home: &Option<String>) -> (r: String)
    ensures
        r@ == default_projects_dir(text_of(*home)),
{
    match home {
        Some(dir) => join(dir.as_str(), PROJECTS_DIR),
        None => FALLBACK_PROJECTS_DIR.to_string(),
    }
}

} // verus!

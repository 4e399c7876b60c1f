//! The script that hands the writable directories of a Laravel project to
//! the web server.

use crate::errors::Error;
use crate::paths::{join, path_joined};
use crate::sites::slice_text_of;
use vstd::prelude::*;
use vstd::string::*;

verus! {

pub const STORAGE_DIR: &'static str = "storage";

pub const CACHE_DIR: &'static str = "bootstrap/cache";

pub const FALLBACK_USER: &'static str = "www-data";

pub const INDENT: &'static str = "    ";

pub const OWN_OPEN: &'static str = "chown -R ";

pub const OWN_GROUP: &'static str = ":www-data \"";

pub const MODE_OPEN: &'static str = "chmod -R 775 \"";

pub const QUOTED_END: &'static str = "\"\n";

pub const FIND_OPEN: &'static str = "    find \"";

pub const FIND_DIRS: &'static str = "\" -type d -exec chmod 775 {} \\;\n";

pub const FIND_FILES: &'static str = "\" -type f -exec chmod 664 {} \\;\n";

pub const TEST_OPEN: &'static str = "if [ -d \"";

pub const TEST_THEN: &'static str = "\" ]; then\n";

pub const TEST_END: &'static str = "fi\n";

pub const MKDIR_OPEN: &'static str = "mkdir -p \"";

pub const HEAD_STORAGE: &'static str = "\nset -e\n\n# Fix storage directory\n";

pub const HEAD_CACHE: &'static str = "\n# Fix bootstrap/cache directory\n";

pub const HEAD_CREATE: &'static str = "\n# Ensure directories exist\n";

pub const HEAD_FINISH: &'static str = "\n# Set permissions on newly created dirs\n";

pub const REPORT: &'static str = "\necho \"Permissions fixed successfully\"\n";

pub const SUB_PUBLIC: &'static str = "/app/public";

pub const SUB_CACHE: &'static str = "/framework/cache";

pub const SUB_SESSIONS: &'static str = "/framework/sessions";

pub const SUB_VIEWS: &'static str = "/framework/views";

pub const SUB_LOGS: &'static str = "/logs";

/// The step that gives `dir` and all below it to `user` and the group of
/// the web server.
pub open spec fn own_step(user: Seq<char>, dir: Seq<char>, indented: bool) -> Seq<char> {
    (if indented {
        INDENT@
    } else {
        Seq::<char>::empty()
    }) + OWN_OPEN@ + user + OWN_GROUP@ + dir + QUOTED_END@
}

/// The step that makes `dir` and all below it writable for owner and group.
pub open spec fn mode_step(dir: Seq<char>, indented: bool) -> Seq<char> {
    (if indented {
        INDENT@
    } else {
        Seq::<char>::empty()
    }) + MODE_OPEN@ + dir + QUOTED_END@
}

/// The step that creates the directory `dir` and what is missing above it.
pub open spec fn mkdir_step(dir: Seq<char>) -> Seq<char> {
    MKDIR_OPEN@ + dir + QUOTED_END@
}

/// The steps that repair the storage directory where it exists: owner,
/// mode, then 775 on every directory and 664 on every file in it.
pub open spec fn storage_steps(user: Seq<char>, storage: Seq<char>) -> Seq<char> {
    TEST_OPEN@ + storage + TEST_THEN@ + own_step(user, storage, true) + mode_step(storage, true)
        + (FIND_OPEN@ + storage + FIND_DIRS@) + (FIND_OPEN@ + storage + FIND_FILES@) + TEST_END@
}

/// The steps that repair the cache directory where it exists: owner, mode.
pub open spec fn cache_steps(user: Seq<char>, cache: Seq<char>) -> Seq<char> {
    TEST_OPEN@ + cache + TEST_THEN@ + own_step(user, cache, true) + mode_step(cache, true)
        + TEST_END@
}

/// The steps that create the directories Laravel writes to.
pub open spec fn create_steps(storage: Seq<char>, cache: Seq<char>) -> Seq<char> {
    mkdir_step(storage + SUB_PUBLIC@) + mkdir_step(storage + SUB_CACHE@) + mkdir_step(
        storage + SUB_SESSIONS@,
    ) + mkdir_step(storage + SUB_VIEWS@) + mkdir_step(storage + SUB_LOGS@) + mkdir_step(cache)
}

/// The whole script for a project whose storage and cache directories are
/// `storage` and `cache`, run on behalf of `user`.
pub open spec fn permissions_script(user: Seq<char>, storage: Seq<char>, cache: Seq<char>) -> Seq<
    char,
> {
    HEAD_STORAGE@ + storage_steps(user, storage) + HEAD_CACHE@ + cache_steps(user, cache)
        + HEAD_CREATE@ + create_steps(storage, cache) + HEAD_FINISH@ + own_step(
        user,
        storage,
        false,
    ) + own_step(user, cache, false) + mode_step(storage, false) + mode_step(cache, false)
        + REPORT@
}

/// The script for the project at `path`, or the reason why there is none.
pub open spec fn permissions_plan(
    path: Seq<char>,
    exists: bool,
    has_artisan: bool,
    user: Option<Seq<char>>,
) -> Result<Seq<char>, Error> {
    if !exists {
        Err(Error::PathMissing)
    } else if !has_artisan {
        Err(Error::NotLaravelProject)
    } else {
        Ok(
            permissions_script(
                match user {
                    Some(name) => name,
                    None => FALLBACK_USER@,
                },
                path_joined(path, STORAGE_DIR@),
                path_joined(path, CACHE_DIR@),
            ),
        )
    }
}

fn own_script(user: &str, dir: &str, indented: bool) -> (r: String)
    ensures
        r@ == own_step(user@, dir@, indented),
{
    let mut out = if indented {
        INDENT.to_string()
    } else {
        String::new()
    };
    out.append(OWN_OPEN);
    out.append(user);
    out.append(OWN_GROUP);
    out.append(dir);
    out.append(QUOTED_END);
    out
}

fn mode_script(dir: &str, indented: bool) -> (r: String)
    ensures
        r@ == mode_step(dir@, indented),
{
    let mut out = if indented {
        INDENT.to_string()
    } else {
        String::new()
    };
    out.append(MODE_OPEN);
    out.append(dir);
    out.append(QUOTED_END);
    out
}

fn mkdir_script(dir: &str, below: &str) -> (r: String)
    ensures
        r@ == mkdir_step(dir@ + below@),
{
    let target = dir.to_string().concat(below);
    MKDIR_OPEN.to_string().concat(target.as_str()).concat(QUOTED_END)
}

fn storage_script(user: &str, storage: &str) -> (r: String)
    ensures
        r@ == storage_steps(user@, storage@),
{
    let own = own_script(user, storage, true);
    let mode = mode_script(storage, true);
    let dirs = FIND_OPEN.to_string().concat(storage).concat(FIND_DIRS);
    let files = FIND_OPEN.to_string().concat(storage).concat(FIND_FILES);
    let mut out = TEST_OPEN.to_string();
    out.append(storage);
    out.append(TEST_THEN);
    out.append(own.as_str());
    out.append(mode.as_str());
    out.append(dirs.as_str());
    out.append(files.as_str());
    out.append(TEST_END);
    out
}

fn cache_script(user: &str, cache: &str) -> (r: String)
    ensures
        r@ == cache_steps(user@, cache@),
{
    let own = own_script(user, cache, true);
    let mode = mode_script(cache, true);
    let mut out = TEST_OPEN.to_string();
    out.append(cache);
    out.append(TEST_THEN);
    out.append(own.as_str());
    out.append(mode.as_str());
    out.append(TEST_END);
    out
}

fn create_script(storage: &str, cache: &str) -> (r: String)
    ensures
        r@ == create_steps(storage@, cache@),
{
    let mut out = mkdir_script(storage, SUB_PUBLIC);
    let second = mkdir_script(storage, SUB_CACHE);
    out.append(second.as_str());
    let third = mkdir_script(storage, SUB_SESSIONS);
    out.append(third.as_str());
    let fourth = mkdir_script(storage, SUB_VIEWS);
    out.append(fourth.as_str());
    let fifth = mkdir_script(storage, SUB_LOGS);
    out.append(fifth.as_str());
    let last = MKDIR_OPEN.to_string().concat(cache).concat(QUOTED_END);
    out.append(last.as_str());
    out
}

/// The script that repairs the storage directory `storage` and the cache
/// directory `cache` of a Laravel project on behalf of `owner`.
pub fn script_for_directories(owner: &str, storage: &str, cache: &str) -> (r: String)
    ensures
        r@ == permissions_script(owner@, storage@, cache@),
{
    let first = storage_script(owner, storage);
    let second = cache_script(owner, cache);
    let third = create_script(storage, cache);
    let own_storage = own_script(owner, storage, false);
    let own_cache = own_script(owner, cache, false);
    let mode_storage = mode_script(storage, false);
    let mode_cache = mode_script(cache, false);
    let mut out = HEAD_STORAGE.to_string();
    out.append(first.as_str());
    out.append(HEAD_CACHE);
    out.append(second.as_str());
    out.append(HEAD_CREATE);
    out.append(third.as_str());
    out.append(HEAD_FINISH);
    out.append(own_storage.as_str());
    out.append(own_cache.as_str());
    out.append(mode_storage.as_str());
    out.append(mode_cache.as_str());
    out.append(REPORT);
    out
}

/// The script that repairs the writable directories of the Laravel project
/// at `path`: `storage` and `bootstrap/cache` are given to `user` (to
/// `www-data` where no user is known) and the group of the web server, made
/// writable for both, and the directories Laravel expects below them are
/// created.
///
/// There is no script for a path that does not exist, nor for a directory
/// without an `artisan` file. The script is meant for one privileged run.
pub fn fix_laravel_permissions(path: &str, exists: bool, has_artisan: bool, user: Option<&str>) -> (r:
    Result<String, Error>)
    ensures
        match permissions_plan(path@, exists, has_artisan, slice_text_of(user)) {
            Ok(script) => r matches Ok(text) && text@ == script,
            Err(e) => r == Err::<String, Error>(e),
        },
{
    if !exists {
        return Err(Error::PathMissing);
    }
    if !has_artisan {
        return Err(Error::NotLaravelProject);
    }
    let storage = join(path, STORAGE_DIR);
    let cache = join(path, CACHE_DIR);
    let owner = match user {
        Some(name) => name,
        None => FALLBACK_USER,
    };
    Ok(script_for_directories(owner, storage.as_str(), cache.as_str()))
}

/// The permissions script as it is wanted while a site is being added; the
/// same as [`fix_laravel_permissions`].
pub fn fix_laravel_permissions_internal(
    path: &str,
    exists: bool,
    has_artisan: bool,
    user: Option<&str>,
) -> (r: Result<String, Error>)
    ensures
        match permissions_plan(path@, exists, has_artisan, slice_text_of(user)) {
            Ok(script) => r matches Ok(text) && text@ == script,
            Err(e) => r == Err::<String, Error>(e),
        },
{
    fix_laravel_permissions(path, exists, has_artisan, user)
}

} // verus!

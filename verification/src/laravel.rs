//! Laravel projects: the scheduler entry in the crontab and the queue
//! worker service.
//!
//! The texts are composed here; installing them (running `crontab`, writing
//! the unit file, talking to `systemctl`) is left to the caller.

use crate::errors::Error;
use crate::json::{element_tables, json_document, json_document_lists, json_strings, list_at,
    nested_list, parse, string_at, string_member, StringTable};
use crate::paths::{join, path_joined};
use crate::process::{explain, explained, invoke, invoke_in, is_failure, outcome, require_success,
    Invocation, InvocationView, RunReport};
use crate::sites::{slice_text_of, text_of};
use crate::text::{contains, decimal, decimal_string, has_substring, join as join_texts, joined,
    lines, push_str, push_text, split_lines, strip_end, strip_end_of, strip_start, strip_start_of,
    texts, to_chars, trim, trimmed, CharSet};
use vstd::prelude::*;
use vstd::string::*;

verus! {

/// What is known of the Laravel installation of a project.
#[derive(Debug, PartialEq, Eq)]
pub struct LaravelInfo {
    pub detected: bool,
    pub version: Option<String>,
    pub constraint: Option<String>,
    pub php_version: Option<String>,
    pub has_update: bool,
    pub latest_version: Option<String>,
}

/// Mathematical model of a [`LaravelInfo`].
pub struct LaravelInfoView {
    pub detected: bool,
    pub version: Option<Seq<char>>,
    pub constraint: Option<Seq<char>>,
    pub php_version: Option<Seq<char>>,
    pub has_update: bool,
    pub latest_version: Option<Seq<char>>,
}

impl View for LaravelInfo {
    type V = LaravelInfoView;

    open spec fn view(&self) -> LaravelInfoView {
        LaravelInfoView {
            detected: self.detected,
            version: crate::sites::text_of(self.version),
            constraint: crate::sites::text_of(self.constraint),
            php_version: crate::sites::text_of(self.php_version),
            has_update: self.has_update,
            latest_version: crate::sites::text_of(self.latest_version),
        }
    }
}

// ---------------------------------------------------------------------------
// Scheduler
// ---------------------------------------------------------------------------
pub const CRON_MARK: &'static str = "# ServerMark Scheduler: ";

pub const CRON_OPEN: &'static str = "* * * * * cd ";

pub const CRON_AND: &'static str = " && ";

pub const CRON_RUN: &'static str = " artisan schedule:run >> ";

pub const CRON_LOG: &'static str = "/storage/logs/scheduler.log 2>&1";

/// The comment line that marks the scheduler entry of the project at
/// `site_path` in a crontab.
pub open spec fn cron_identifier(site_path: Seq<char>) -> Seq<char> {
    CRON_MARK@ + site_path
}

/// The crontab line that runs the scheduler of the project at `site_path`
/// every minute with the interpreter `php_path`, and appends what it prints
/// to the scheduler log of the project.
pub open spec fn cron_job(site_path: Seq<char>, php_path: Seq<char>) -> Seq<char> {
    CRON_OPEN@ + site_path + CRON_AND@ + php_path + CRON_RUN@ + site_path + CRON_LOG@
}

/// The comment line that marks the scheduler entry of a project.
pub fn get_cron_identifier(site_path: &str) -> (r: String)
    ensures
        r@ == cron_identifier(site_path@),
{
    CRON_MARK.to_string().concat(site_path)
}

/// The crontab line that runs the scheduler of a project every minute.
pub fn get_cron_job(site_path: &str, php_path: &str) -> (r: String)
    ensures
        r@ == cron_job(site_path@, php_path@),
{
    let mut out = CRON_OPEN.to_string();
    out.append(site_path);
    out.append(CRON_AND);
    out.append(php_path);
    out.append(CRON_RUN);
    out.append(site_path);
    out.append(CRON_LOG);
    out
}

// ---------------------------------------------------------------------------
// Queue worker
// ---------------------------------------------------------------------------
pub const SERVICE_PREFIX: &'static str = "servermark-queue-";

pub const SERVICE_SUFFIX: &'static str = ".service";

pub const UNIT_OPEN: &'static str = "[Unit]\nDescription=Laravel Queue Worker - ";

pub const UNIT_EXEC: &'static str = "\nAfter=network.target\n\n[Service]\nExecStart=";

pub const UNIT_SPACE: &'static str = " ";

pub const UNIT_WORK: &'static str =
    "/artisan queue:work --sleep=3 --tries=3 --max-time=3600\nWorkingDirectory=";

pub const UNIT_CLOSE: &'static str =
    "\nRestart=always\nRestartSec=5\nStandardOutput=null\nStandardError=journal\n\n[Install]\nWantedBy=default.target\n";

/// The character that stands for `c` in a slug: `-` for `/` and `.`, the
/// character itself otherwise.
pub open spec fn slug_char(c: char) -> char {
    if c == '/' || c == '.' {
        '-'
    } else {
        c
    }
}

/// The slug of a path: the path without the slashes it begins with, and
/// with `-` for every `/` and `.` that is left.
pub open spec fn site_slug(site_path: Seq<char>) -> Seq<char> {
    let inner = strip_start(site_path, CharSet::Only('/'));
    Seq::new(inner.len(), |i: int| slug_char(inner[i]))
}

/// The name of the unit that runs the queue worker of a project.
pub open spec fn queue_service_name(site_path: Seq<char>) -> Seq<char> {
    SERVICE_PREFIX@ + site_slug(site_path) + SERVICE_SUFFIX@
}

/// The unit file of the queue worker of the project `site_name` at
/// `site_path`, run with the interpreter `php_path`.
pub open spec fn queue_service(site_path: Seq<char>, site_name: Seq<char>, php_path: Seq<char>)
    -> Seq<char> {
    UNIT_OPEN@ + site_name + UNIT_EXEC@ + php_path + UNIT_SPACE@ + site_path + UNIT_WORK@
        + site_path + UNIT_CLOSE@
}

/// The slug of a path, used to name what belongs to the project there.
pub fn get_site_slug(site_path: &str) -> (r: String)
    ensures
        r@ == site_slug(site_path@),
{
    let inner = strip_start_of(site_path, CharSet::Only('/'));
    let chars = to_chars(inner.as_str());
    let mut out = String::new();
    let mut i: usize = 0;
    while i < chars.len()
        invariant
            i <= chars.len(),
            chars@ == strip_start(site_path@, CharSet::Only('/')),
            out@ == site_slug(site_path@).take(i as int),
        decreases chars.len() - i,
    {
        let c = chars[i];
        if c == '/' || c == '.' {
            out.push('-');
        } else {
            out.push(c);
        }
        assert(out@ =~= site_slug(site_path@).take(i + 1));
        i += 1;
    }
    assert(site_slug(site_path@).take(chars@.len() as int) =~= site_slug(site_path@));
    out
}

/// The name of the unit that runs the queue worker of a project.
pub fn get_queue_service_name(site_path: &str) -> (r: String)
    ensures
        r@ == queue_service_name(site_path@),
{
    let slug = get_site_slug(site_path);
    SERVICE_PREFIX.to_string().concat(slug.as_str()).concat(SERVICE_SUFFIX)
}

/// The unit file of the queue worker of a project.
pub fn generate_queue_service(site_path: &str, site_name: &str, php_path: &str) -> (r: String)
    ensures
        r@ == queue_service(site_path@, site_name@, php_path@),
{
    let mut out = UNIT_OPEN.to_string();
    out.append(site_name);
    out.append(UNIT_EXEC);
    out.append(php_path);
    out.append(UNIT_SPACE);
    out.append(site_path);
    out.append(UNIT_WORK);
    out.append(site_path);
    out.append(UNIT_CLOSE);
    out
}

// ---------------------------------------------------------------------------
// The installed version
// ---------------------------------------------------------------------------
/// What reading the `composer.json` of a project gave.
#[derive(Debug, PartialEq, Eq)]
pub enum ManifestRead {
    /// The project has no `composer.json`.
    Missing,
    /// The file is there and could not be read; holds the reason.
    Unreadable(String),
    /// The file was read and is no manifest; holds the reason.
    Malformed(String),
    /// The constraints that the `require` section gives for the framework
    /// and for PHP.
    Parsed { laravel: Option<String>, php: Option<String> },
}

pub const READ_CONTEXT: &'static str = "Failed to read composer.json";

pub const PARSE_CONTEXT: &'static str = "Failed to parse composer.json";

pub const FRAMEWORK: &'static str = "laravel/framework";

/// The names and versions of a list of locked packages.
pub open spec fn package_views(packages: Seq<(String, String)>) -> Seq<(Seq<char>, Seq<char>)> {
    Seq::new(packages.len(), |i: int| (packages[i].0@, packages[i].1@))
}

/// The version of the first package called `name`.
pub open spec fn locked_version(packages: Seq<(Seq<char>, Seq<char>)>, name: Seq<char>) -> Option<
    Seq<char>,
>
    decreases packages.len(),
{
    if packages.len() == 0 {
        None
    } else {
        match locked_version(packages.drop_last(), name) {
            Some(version) => Some(version),
            None => if packages.last().0 == name {
                Some(packages.last().1)
            } else {
                None
            },
        }
    }
}

/// The installed version of the framework: the version the lock file gives
/// for it, without the `v`s it begins with. None without a lock file or
/// where the lock file does not name the framework.
pub open spec fn installed_version(locked: Option<Seq<(Seq<char>, Seq<char>)>>) -> Option<
    Seq<char>,
> {
    match locked {
        None => None,
        Some(packages) => match locked_version(packages, FRAMEWORK@) {
            None => None,
            Some(version) => Some(strip_start(version, CharSet::Only('v'))),
        },
    }
}

/// The model of an optional list of locked packages.
pub open spec fn locked_view(locked: Option<Vec<(String, String)>>) -> Option<
    Seq<(Seq<char>, Seq<char>)>,
> {
    match locked {
        Some(packages) => Some(package_views(packages@)),
        None => None,
    }
}

fn find_locked(packages: &Vec<(String, String)>, name: &str) -> (r: Option<usize>)
    ensures
        match r {
            Some(i) => i < packages.len() && locked_version(package_views(packages@), name@)
                == Some(packages@[i as int].1@),
            None => locked_version(package_views(packages@), name@) is None,
        },
{
    let ghost all = package_views(packages@);
    let mut i: usize = 0;
    while i < packages.len()
        invariant
            i <= packages.len(),
            all == package_views(packages@),
            locked_version(all.take(i as int), name@) is None,
        decreases packages.len() - i,
    {
        proof {
            assert(all.take(i + 1).drop_last() =~= all.take(i as int));
            assert(all.take(i + 1).last() == (packages@[i as int].0@, packages@[i as int].1@));
        }
        if *packages[i].0.as_str() == *name {
            proof {
                lemma_locked_prefix(all, name@, i + 1);
            }
            return Some(i);
        }
        i += 1;
    }
    assert(all.take(packages@.len() as int) =~= all);
    None
}

/// A version found among the first packages is the version found among all.
pub proof fn lemma_locked_prefix(packages: Seq<(Seq<char>, Seq<char>)>, name: Seq<char>, n: int)
    requires
        0 <= n <= packages.len(),
        locked_version(packages.take(n), name) is Some,
    ensures
        locked_version(packages, name) == locked_version(packages.take(n), name),
    decreases packages.len() - n,
{
    if n < packages.len() {
        assert(packages.take(n + 1).drop_last() =~= packages.take(n));
        lemma_locked_prefix(packages, name, n + 1);
    } else {
        assert(packages.take(n) =~= packages);
    }
}

/// What is known of the Laravel installation of a project, from its
/// manifest and its lock file.
///
/// A project without a manifest, or whose manifest does not require the
/// framework, is not a Laravel project; that is no failure. A manifest that
/// could not be read or understood is one. For a Laravel project the
/// installed version comes from the lock file; whether an update exists is
/// not decided here.
pub fn detect_laravel_version(manifest: ManifestRead, locked: &Option<Vec<(String, String)>>) -> (r:
    Result<LaravelInfo, Error>)
    ensures
        match manifest {
            ManifestRead::Missing => r matches Ok(info) && info@ == (LaravelInfoView {
                detected: false,
                version: None,
                constraint: None,
                php_version: None,
                has_update: false,
                latest_version: None,
            }),
            ManifestRead::Unreadable(cause) => r matches Err(Error::Persistence(m)) && m@
                == explained(READ_CONTEXT@, cause@),
            ManifestRead::Malformed(cause) => r matches Err(Error::Persistence(m)) && m@
                == explained(PARSE_CONTEXT@, cause@),
            ManifestRead::Parsed { laravel, php } => r matches Ok(info) && info@
                == (LaravelInfoView {
                detected: laravel is Some,
                version: if laravel is Some {
                    installed_version(locked_view(*locked))
                } else {
                    None
                },
                constraint: text_of(laravel),
                php_version: text_of(php),
                has_update: false,
                latest_version: None,
            }),
        },
{
    match manifest {
        ManifestRead::Missing => Ok(
            LaravelInfo {
                detected: false,
                version: None,
                constraint: None,
                php_version: None,
                has_update: false,
                latest_version: None,
            },
        ),
        ManifestRead::Unreadable(cause) => Err(
            Error::Persistence(explain(READ_CONTEXT, cause.as_str())),
        ),
        ManifestRead::Malformed(cause) => Err(
            Error::Persistence(explain(PARSE_CONTEXT, cause.as_str())),
        ),
        ManifestRead::Parsed { laravel, php } => {
            let detected = laravel.is_some();
            let version = if detected {
                match locked {
                    None => None,
                    Some(packages) => match find_locked(packages, FRAMEWORK) {
                        None => None,
                        Some(i) => Some(strip_start_of(packages[i].1.as_str(), CharSet::Only('v'))),
                    },
                }
            } else {
                None
            };
            Ok(
                LaravelInfo {
                    detected,
                    version,
                    constraint: laravel,
                    php_version: php,
                    has_update: false,
                    latest_version: None,
                },
            )
        },
    }
}

// ---------------------------------------------------------------------------
// Composer
// ---------------------------------------------------------------------------
pub const COMPOSER: &'static str = "composer";

pub const ARG_REQUIRE: &'static str = "require";

pub const ARG_WITH_DEPENDENCIES: &'static str = "--update-with-dependencies";

pub const ARG_CREATE_PROJECT: &'static str = "create-project";

pub const ARG_PREFER_DIST: &'static str = "--prefer-dist";

pub const SKELETON: &'static str = "laravel/laravel";

pub const FRAMEWORK_AT: &'static str = "laravel/framework:^";

pub const CARET: &'static str = "^";

pub const COMPOSER_CONTEXT: &'static str = "Failed to run composer";

pub const CREATE_CONTEXT: &'static str = "Failed to create Laravel project";

pub const CREATED_OPEN: &'static str = "Laravel project '";

pub const CREATED_CLOSE: &'static str = "' created successfully";

/// The package to require for an upgrade: the framework at the major
/// version asked for, or the framework at whatever version fits.
pub open spec fn upgrade_target(target_version: Option<Seq<char>>) -> Seq<char> {
    match target_version {
        Some(version) => FRAMEWORK_AT@ + version,
        None => FRAMEWORK@,
    }
}

/// The command that upgrades the framework of the project at
/// `project_path`, together with what depends on it.
pub fn upgrade_command(project_path: &str, target_version: Option<&str>) -> (r: Invocation)
    ensures
        r@ == (InvocationView {
            program: COMPOSER@,
            args: seq![
                ARG_REQUIRE@,
                upgrade_target(slice_text_of(target_version)),
                ARG_WITH_DEPENDENCIES@,
            ],
            dir: Some(project_path@),
        }),
{
    let target = match target_version {
        Some(version) => FRAMEWORK_AT.to_string().concat(version),
        None => FRAMEWORK.to_string(),
    };
    let mut args: Vec<String> = Vec::new();
    push_str(&mut args, ARG_REQUIRE);
    push_text(&mut args, target);
    push_str(&mut args, ARG_WITH_DEPENDENCIES);
    assert(texts(args@) =~= seq![
        ARG_REQUIRE@,
        upgrade_target(slice_text_of(target_version)),
        ARG_WITH_DEPENDENCIES@,
    ]);
    invoke_in(project_path, COMPOSER, args)
}

/// What an upgrade gave: the output of Composer where it succeeded, the
/// failure otherwise.
pub fn upgrade_laravel(report: RunReport) -> (r: Result<String, Error>)
    ensures
        crate::process::is_outcome(r, outcome(report, COMPOSER_CONTEXT@, false)),
{
    require_success(report, COMPOSER_CONTEXT, false)
}

/// The arguments that create a Laravel project called `project_name`, at
/// the major version asked for where one is.
pub open spec fn create_project_args(project_name: Seq<char>, version: Option<Seq<char>>) -> Seq<
    Seq<char>,
> {
    match version {
        Some(v) => seq![ARG_CREATE_PROJECT@, SKELETON@, project_name, CARET@ + v, ARG_PREFER_DIST@],
        None => seq![ARG_CREATE_PROJECT@, SKELETON@, project_name, ARG_PREFER_DIST@],
    }
}

/// The command that creates a Laravel project called `project_name` below
/// `project_path`.
pub fn create_project_command(project_path: &str, project_name: &str, version: Option<&str>) -> (r:
    Invocation)
    ensures
        r@ == (InvocationView {
            program: COMPOSER@,
            args: create_project_args(project_name@, slice_text_of(version)),
            dir: Some(project_path@),
        }),
{
    let mut args: Vec<String> = Vec::new();
    push_str(&mut args, ARG_CREATE_PROJECT);
    push_str(&mut args, SKELETON);
    push_str(&mut args, project_name);
    match version {
        Some(v) => {
            push_text(&mut args, CARET.to_string().concat(v));
        },
        None => {},
    }
    push_str(&mut args, ARG_PREFER_DIST);
    assert(texts(args@) =~= create_project_args(project_name@, slice_text_of(version)));
    invoke_in(project_path, COMPOSER, args)
}

/// What creating a project gave: a sentence that names the project where
/// Composer succeeded, the failure otherwise.
pub fn create_laravel_project(report: RunReport, project_name: &str) -> (r: Result<String, Error>)
    ensures
        match outcome(report, CREATE_CONTEXT@, false) {
            Ok(_) => r matches Ok(text) && text@ == CREATED_OPEN@ + project_name@ + CREATED_CLOSE@,
            Err(failure) => r matches Err(e) && is_failure(e, failure),
        },
{
    match require_success(report, CREATE_CONTEXT, false) {
        Ok(_) => Ok(CREATED_OPEN.to_string().concat(project_name).concat(CREATED_CLOSE)),
        Err(e) => Err(e),
    }
}

// ---------------------------------------------------------------------------
// Scheduler: switching it on and off
// ---------------------------------------------------------------------------
pub const CRONTAB: &'static str = "crontab";

pub const ARG_LIST: &'static str = "-l";

pub const ARG_FROM_INPUT: &'static str = "-";

pub const ARG_DELETE: &'static str = "-r";

pub const PHP_BINARY: &'static str = "/usr/bin/php";

pub const NEWLINE: &'static str = "\n";

pub const MARK_WORDS: &'static str = "ServerMark Scheduler: ";

pub const JOB_OPEN: &'static str = "cd ";

pub const JOB_AND: &'static str = " &&";

pub const PHP_MISSING_OPEN: &'static str = "PHP ";

pub const PHP_MISSING_AT: &'static str = " not found at ";

pub const CRONTAB_READ_CONTEXT: &'static str = "Failed to read crontab";

pub const CRONTAB_UPDATE_FAILED: &'static str = "Failed to update crontab";

/// The command that prints the crontab of the user.
pub fn crontab_list_command() -> (r: Invocation)
    ensures
        r@ == (InvocationView { program: CRONTAB@, args: seq![ARG_LIST@], dir: None }),
{
    let mut args: Vec<String> = Vec::new();
    push_str(&mut args, ARG_LIST);
    assert(texts(args@) =~= seq![ARG_LIST@]);
    invoke(CRONTAB, args)
}

/// The command that installs the crontab it is given on its input.
pub fn crontab_install_command() -> (r: Invocation)
    ensures
        r@ == (InvocationView { program: CRONTAB@, args: seq![ARG_FROM_INPUT@], dir: None }),
{
    let mut args: Vec<String> = Vec::new();
    push_str(&mut args, ARG_FROM_INPUT);
    assert(texts(args@) =~= seq![ARG_FROM_INPUT@]);
    invoke(CRONTAB, args)
}

/// The command that deletes the crontab of the user.
pub fn crontab_delete_command() -> (r: Invocation)
    ensures
        r@ == (InvocationView { program: CRONTAB@, args: seq![ARG_DELETE@], dir: None }),
{
    let mut args: Vec<String> = Vec::new();
    push_str(&mut args, ARG_DELETE);
    assert(texts(args@) =~= seq![ARG_DELETE@]);
    invoke(CRONTAB, args)
}

/// The interpreter of the PHP version `php_version`.
pub open spec fn php_binary(php_version: Seq<char>) -> Seq<char> {
    PHP_BINARY@ + php_version
}

/// The interpreter of the PHP version `php_version`.
pub fn php_binary_path(php_version: &str) -> (r: String)
    ensures
        r@ == php_binary(php_version@),
{
    PHP_BINARY.to_string().concat(php_version)
}

/// The crontab that a listing shows: what the command printed where it
/// succeeded, nothing otherwise (a user without crontab has an empty one).
pub open spec fn current_crontab(listing: RunReport) -> Seq<char> {
    match listing {
        RunReport::Finished { success, stdout, .. } => if success {
            stdout@
        } else {
            Seq::empty()
        },
        RunReport::NotStarted(_) => Seq::empty(),
    }
}

/// Whether the crontab that a listing shows holds the scheduler entry of
/// the project at `site_path`.
pub open spec fn scheduler_enabled(site_path: Seq<char>, listing: RunReport) -> bool {
    listing.succeeded() && contains(current_crontab(listing), cron_identifier(site_path))
}

/// Whether the scheduler of the project at `site_path` is switched on,
/// from the listing of the crontab. A crontab that cannot be listed holds
/// no entry.
pub fn get_scheduler_status(site_path: &str, listing: &RunReport) -> (r: Result<bool, Error>)
    ensures
        r == Ok::<bool, Error>(scheduler_enabled(site_path@, *listing)),
{
    match listing {
        RunReport::Finished { success, stdout, .. } => {
            if *success {
                let identifier = get_cron_identifier(site_path);
                let crontab = to_chars(stdout.as_str());
                let needle = to_chars(identifier.as_str());
                Ok(has_substring(&crontab, &needle))
            } else {
                Ok(false)
            }
        },
        RunReport::NotStarted(_) => Ok(false),
    }
}

/// The crontab with the scheduler entry of a project added at its end:
/// white space at the end of the old crontab is dropped, then come the
/// marker line and the job line.
pub open spec fn crontab_with_entry(current: Seq<char>, site_path: Seq<char>, php_path: Seq<char>)
    -> Seq<char> {
    if current.len() == 0 {
        cron_identifier(site_path) + NEWLINE@ + cron_job(site_path, php_path) + NEWLINE@
    } else {
        strip_end(current, CharSet::Whitespace) + NEWLINE@ + cron_identifier(site_path) + NEWLINE@
            + cron_job(site_path, php_path) + NEWLINE@
    }
}

/// The message for an interpreter that is not installed.
pub open spec fn php_missing(php_version: Seq<char>) -> Seq<char> {
    PHP_MISSING_OPEN@ + php_version + PHP_MISSING_AT@ + php_binary(php_version)
}

/// Decides how to switch the scheduler of the project at `site_path` on.
///
/// A directory without `artisan` is refused as no Laravel project. Where
/// the crontab already holds the entry nothing is to be done (`None`).
/// Where the interpreter of `php_version` is not installed the request is
/// refused with a message that names it. Otherwise the result is the whole
/// crontab to install: the old one with the entry of the project at its
/// end.
pub fn enable_scheduler(
    site_path: &str,
    php_version: &str,
    has_artisan: bool,
    php_installed: bool,
    listing: &RunReport,
) -> (r: Result<Option<String>, Error>)
    ensures
        !has_artisan ==> r == Err::<Option<String>, Error>(Error::NotLaravelProject),
        has_artisan && scheduler_enabled(site_path@, *listing) ==> r == Ok::<
            Option<String>,
            Error,
        >(None),
        has_artisan && !scheduler_enabled(site_path@, *listing) && !php_installed ==> (r matches Err(
            Error::Unsupported(m),
        ) && m@ == php_missing(php_version@)),
        has_artisan && !scheduler_enabled(site_path@, *listing) && php_installed ==> (r matches Ok(
            Some(crontab),
        ) && crontab@ == crontab_with_entry(
            current_crontab(*listing),
            site_path@,
            php_binary(php_version@),
        )),
{
    if !has_artisan {
        return Err(Error::NotLaravelProject);
    }
    let enabled = match get_scheduler_status(site_path, listing) {
        Ok(b) => b,
        Err(_) => false,
    };
    if enabled {
        return Ok(None);
    }
    let php_path = php_binary_path(php_version);
    if !php_installed {
        let message = PHP_MISSING_OPEN.to_string().concat(php_version).concat(PHP_MISSING_AT).concat(
            php_path.as_str(),
        );
        return Err(Error::Unsupported(message));
    }
    let identifier = get_cron_identifier(site_path);
    let job = get_cron_job(site_path, php_path.as_str());
    let current = match listing {
        RunReport::Finished { success, stdout, .. } => if *success {
            stdout.clone()
        } else {
            String::new()
        },
        RunReport::NotStarted(_) => String::new(),
    };
    let mut out = if current.as_str().unicode_len() == 0 {
        identifier
    } else {
        strip_end_of(current.as_str(), CharSet::Whitespace).concat(NEWLINE).concat(
            identifier.as_str(),
        )
    };
    out.append(NEWLINE);
    out.append(job.as_str());
    out.append(NEWLINE);
    Ok(Some(out))
}

/// What became of installing a crontab: nothing to tell where the command
/// succeeded, `CommandFailed` otherwise.
pub fn crontab_result(success: bool) -> (r: Result<(), Error>)
    ensures
        success ==> r is Ok,
        !success ==> (r matches Err(Error::CommandFailed(m)) && m@ == CRONTAB_UPDATE_FAILED@),
{
    if success {
        Ok(())
    } else {
        Err(Error::CommandFailed(CRONTAB_UPDATE_FAILED.to_string()))
    }
}

/// What is to be done with the crontab to switch a scheduler off.
#[derive(Debug, PartialEq, Eq)]
pub enum CrontabChange {
    /// Leave the crontab alone.
    Keep,
    /// Delete the crontab: nothing would be left in it.
    Remove,
    /// Install this crontab in place of the old one.
    Write(String),
}

/// Whether a line of a crontab belongs to the scheduler entry of the
/// project at `site_path`: it holds the marker of the project, or changes
/// into the directory of the project before running something.
pub open spec fn is_scheduler_line(line: Seq<char>, site_path: Seq<char>) -> bool {
    contains(line, MARK_WORDS@ + site_path) || contains(line, JOB_OPEN@ + site_path + JOB_AND@)
}

/// The lines that do not belong to the scheduler entry of the project.
pub open spec fn other_lines(all: Seq<Seq<char>>, site_path: Seq<char>) -> Seq<Seq<char>>
    decreases all.len(),
{
    if all.len() == 0 {
        Seq::empty()
    } else if is_scheduler_line(all.last(), site_path) {
        other_lines(all.drop_last(), site_path)
    } else {
        other_lines(all.drop_last(), site_path).push(all.last())
    }
}

/// The crontab without the scheduler entry of the project: the lines that
/// are left, with a line feed between each two of them.
pub open spec fn crontab_without_entry(current: Seq<char>, site_path: Seq<char>) -> Seq<char> {
    joined(other_lines(lines(current), site_path), NEWLINE@)
}

/// What is to be done to switch the scheduler of a project off.
pub open spec fn unschedule_plan(site_path: Seq<char>, listing: RunReport) -> Option<Seq<char>> {
    let left = crontab_without_entry(current_crontab(listing), site_path);
    if trimmed(left).len() == 0 {
        None
    } else {
        Some(left + NEWLINE@)
    }
}

/// Decides how to switch the scheduler of the project at `site_path` off.
///
/// A listing that could not be started is a failure. Where the listing
/// failed the user has no crontab and nothing is to be done. Otherwise the
/// lines of the entry are dropped; the crontab is deleted where only white
/// space would be left, and replaced by the lines that are left otherwise.
pub fn disable_scheduler(site_path: &str, listing: &RunReport) -> (r: Result<CrontabChange, Error>)
    ensures
        match *listing {
            RunReport::NotStarted(cause) => r matches Err(Error::CommandNotStarted(m)) && m@
                == explained(CRONTAB_READ_CONTEXT@, cause@),
            RunReport::Finished { success, .. } => if !success {
                r == Ok::<CrontabChange, Error>(CrontabChange::Keep)
            } else {
                match unschedule_plan(site_path@, *listing) {
                    None => r == Ok::<CrontabChange, Error>(CrontabChange::Remove),
                    Some(crontab) => r matches Ok(CrontabChange::Write(text)) && text@ == crontab,
                }
            },
        },
{
    match listing {
        RunReport::NotStarted(cause) => Err(
            Error::CommandNotStarted(explain(CRONTAB_READ_CONTEXT, cause.as_str())),
        ),
        RunReport::Finished { success, stdout, .. } => {
            if !*success {
                return Ok(CrontabChange::Keep);
            }
            let mark = to_chars(MARK_WORDS.to_string().concat(site_path).as_str());
            let job = to_chars(JOB_OPEN.to_string().concat(site_path).concat(JOB_AND).as_str());
            let all = split_lines(stdout.as_str());
            let ghost every = texts(all@);
            let mut kept: Vec<String> = Vec::new();
            let mut i: usize = 0;
            while i < all.len()
                invariant
                    i <= all.len(),
                    every == texts(all@),
                    mark@ == MARK_WORDS@ + site_path@,
                    job@ == JOB_OPEN@ + site_path@ + JOB_AND@,
                    texts(kept@) == other_lines(every.take(i as int), site_path@),
                decreases all.len() - i,
            {
                proof {
                    assert(every.take(i + 1).drop_last() =~= every.take(i as int));
                    assert(every.take(i + 1).last() == all@[i as int]@);
                }
                let line = to_chars(all[i].as_str());
                if !has_substring(&line, &mark) && !has_substring(&line, &job) {
                    push_text(&mut kept, all[i].clone());
                }
                i += 1;
            }
            assert(every.take(all@.len() as int) =~= every);
            let left = join_texts(&kept, NEWLINE);
            let bare = trim(left.as_str());
            if bare.as_str().unicode_len() == 0 {
                Ok(CrontabChange::Remove)
            } else {
                Ok(CrontabChange::Write(left.concat(NEWLINE)))
            }
        },
    }
}

// ---------------------------------------------------------------------------
// Queue worker: starting and stopping it
// ---------------------------------------------------------------------------
pub const SYSTEMCTL: &'static str = "systemctl";

pub const ARG_USER: &'static str = "--user";

pub const ARG_IS_ACTIVE: &'static str = "is-active";

pub const ARG_DAEMON_RELOAD: &'static str = "daemon-reload";

pub const ARG_ENABLE: &'static str = "enable";

pub const ARG_NOW: &'static str = "--now";

pub const ARG_STOP: &'static str = "stop";

pub const ARG_DISABLE: &'static str = "disable";

pub const ACTIVE: &'static str = "active";

pub const UNIT_DIR: &'static str = ".config/systemd/user";

pub const HOME_MISSING: &'static str = "HOME not set";

pub const WORKER_CONTEXT: &'static str = "Failed to start queue worker";

pub const SERVICE_CONTEXT: &'static str = "Failed to start service";

/// The directory that holds the units of the user whose home directory is
/// `home`.
pub fn get_systemd_user_dir(home: Option<&str>) -> (r: Result<String, Error>)
    ensures
        match home {
            Some(dir) => r matches Ok(path) && path@ == path_joined(dir@, UNIT_DIR@),
            None => r matches Err(Error::Unsupported(m)) && m@ == HOME_MISSING@,
        },
{
    match home {
        Some(dir) => Ok(join(dir, UNIT_DIR)),
        None => Err(Error::Unsupported(HOME_MISSING.to_string())),
    }
}

/// The command that acts on a unit of the user with one word of
/// `systemctl`.
pub fn user_unit_command(action: &str, unit: &str) -> (r: Invocation)
    ensures
        r@ == (InvocationView {
            program: SYSTEMCTL@,
            args: seq![ARG_USER@, action@, unit@],
            dir: None,
        }),
{
    let mut args: Vec<String> = Vec::new();
    push_str(&mut args, ARG_USER);
    push_str(&mut args, action);
    push_str(&mut args, unit);
    assert(texts(args@) =~= seq![ARG_USER@, action@, unit@]);
    invoke(SYSTEMCTL, args)
}

/// The command that tells whether the queue worker of a project runs.
pub fn queue_status_command(site_path: &str) -> (r: Invocation)
    ensures
        r@ == (InvocationView {
            program: SYSTEMCTL@,
            args: seq![ARG_USER@, ARG_IS_ACTIVE@, queue_service_name(site_path@)],
            dir: None,
        }),
{
    let unit = get_queue_service_name(site_path);
    user_unit_command(ARG_IS_ACTIVE, unit.as_str())
}

/// The command that makes the service manager of the user read its units
/// again.
pub fn daemon_reload_command() -> (r: Invocation)
    ensures
        r@ == (InvocationView {
            program: SYSTEMCTL@,
            args: seq![ARG_USER@, ARG_DAEMON_RELOAD@],
            dir: None,
        }),
{
    let mut args: Vec<String> = Vec::new();
    push_str(&mut args, ARG_USER);
    push_str(&mut args, ARG_DAEMON_RELOAD);
    assert(texts(args@) =~= seq![ARG_USER@, ARG_DAEMON_RELOAD@]);
    invoke(SYSTEMCTL, args)
}

/// The command that enables the queue worker of a project and starts it at
/// once.
pub fn enable_worker_command(site_path: &str) -> (r: Invocation)
    ensures
        r@ == (InvocationView {
            program: SYSTEMCTL@,
            args: seq![ARG_USER@, ARG_ENABLE@, ARG_NOW@, queue_service_name(site_path@)],
            dir: None,
        }),
{
    let unit = get_queue_service_name(site_path);
    let mut args: Vec<String> = Vec::new();
    push_str(&mut args, ARG_USER);
    push_str(&mut args, ARG_ENABLE);
    push_str(&mut args, ARG_NOW);
    push_text(&mut args, unit);
    assert(texts(args@) =~= seq![
        ARG_USER@,
        ARG_ENABLE@,
        ARG_NOW@,
        queue_service_name(site_path@),
    ]);
    invoke(SYSTEMCTL, args)
}

/// The command that stops the queue worker of a project.
pub fn stop_worker_command(site_path: &str) -> (r: Invocation)
    ensures
        r@ == (InvocationView {
            program: SYSTEMCTL@,
            args: seq![ARG_USER@, ARG_STOP@, queue_service_name(site_path@)],
            dir: None,
        }),
{
    let unit = get_queue_service_name(site_path);
    user_unit_command(ARG_STOP, unit.as_str())
}

/// The command that disables the queue worker of a project.
pub fn disable_worker_command(site_path: &str) -> (r: Invocation)
    ensures
        r@ == (InvocationView {
            program: SYSTEMCTL@,
            args: seq![ARG_USER@, ARG_DISABLE@, queue_service_name(site_path@)],
            dir: None,
        }),
{
    let unit = get_queue_service_name(site_path);
    user_unit_command(ARG_DISABLE, unit.as_str())
}

/// Whether a report of `is-active` says that the unit runs: it printed
/// `active`, white space aside.
pub open spec fn reports_active(report: RunReport) -> bool {
    match report {
        RunReport::Finished { stdout, .. } => trimmed(stdout@) == ACTIVE@,
        RunReport::NotStarted(_) => false,
    }
}

/// Whether the queue worker of a project runs, from the report of the
/// status command. A command that could not be started means that it does
/// not.
pub fn get_queue_status(report: &RunReport) -> (r: Result<bool, Error>)
    ensures
        r == Ok::<bool, Error>(reports_active(*report)),
{
    match report {
        RunReport::Finished { stdout, .. } => {
            let state = trim(stdout.as_str());
            Ok(*state.as_str() == *ACTIVE)
        },
        RunReport::NotStarted(_) => Ok(false),
    }
}

/// The unit to install for the queue worker of a project.
#[derive(Debug, PartialEq, Eq)]
pub struct WorkerUnit {
    /// The directory that holds the units of the user; to be created where
    /// it is missing.
    pub directory: String,
    /// The name of the unit.
    pub name: String,
    /// The file of the unit.
    pub path: String,
    /// The text of the unit.
    pub text: String,
}

/// Mathematical model of a [`WorkerUnit`].
pub struct WorkerUnitView {
    pub directory: Seq<char>,
    pub name: Seq<char>,
    pub path: Seq<char>,
    pub text: Seq<char>,
}

impl View for WorkerUnit {
    type V = WorkerUnitView;

    open spec fn view(&self) -> WorkerUnitView {
        WorkerUnitView {
            directory: self.directory@,
            name: self.name@,
            path: self.path@,
            text: self.text@,
        }
    }
}

/// The unit of the queue worker of a project, for a user whose home
/// directory is `home`.
pub open spec fn worker_unit(
    site_path: Seq<char>,
    php_version: Seq<char>,
    site_name: Seq<char>,
    home: Seq<char>,
) -> WorkerUnitView {
    let directory = path_joined(home, UNIT_DIR@);
    WorkerUnitView {
        directory: directory,
        name: queue_service_name(site_path),
        path: path_joined(directory, queue_service_name(site_path)),
        text: queue_service(site_path, site_name, php_binary(php_version)),
    }
}

/// Decides how to start the queue worker of the project at `site_path`.
///
/// A directory without `artisan` is refused as no Laravel project. Where
/// the worker already runs nothing is to be done (`None`). Where the
/// interpreter of `php_version` is not installed, or the user has no home
/// directory, the request is refused. Otherwise the result is the unit to
/// write; after that the units are to be read again and the unit enabled
/// and started.
pub fn start_queue_worker(
    site_path: &str,
    php_version: &str,
    site_name: &str,
    has_artisan: bool,
    running: bool,
    php_installed: bool,
    home: Option<&str>,
) -> (r: Result<Option<WorkerUnit>, Error>)
    ensures
        !has_artisan ==> r == Err::<Option<WorkerUnit>, Error>(Error::NotLaravelProject),
        has_artisan && running ==> r == Ok::<Option<WorkerUnit>, Error>(None),
        has_artisan && !running && !php_installed ==> (r matches Err(Error::Unsupported(m)) && m@
            == php_missing(php_version@)),
        has_artisan && !running && php_installed && home is None ==> (r matches Err(
            Error::Unsupported(m),
        ) && m@ == HOME_MISSING@),
        has_artisan && !running && php_installed && home is Some ==> (r matches Ok(Some(unit))
            && unit@ == worker_unit(site_path@, php_version@, site_name@, home->0@)),
{
    if !has_artisan {
        return Err(Error::NotLaravelProject);
    }
    if running {
        return Ok(None);
    }
    let php_path = php_binary_path(php_version);
    if !php_installed {
        let message = PHP_MISSING_OPEN.to_string().concat(php_version).concat(PHP_MISSING_AT).concat(
            php_path.as_str(),
        );
        return Err(Error::Unsupported(message));
    }
    let directory = match get_systemd_user_dir(home) {
        Ok(dir) => dir,
        Err(e) => {
            return Err(e);
        },
    };
    let name = get_queue_service_name(site_path);
    let path = join(directory.as_str(), name.as_str());
    let text = generate_queue_service(site_path, site_name, php_path.as_str());
    Ok(Some(WorkerUnit { directory, name, path, text }))
}

/// What became of enabling and starting the worker: nothing to tell where
/// the command succeeded; otherwise the failure, with the error stream
/// under a heading where the command ran.
pub fn queue_worker_result(report: RunReport) -> (r: Result<(), Error>)
    ensures
        match report {
            RunReport::NotStarted(cause) => r matches Err(Error::CommandNotStarted(m)) && m@
                == explained(SERVICE_CONTEXT@, cause@),
            RunReport::Finished { success, stderr, .. } => if success {
                r is Ok
            } else {
                r matches Err(Error::CommandFailed(m)) && m@ == explained(
                    WORKER_CONTEXT@,
                    stderr@,
                )
            },
        },
{
    match report {
        RunReport::NotStarted(cause) => Err(
            Error::CommandNotStarted(explain(SERVICE_CONTEXT, cause.as_str())),
        ),
        RunReport::Finished { success, stdout: _, stderr } => if success {
            Ok(())
        } else {
            Err(Error::CommandFailed(explain(WORKER_CONTEXT, stderr.as_str())))
        },
    }
}

/// The file of the unit of the queue worker of a project, to be deleted
/// when the worker is stopped for good.
pub fn stop_queue_worker(site_path: &str, home: Option<&str>) -> (r: Result<String, Error>)
    ensures
        match home {
            Some(dir) => r matches Ok(path) && path@ == path_joined(
                path_joined(dir@, UNIT_DIR@),
                queue_service_name(site_path@),
            ),
            None => r matches Err(Error::Unsupported(m)) && m@ == HOME_MISSING@,
        },
{
    let name = get_queue_service_name(site_path);
    match get_systemd_user_dir(home) {
        Ok(directory) => Ok(join(directory.as_str(), name.as_str())),
        Err(e) => Err(e),
    }
}

// ---------------------------------------------------------------------------
// Logs
// ---------------------------------------------------------------------------
pub const SCHEDULER_LOG: &'static str = "storage/logs/scheduler.log";

pub const TAIL: &'static str = "tail";

pub const JOURNALCTL: &'static str = "journalctl";

pub const ARG_COUNT: &'static str = "-n";

pub const ARG_UNIT: &'static str = "-u";

pub const ARG_NO_PAGER: &'static str = "--no-pager";

pub const DEFAULT_LINES: u32 = 100;

pub const NO_ENTRIES: &'static str = "No entries";

pub const NO_SCHEDULER_LOG: &'static str =
    "No scheduler logs yet. The scheduler will create logs after its first run.";

pub const EMPTY_SCHEDULER_LOG: &'static str = "Scheduler log file is empty.";

pub const SCHEDULER_LOG_FAILED: &'static str = "Failed to read scheduler logs";

pub const NO_QUEUE_LOG: &'static str =
    "No queue worker logs yet. Start the queue worker to see logs.";

pub const QUEUE_LOG_UNAVAILABLE: &'static str = "No queue worker logs available.";

pub const QUEUE_LOG_FAILED: &'static str = "Failed to read queue logs";

/// How many lines of a log to show: as many as asked for, 100 where nothing
/// was asked.
pub open spec fn line_count(lines: Option<u32>) -> nat {
    match lines {
        Some(n) => n as nat,
        None => DEFAULT_LINES as nat,
    }
}

/// The file that the scheduler of a project writes its output to.
pub fn scheduler_log_path(site_path: &str) -> (r: String)
    ensures
        r@ == path_joined(site_path@, SCHEDULER_LOG@),
{
    join(site_path, SCHEDULER_LOG)
}

/// The file to empty so that the scheduler log of a project is cleared:
/// the log, where `exists` says that there is one; nothing otherwise.
pub fn clear_scheduler_logs(site_path: &str, exists: bool) -> (r: Option<String>)
    ensures
        text_of(r) == (if exists {
            Some(path_joined(site_path@, SCHEDULER_LOG@))
        } else {
            None
        }),
{
    if exists {
        Some(scheduler_log_path(site_path))
    } else {
        None
    }
}

/// The command that shows the last lines of the scheduler log of a
/// project.
pub fn scheduler_logs_command(site_path: &str, lines: Option<u32>) -> (r: Invocation)
    ensures
        r@ == (InvocationView {
            program: TAIL@,
            args: seq![
                ARG_COUNT@,
                decimal(line_count(lines)),
                path_joined(site_path@, SCHEDULER_LOG@),
            ],
            dir: None,
        }),
{
    let count = match lines {
        Some(n) => n,
        None => DEFAULT_LINES,
    };
    let mut args: Vec<String> = Vec::new();
    push_str(&mut args, ARG_COUNT);
    push_text(&mut args, decimal_string(count as u64));
    push_text(&mut args, scheduler_log_path(site_path));
    assert(texts(args@) =~= seq![
        ARG_COUNT@,
        decimal(line_count(lines)),
        path_joined(site_path@, SCHEDULER_LOG@),
    ]);
    invoke(TAIL, args)
}

/// The scheduler log to show, where the project has none yet.
pub fn missing_scheduler_log() -> (r: String)
    ensures
        r@ == NO_SCHEDULER_LOG@,
{
    NO_SCHEDULER_LOG.to_string()
}

/// The scheduler log to show, from the report of the command that read
/// it: the lines it printed, or a sentence saying that the log is empty
/// where it printed nothing but white space. A command that failed, or that
/// could not be started, is a failure.
pub fn get_scheduler_logs(report: RunReport) -> (r: Result<String, Error>)
    ensures
        match report {
            RunReport::NotStarted(cause) => r matches Err(Error::CommandNotStarted(m)) && m@
                == explained(SCHEDULER_LOG_FAILED@, cause@),
            RunReport::Finished { success, stdout, .. } => if !success {
                r matches Err(Error::CommandFailed(m)) && m@ == SCHEDULER_LOG_FAILED@
            } else if trimmed(stdout@).len() == 0 {
                r matches Ok(text) && text@ == EMPTY_SCHEDULER_LOG@
            } else {
                r matches Ok(text) && text@ == stdout@
            },
        },
{
    match report {
        RunReport::NotStarted(cause) => Err(
            Error::CommandNotStarted(explain(SCHEDULER_LOG_FAILED, cause.as_str())),
        ),
        RunReport::Finished { success, stdout, stderr: _ } => {
            if !success {
                Err(Error::CommandFailed(SCHEDULER_LOG_FAILED.to_string()))
            } else if trim(stdout.as_str()).as_str().unicode_len() == 0 {
                Ok(EMPTY_SCHEDULER_LOG.to_string())
            } else {
                Ok(stdout)
            }
        },
    }
}

/// The command that shows the last lines the queue worker of a project
/// wrote to the journal.
pub fn queue_logs_command(site_path: &str, lines: Option<u32>) -> (r: Invocation)
    ensures
        r@ == (InvocationView {
            program: JOURNALCTL@,
            args: seq![
                ARG_USER@,
                ARG_UNIT@,
                queue_service_name(site_path@),
                ARG_COUNT@,
                decimal(line_count(lines)),
                ARG_NO_PAGER@,
            ],
            dir: None,
        }),
{
    let count = match lines {
        Some(n) => n,
        None => DEFAULT_LINES,
    };
    let mut args: Vec<String> = Vec::new();
    push_str(&mut args, ARG_USER);
    push_str(&mut args, ARG_UNIT);
    push_text(&mut args, get_queue_service_name(site_path));
    push_str(&mut args, ARG_COUNT);
    push_text(&mut args, decimal_string(count as u64));
    push_str(&mut args, ARG_NO_PAGER);
    assert(texts(args@) =~= seq![
        ARG_USER@,
        ARG_UNIT@,
        queue_service_name(site_path@),
        ARG_COUNT@,
        decimal(line_count(lines)),
        ARG_NO_PAGER@,
    ]);
    invoke(JOURNALCTL, args)
}

/// The log of the queue worker to show, from the report of the command
/// that read the journal: the lines it printed; a sentence saying that
/// there are none yet where it printed only white space or says `No
/// entries`; a sentence saying that none are available where it failed.
/// Only a command that could not be started is a failure.
pub fn get_queue_logs(report: RunReport) -> (r: Result<String, Error>)
    ensures
        match report {
            RunReport::NotStarted(cause) => r matches Err(Error::CommandNotStarted(m)) && m@
                == explained(QUEUE_LOG_FAILED@, cause@),
            RunReport::Finished { success, stdout, .. } => if !success {
                r matches Ok(text) && text@ == QUEUE_LOG_UNAVAILABLE@
            } else if trimmed(stdout@).len() == 0 || contains(stdout@, NO_ENTRIES@) {
                r matches Ok(text) && text@ == NO_QUEUE_LOG@
            } else {
                r matches Ok(text) && text@ == stdout@
            },
        },
{
    match report {
        RunReport::NotStarted(cause) => Err(
            Error::CommandNotStarted(explain(QUEUE_LOG_FAILED, cause.as_str())),
        ),
        RunReport::Finished { success, stdout, stderr: _ } => {
            if !success {
                return Ok(QUEUE_LOG_UNAVAILABLE.to_string());
            }
            let text = to_chars(stdout.as_str());
            let marker = to_chars(NO_ENTRIES);
            if trim(stdout.as_str()).as_str().unicode_len() == 0 || has_substring(&text, &marker) {
                Ok(NO_QUEUE_LOG.to_string())
            } else {
                Ok(stdout)
            }
        },
    }
}

// ---------------------------------------------------------------------------
// The latest release
// ---------------------------------------------------------------------------
pub const CURL: &'static str = "curl";

pub const ARG_SILENT: &'static str = "-s";

pub const PACKAGIST_URL: &'static str = "https://repo.packagist.org/p2/laravel/framework.json";

pub const PACKAGES: &'static str = "packages";

pub const VERSION_KEY: &'static str = "version";

pub const WORD_DEV: &'static str = "dev";

pub const WORD_ALPHA: &'static str = "alpha";

pub const WORD_BETA: &'static str = "beta";

pub const WORD_RC: &'static str = "RC";

pub const FETCH_CONTEXT: &'static str = "Failed to fetch from Packagist";

pub const RESPONSE_CONTEXT: &'static str = "Failed to parse Packagist response";

pub const NO_RELEASE: &'static str = "Could not determine latest Laravel version";

/// The command that fetches the releases of the framework from Packagist.
pub fn releases_command() -> (r: Invocation)
    ensures
        r@ == (InvocationView {
            program: CURL@,
            args: seq![ARG_SILENT@, PACKAGIST_URL@],
            dir: None,
        }),
{
    let mut args: Vec<String> = Vec::new();
    push_str(&mut args, ARG_SILENT);
    push_str(&mut args, PACKAGIST_URL);
    assert(texts(args@) =~= seq![ARG_SILENT@, PACKAGIST_URL@]);
    invoke(CURL, args)
}

/// Whether a version is a stable release: its name mentions none of `dev`,
/// `alpha`, `beta` and `RC`.
pub open spec fn is_stable(version: Seq<char>) -> bool {
    !contains(version, WORD_DEV@) && !contains(version, WORD_ALPHA@) && !contains(
        version,
        WORD_BETA@,
    ) && !contains(version, WORD_RC@)
}

/// The first stable version among the releases, each given by its table of
/// strings; a release without a `version` string is passed over.
pub open spec fn first_stable(releases: Seq<StringTable>) -> Option<Seq<char>>
    decreases releases.len(),
{
    if releases.len() == 0 {
        None
    } else {
        match first_stable(releases.drop_last()) {
            Some(version) => Some(version),
            None => match string_at(releases.last(), seq![VERSION_KEY@]) {
                Some(version) => if is_stable(version) {
                    Some(version)
                } else {
                    None
                },
                None => None,
            },
        }
    }
}

/// The latest stable release that a response of Packagist names: the first
/// stable version in the array at `packages`/`laravel/framework`, without
/// the `v`s it begins with.
pub open spec fn latest_release(strings: StringTable, lists: crate::json::ListTable) -> Option<
    Seq<char>,
> {
    match list_at(lists, seq![PACKAGES@, FRAMEWORK@]) {
        None => None,
        Some(releases) => match first_stable(releases) {
            None => None,
            Some(version) => Some(strip_start(version, CharSet::Only('v'))),
        },
    }
}

/// A stable version found among the first releases is the one found among
/// all.
pub proof fn lemma_first_stable_prefix(releases: Seq<StringTable>, n: int)
    requires
        0 <= n <= releases.len(),
        first_stable(releases.take(n)) is Some,
    ensures
        first_stable(releases) == first_stable(releases.take(n)),
    decreases releases.len() - n,
{
    if n < releases.len() {
        assert(releases.take(n + 1).drop_last() =~= releases.take(n));
        lemma_first_stable_prefix(releases, n + 1);
    } else {
        assert(releases.take(n) =~= releases);
    }
}

/// Whether a version is a stable release.
pub fn stable(version: &str) -> (r: bool)
    ensures
        r == is_stable(version@),
{
    let text = to_chars(version);
    let dev = to_chars(WORD_DEV);
    let alpha = to_chars(WORD_ALPHA);
    let beta = to_chars(WORD_BETA);
    let rc = to_chars(WORD_RC);
    !has_substring(&text, &dev) && !has_substring(&text, &alpha) && !has_substring(&text, &beta)
        && !has_substring(&text, &rc)
}

/// The latest stable release that the response `body` of Packagist names.
///
/// A body that is no JSON is a failure whose message ends in what the
/// parser said. A body that names no stable release is one too.
pub fn latest_release_in(body: &str) -> (r: Result<String, Error>)
    ensures
        match json_document(body@) {
            None => r matches Err(Error::Unsupported(m)) && exists|detail: Seq<char>|
                m@ == #[trigger] explained(RESPONSE_CONTEXT@, detail),
            Some(strings) => match latest_release(strings, json_document_lists(body@)) {
                Some(version) => r matches Ok(found) && found@ == version,
                None => r matches Err(Error::Unsupported(m)) && m@ == NO_RELEASE@,
            },
        },
{
    match parse(body) {
        Err(detail) => {
            let message = explain(RESPONSE_CONTEXT, detail.as_str());
            assert(message@ == explained(RESPONSE_CONTEXT@, detail@));
            Err(Error::Unsupported(message))
        },
        Ok(document) => {
            match nested_list(&document, PACKAGES, FRAMEWORK) {
                None => Err(Error::Unsupported(NO_RELEASE.to_string())),
                Some(items) => {
                    let ghost releases = element_tables(items@);
                    let mut i: usize = 0;
                    while i < items.len()
                        invariant
                            i <= items.len(),
                            releases == element_tables(items@),
                            json_document(body@) is Some,
                            list_at(json_document_lists(body@), seq![PACKAGES@, FRAMEWORK@])
                                == Some(releases),
                            first_stable(releases.take(i as int)) is None,
                        decreases items.len() - i,
                    {
                        proof {
                            assert(releases.take(i + 1).drop_last() =~= releases.take(i as int));
                            assert(releases.take(i + 1).last() == json_strings(items@[i as int]));
                        }
                        match string_member(&items[i], VERSION_KEY) {
                            Some(version) => {
                                if stable(version.as_str()) {
                                    proof {
                                        lemma_first_stable_prefix(releases, i + 1);
                                    }
                                    return Ok(
                                        strip_start_of(version.as_str(), CharSet::Only('v')),
                                    );
                                }
                            },
                            None => {},
                        }
                        i += 1;
                    }
                    assert(releases.take(items@.len() as int) =~= releases);
                    Err(Error::Unsupported(NO_RELEASE.to_string()))
                },
            }
        },
    }
}

/// The latest stable release of the framework, from the report of the
/// command that asked Packagist. A command that could not be started or
/// that failed is a failure; for a command that succeeded see
/// [`latest_release_in`].
pub fn get_latest_laravel_version(report: RunReport) -> (r: Result<String, Error>)
    ensures
        match report {
            RunReport::NotStarted(cause) => r matches Err(Error::CommandNotStarted(m)) && m@
                == explained(FETCH_CONTEXT@, cause@),
            RunReport::Finished { success, stdout, .. } => if !success {
                r matches Err(Error::CommandFailed(m)) && m@ == FETCH_CONTEXT@
            } else {
                match json_document(stdout@) {
                    None => r matches Err(Error::Unsupported(m)) && exists|detail: Seq<char>|
                        m@ == #[trigger] explained(RESPONSE_CONTEXT@, detail),
                    Some(strings) => match latest_release(strings, json_document_lists(stdout@)) {
                        Some(version) => r matches Ok(found) && found@ == version,
                        None => r matches Err(Error::Unsupported(m)) && m@ == NO_RELEASE@,
                    },
                }
            },
        },
{
    match report {
        RunReport::NotStarted(cause) => Err(
            Error::CommandNotStarted(explain(FETCH_CONTEXT, cause.as_str())),
        ),
        RunReport::Finished { success, stdout, stderr: _ } => {
            if !success {
                Err(Error::CommandFailed(FETCH_CONTEXT.to_string()))
            } else {
                latest_release_in(stdout.as_str())
            }
        },
    }
}

} // verus!

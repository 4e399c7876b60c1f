//! New projects: the frameworks on offer, and how a project is created
//! from one of them or cloned from a repository.
//!
//! Directories are made, files written and commands run by the caller; the
//! functions here say which, and read what the caller reports.

use crate::errors::Error;
use crate::paths::{join, path_joined};
use crate::process::{explain, explained, invoke_in, Invocation, InvocationView, RunReport};
use crate::sites::slice_text_of;
use crate::text::{after_last, after_last_of, push_str, push_text, strip_end, strip_end_of,
    strip_suffixes, texts, without_suffixes, CharSet};
use vstd::prelude::*;
use vstd::string::*;

verus! {

/// A framework a project can be created from.
#[derive(Debug, PartialEq, Eq)]
pub struct FrameworkTemplate {
    pub id: String,
    pub name: String,
    pub description: String,
    pub versions: Vec<String>,
    pub default_version: String,
    pub create_command: String,
}

/// Mathematical model of a [`FrameworkTemplate`].
pub struct FrameworkTemplateView {
    pub id: Seq<char>,
    pub name: Seq<char>,
    pub description: Seq<char>,
    pub versions: Seq<Seq<char>>,
    pub default_version: Seq<char>,
    pub create_command: Seq<char>,
}

impl View for FrameworkTemplate {
    type V = FrameworkTemplateView;

    open spec fn view(&self) -> FrameworkTemplateView {
        FrameworkTemplateView {
            id: self.id@,
            name: self.name@,
            description: self.description@,
            versions: texts(self.versions@),
            default_version: self.default_version@,
            create_command: self.create_command@,
        }
    }
}

/// The models of a list of templates, in the same order.
pub open spec fn template_views(templates: Seq<FrameworkTemplate>) -> Seq<FrameworkTemplateView> {
    Seq::new(templates.len(), |i: int| templates[i]@)
}

pub const LARAVEL: &'static str = "laravel";

pub const SYMFONY: &'static str = "symfony";

pub const WORDPRESS: &'static str = "wordpress";

pub const STATIC: &'static str = "static";

/// The frameworks on offer: Laravel, Symfony, WordPress and a plain static
/// site, each with the versions to choose from and the one chosen where
/// nothing is.
pub open spec fn offered_templates() -> Seq<FrameworkTemplateView> {
    seq![
        FrameworkTemplateView {
            id: LARAVEL@,
            name: "Laravel"@,
            description: "The PHP Framework for Web Artisans"@,
            versions: seq!["12"@, "11"@, "10"@],
            default_version: "12"@,
            create_command: "composer create-project laravel/laravel"@,
        },
        FrameworkTemplateView {
            id: SYMFONY@,
            name: "Symfony"@,
            description: "High Performance PHP Framework"@,
            versions: seq!["7.0"@, "6.4"@, "5.4"@],
            default_version: "7.0"@,
            create_command: "composer create-project symfony/skeleton"@,
        },
        FrameworkTemplateView {
            id: WORDPRESS@,
            name: "WordPress"@,
            description: "Open Source Blogging Platform"@,
            versions: seq!["latest"@],
            default_version: "latest"@,
            create_command: "wp core download"@,
        },
        FrameworkTemplateView {
            id: STATIC@,
            name: "Static Site"@,
            description: "Simple HTML/CSS/JS site"@,
            versions: seq!["n/a"@],
            default_version: "n/a"@,
            create_command: "mkdir -p"@,
        },
    ]
}

fn make_template(
    id: &str,
    name: &str,
    description: &str,
    versions: Vec<String>,
    default_version: &str,
    create_command: &str,
) -> (r: FrameworkTemplate)
    ensures
        r@ == (FrameworkTemplateView {
            id: id@,
            name: name@,
            description: description@,
            versions: texts(versions@),
            default_version: default_version@,
            create_command: create_command@,
        }),
{
    FrameworkTemplate {
        id: id.to_string(),
        name: name.to_string(),
        description: description.to_string(),
        versions,
        default_version: default_version.to_string(),
        create_command: create_command.to_string(),
    }
}

/// The frameworks on offer; see [`offered_templates`].
pub fn get_framework_templates() -> (r: Vec<FrameworkTemplate>)
    ensures
        template_views(r@) == offered_templates(),
{
    let mut laravel: Vec<String> = Vec::new();
    push_str(&mut laravel, "12");
    push_str(&mut laravel, "11");
    push_str(&mut laravel, "10");
    assert(texts(laravel@) =~= seq!["12"@, "11"@, "10"@]);
    let mut symfony: Vec<String> = Vec::new();
    push_str(&mut symfony, "7.0");
    push_str(&mut symfony, "6.4");
    push_str(&mut symfony, "5.4");
    assert(texts(symfony@) =~= seq!["7.0"@, "6.4"@, "5.4"@]);
    let mut wordpress: Vec<String> = Vec::new();
    push_str(&mut wordpress, "latest");
    assert(texts(wordpress@) =~= seq!["latest"@]);
    let mut plain: Vec<String> = Vec::new();
    push_str(&mut plain, "n/a");
    assert(texts(plain@) =~= seq!["n/a"@]);
    let mut out: Vec<FrameworkTemplate> = Vec::new();
    out.push(
        make_template(
            LARAVEL,
            "Laravel",
            "The PHP Framework for Web Artisans",
            laravel,
            "12",
            "composer create-project laravel/laravel",
        ),
    );
    out.push(
        make_template(
            SYMFONY,
            "Symfony",
            "High Performance PHP Framework",
            symfony,
            "7.0",
            "composer create-project symfony/skeleton",
        ),
    );
    out.push(
        make_template(
            WORDPRESS,
            "WordPress",
            "Open Source Blogging Platform",
            wordpress,
            "latest",
            "wp core download",
        ),
    );
    out.push(
        make_template(STATIC, "Static Site", "Simple HTML/CSS/JS site", plain, "n/a", "mkdir -p"),
    );
    assert(template_views(out@) =~= offered_templates());
    out
}

// ---------------------------------------------------------------------------
// Creating a project
// ---------------------------------------------------------------------------
pub const COMPOSER: &'static str = "composer";

pub const ARG_CREATE_PROJECT: &'static str = "create-project";

pub const LARAVEL_SKELETON: &'static str = "laravel/laravel";

pub const LARAVEL_AT: &'static str = "laravel/laravel:^";

pub const SYMFONY_AT: &'static str = "symfony/skeleton:^";

pub const LATEST_LARAVEL: &'static str = "12";

pub const DEFAULT_LARAVEL: &'static str = "11";

pub const DEFAULT_SYMFONY: &'static str = "7.0";

pub const WP: &'static str = "wp";

pub const ARG_CORE: &'static str = "core";

pub const ARG_DOWNLOAD: &'static str = "download";

pub const CURL: &'static str = "curl";

pub const ARG_OUTPUT: &'static str = "-o";

pub const ARCHIVE: &'static str = "wordpress.tar.gz";

pub const ARCHIVE_URL: &'static str = "https://wordpress.org/latest.tar.gz";

pub const TAR: &'static str = "tar";

pub const ARG_EXTRACT: &'static str = "xzf";

pub const ARG_STRIP: &'static str = "--strip-components=1";

pub const INDEX_FILE: &'static str = "index.html";

pub const INDEX_OPEN: &'static str = "<!DOCTYPE html>\n<html lang=\"en\">\n<head>\n    <meta charset=\"UTF-8\">\n    <meta name=\"viewport\" content=\"width=device-width, initial-scale=1.0\">\n    <title>";

pub const INDEX_MIDDLE: &'static str = "</title>\n</head>\n<body>\n    <h1>Welcome to ";

pub const INDEX_CLOSE: &'static str = "</h1>\n    <p>Your static site is ready.</p>\n</body>\n</html>";

pub const DIRECTORY: &'static str = "Directory ";

pub const ALREADY_EXISTS: &'static str = " already exists";

pub const UNKNOWN_FRAMEWORK: &'static str = "Unknown framework";

pub const COMPOSER_CONTEXT: &'static str = "Failed to run composer";

pub const LARAVEL_CONTEXT: &'static str = "Failed to create Laravel project";

pub const SYMFONY_CONTEXT: &'static str = "Failed to create Symfony project";

pub const WP_CONTEXT: &'static str = "Failed to run wp-cli";

pub const WORDPRESS_FAILED: &'static str =
    "Failed to download WordPress. Install wp-cli or check your connection.";

/// How a project is brought into being.
#[derive(Debug, PartialEq, Eq)]
pub enum Scaffold {
    /// Run Composer. Where it fails its error stream comes under the
    /// heading `context`.
    Composer { command: Invocation, context: String },
    /// Make `directory` and download WordPress into it. Where the download
    /// fails, fetch the archive, unpack it and delete it.
    WordPress {
        directory: String,
        download: Invocation,
        fetch: Invocation,
        unpack: Invocation,
        archive: String,
    },
    /// Make `directory` and write `text` to `file`.
    Static { directory: String, file: String, text: String },
}

/// The package that Composer creates a Laravel project from: the skeleton
/// as it is for the latest version, the skeleton at the version otherwise;
/// version 11 where none is asked for.
pub open spec fn laravel_package(version: Option<Seq<char>>) -> Seq<char> {
    let wanted = match version {
        Some(v) => v,
        None => DEFAULT_LARAVEL@,
    };
    if wanted == LATEST_LARAVEL@ {
        LARAVEL_SKELETON@
    } else {
        LARAVEL_AT@ + wanted
    }
}

/// The package that Composer creates a Symfony project from; version 7.0
/// where none is asked for.
pub open spec fn symfony_package(version: Option<Seq<char>>) -> Seq<char> {
    SYMFONY_AT@ + (match version {
        Some(v) => v,
        None => DEFAULT_SYMFONY@,
    })
}

/// The page of a new static site called `name`.
pub open spec fn index_page(name: Seq<char>) -> Seq<char> {
    INDEX_OPEN@ + name + INDEX_MIDDLE@ + name + INDEX_CLOSE@
}

/// The message for a directory that is already there.
pub open spec fn directory_exists(path: Seq<char>) -> Seq<char> {
    DIRECTORY@ + path + ALREADY_EXISTS@
}

/// The directory of the project `name` below `base_path`.
pub fn project_path(base_path: &str, name: &str) -> (r: String)
    ensures
        r@ == path_joined(base_path@, name@),
{
    join(base_path, name)
}

fn composer_create(base_path: &str, package: String, name: &str) -> (r: Invocation)
    ensures
        r@ == (InvocationView {
            program: COMPOSER@,
            args: seq![ARG_CREATE_PROJECT@, package@, name@],
            dir: Some(base_path@),
        }),
{
    let mut args: Vec<String> = Vec::new();
    push_str(&mut args, ARG_CREATE_PROJECT);
    push_text(&mut args, package);
    push_str(&mut args, name);
    assert(texts(args@) =~= seq![ARG_CREATE_PROJECT@, package@, name@]);
    invoke_in(base_path, COMPOSER, args)
}

/// How the project `name` is created from `framework` below `base_path`.
///
/// `exists` tells whether the directory of the project is already there;
/// if it is, the request is refused. The directory `base_path` itself is to
/// be made first where it is missing. A framework other than the four on
/// offer is refused.
pub fn create_project(name: &str, framework: &str, version: Option<&str>, base_path: &str, exists: bool) -> (r:
    Result<Scaffold, Error>)
    ensures
        exists ==> (r matches Err(Error::Unsupported(m)) && m@ == directory_exists(
            path_joined(base_path@, name@),
        )),
        !exists && framework@ == LARAVEL@ ==> (r matches Ok(Scaffold::Composer { command, context })
            && command@ == (InvocationView {
            program: COMPOSER@,
            args: seq![ARG_CREATE_PROJECT@, laravel_package(slice_text_of(version)), name@],
            dir: Some(base_path@),
        }) && context@ == LARAVEL_CONTEXT@),
        !exists && framework@ != LARAVEL@ && framework@ == SYMFONY@ ==> (r matches Ok(
            Scaffold::Composer { command, context },
        ) && command@ == (InvocationView {
            program: COMPOSER@,
            args: seq![ARG_CREATE_PROJECT@, symfony_package(slice_text_of(version)), name@],
            dir: Some(base_path@),
        }) && context@ == SYMFONY_CONTEXT@),
        !exists && framework@ != LARAVEL@ && framework@ != SYMFONY@ && framework@ == WORDPRESS@
            ==> (r matches Ok(Scaffold::WordPress { directory, download, fetch, unpack, archive })
            && directory@ == path_joined(base_path@, name@) && download@ == (InvocationView {
            program: WP@,
            args: seq![ARG_CORE@, ARG_DOWNLOAD@],
            dir: Some(directory@),
        }) && fetch@ == (InvocationView {
            program: CURL@,
            args: seq![ARG_OUTPUT@, ARCHIVE@, ARCHIVE_URL@],
            dir: Some(directory@),
        }) && unpack@ == (InvocationView {
            program: TAR@,
            args: seq![ARG_EXTRACT@, ARCHIVE@, ARG_STRIP@],
            dir: Some(directory@),
        }) && archive@ == path_joined(directory@, ARCHIVE@)),
        !exists && framework@ != LARAVEL@ && framework@ != SYMFONY@ && framework@ != WORDPRESS@
            && framework@ == STATIC@ ==> (r matches Ok(Scaffold::Static { directory, file, text })
            && directory@ == path_joined(base_path@, name@) && file@ == path_joined(
            directory@,
            INDEX_FILE@,
        ) && text@ == index_page(name@)),
        !exists && framework@ != LARAVEL@ && framework@ != SYMFONY@ && framework@ != WORDPRESS@
            && framework@ != STATIC@ ==> (r matches Err(Error::Unsupported(m)) && m@ == explained(
            UNKNOWN_FRAMEWORK@,
            framework@,
        )),
{
    let directory = project_path(base_path, name);
    if exists {
        return Err(
            Error::Unsupported(
                DIRECTORY.to_string().concat(directory.as_str()).concat(ALREADY_EXISTS),
            ),
        );
    }
    if *framework == *LARAVEL {
        let wanted = match version {
            Some(v) => v,
            None => DEFAULT_LARAVEL,
        };
        let package = if *wanted == *LATEST_LARAVEL {
            LARAVEL_SKELETON.to_string()
        } else {
            LARAVEL_AT.to_string().concat(wanted)
        };
        Ok(
            Scaffold::Composer {
                command: composer_create(base_path, package, name),
                context: LARAVEL_CONTEXT.to_string(),
            },
        )
    } else if *framework == *SYMFONY {
        let wanted = match version {
            Some(v) => v,
            None => DEFAULT_SYMFONY,
        };
        let package = SYMFONY_AT.to_string().concat(wanted);
        Ok(
            Scaffold::Composer {
                command: composer_create(base_path, package, name),
                context: SYMFONY_CONTEXT.to_string(),
            },
        )
    } else if *framework == *WORDPRESS {
        let mut download_args: Vec<String> = Vec::new();
        push_str(&mut download_args, ARG_CORE);
        push_str(&mut download_args, ARG_DOWNLOAD);
        assert(texts(download_args@) =~= seq![ARG_CORE@, ARG_DOWNLOAD@]);
        let mut fetch_args: Vec<String> = Vec::new();
        push_str(&mut fetch_args, ARG_OUTPUT);
        push_str(&mut fetch_args, ARCHIVE);
        push_str(&mut fetch_args, ARCHIVE_URL);
        assert(texts(fetch_args@) =~= seq![ARG_OUTPUT@, ARCHIVE@, ARCHIVE_URL@]);
        let mut unpack_args: Vec<String> = Vec::new();
        push_str(&mut unpack_args, ARG_EXTRACT);
        push_str(&mut unpack_args, ARCHIVE);
        push_str(&mut unpack_args, ARG_STRIP);
        assert(texts(unpack_args@) =~= seq![ARG_EXTRACT@, ARCHIVE@, ARG_STRIP@]);
        let download = invoke_in(directory.as_str(), WP, download_args);
        let fetch = invoke_in(directory.as_str(), CURL, fetch_args);
        let unpack = invoke_in(directory.as_str(), TAR, unpack_args);
        let archive = join(directory.as_str(), ARCHIVE);
        Ok(Scaffold::WordPress { directory, download, fetch, unpack, archive })
    } else if *framework == *STATIC {
        let file = join(directory.as_str(), INDEX_FILE);
        let mut text = INDEX_OPEN.to_string();
        text.append(name);
        text.append(INDEX_MIDDLE);
        text.append(name);
        text.append(INDEX_CLOSE);
        Ok(Scaffold::Static { directory, file, text })
    } else {
        Err(Error::Unsupported(explain(UNKNOWN_FRAMEWORK, framework)))
    }
}

/// What became of a run of Composer that creates a project: nothing to
/// tell where it succeeded; where it failed, its error stream under the
/// heading `context`; where it could not be started, the reason.
pub fn composer_result(report: RunReport, context: &str) -> (r: Result<(), Error>)
    ensures
        match report {
            RunReport::NotStarted(cause) => r matches Err(Error::CommandNotStarted(m)) && m@
                == explained(COMPOSER_CONTEXT@, cause@),
            RunReport::Finished { success, stderr, .. } => if success {
                r is Ok
            } else {
                r matches Err(Error::CommandFailed(m)) && m@ == explained(context@, stderr@)
            },
        },
{
    match report {
        RunReport::NotStarted(cause) => Err(
            Error::CommandNotStarted(explain(COMPOSER_CONTEXT, cause.as_str())),
        ),
        RunReport::Finished { success, stdout: _, stderr } => if success {
            Ok(())
        } else {
            Err(Error::CommandFailed(explain(context, stderr.as_str())))
        },
    }
}

/// Whether the archive of WordPress is to be fetched: the download tool
/// ran and failed.
pub fn wordpress_needs_archive(download: &RunReport) -> (r: bool)
    ensures
        r == (*download matches RunReport::Finished { success, .. } && !success),
{
    match download {
        RunReport::Finished { success, .. } => !*success,
        RunReport::NotStarted(_) => false,
    }
}

/// What became of downloading WordPress. `fetch` is the report of fetching
/// the archive, where that was needed. A download tool that could not be
/// started is a failure, and so is an archive that could not be fetched at
/// all; whether fetching reported success does not matter.
pub fn wordpress_result(download: &RunReport, fetch: Option<&RunReport>) -> (r: Result<(), Error>)
    ensures
        match *download {
            RunReport::NotStarted(cause) => r matches Err(Error::CommandNotStarted(m)) && m@
                == explained(WP_CONTEXT@, cause@),
            RunReport::Finished { success, .. } => if success {
                r is Ok
            } else {
                match fetch {
                    Some(report) => match *report {
                        RunReport::Finished { .. } => r is Ok,
                        RunReport::NotStarted(_) => r matches Err(Error::CommandFailed(m)) && m@
                            == WORDPRESS_FAILED@,
                    },
                    None => r matches Err(Error::CommandFailed(m)) && m@ == WORDPRESS_FAILED@,
                }
            },
        },
{
    match download {
        RunReport::NotStarted(cause) => Err(
            Error::CommandNotStarted(explain(WP_CONTEXT, cause.as_str())),
        ),
        RunReport::Finished { success, .. } => {
            if *success {
                return Ok(());
            }
            match fetch {
                Some(report) => match report {
                    RunReport::Finished { .. } => Ok(()),
                    RunReport::NotStarted(_) => Err(
                        Error::CommandFailed(WORDPRESS_FAILED.to_string()),
                    ),
                },
                None => Err(Error::CommandFailed(WORDPRESS_FAILED.to_string())),
            }
        },
    }
}

// ---------------------------------------------------------------------------
// Cloning a repository
// ---------------------------------------------------------------------------
pub const GIT: &'static str = "git";

pub const ARG_CLONE: &'static str = "clone";

pub const GIT_SUFFIX: &'static str = ".git";

pub const NPM: &'static str = "npm";

pub const ARG_INSTALL: &'static str = "install";

pub const PHP: &'static str = "php";

pub const ARTISAN: &'static str = "artisan";

pub const ARG_KEY_GENERATE: &'static str = "key:generate";

pub const ENV_EXAMPLE: &'static str = ".env.example";

pub const ENV_FILE: &'static str = ".env";

pub const GIT_CONTEXT: &'static str = "Failed to run git";

pub const CLONE_CONTEXT: &'static str = "Failed to clone repository";

/// The name of the project that a repository is cloned into: the name
/// asked for, else the last part of the address of the repository, without
/// the slashes the address ends with and without `.git` at the end.
pub open spec fn repository_name(repo_url: Seq<char>, name: Option<Seq<char>>) -> Seq<char> {
    match name {
        Some(n) => n,
        None => without_suffixes(
            after_last(strip_end(repo_url, CharSet::Only('/')), '/'),
            GIT_SUFFIX@,
        ),
    }
}

/// The name of the project that a repository is cloned into.
pub fn project_name(repo_url: &str, name: Option<&str>) -> (r: String)
    ensures
        r@ == repository_name(repo_url@, slice_text_of(name)),
{
    match name {
        Some(n) => n.to_string(),
        None => {
            let bare = strip_end_of(repo_url, CharSet::Only('/'));
            let last = after_last_of(bare.as_str(), '/');
            strip_suffixes(last.as_str(), GIT_SUFFIX)
        },
    }
}

/// The command that clones the repository `repo_url` into the project
/// `project_name` below `sites_path`. `exists` tells whether the directory
/// of the project is already there; if it is, the request is refused.
pub fn clone_repository(sites_path: &str, repo_url: &str, project_name: &str, exists: bool) -> (r:
    Result<Invocation, Error>)
    ensures
        exists ==> (r matches Err(Error::Unsupported(m)) && m@ == directory_exists(
            path_joined(sites_path@, project_name@),
        )),
        !exists ==> (r matches Ok(command) && command@ == (InvocationView {
            program: GIT@,
            args: seq![ARG_CLONE@, repo_url@, project_name@],
            dir: Some(sites_path@),
        })),
{
    if exists {
        let directory = project_path(sites_path, project_name);
        return Err(
            Error::Unsupported(
                DIRECTORY.to_string().concat(directory.as_str()).concat(ALREADY_EXISTS),
            ),
        );
    }
    let mut args: Vec<String> = Vec::new();
    push_str(&mut args, ARG_CLONE);
    push_str(&mut args, repo_url);
    push_str(&mut args, project_name);
    assert(texts(args@) =~= seq![ARG_CLONE@, repo_url@, project_name@]);
    Ok(invoke_in(sites_path, GIT, args))
}

/// What became of cloning: nothing to tell where it succeeded; where it
/// failed, its error stream under a heading; where it could not be started,
/// the reason.
pub fn clone_result(report: RunReport) -> (r: Result<(), Error>)
    ensures
        match report {
            RunReport::NotStarted(cause) => r matches Err(Error::CommandNotStarted(m)) && m@
                == explained(GIT_CONTEXT@, cause@),
            RunReport::Finished { success, stderr, .. } => if success {
                r is Ok
            } else {
                r matches Err(Error::CommandFailed(m)) && m@ == explained(CLONE_CONTEXT@, stderr@)
            },
        },
{
    match report {
        RunReport::NotStarted(cause) => Err(
            Error::CommandNotStarted(explain(GIT_CONTEXT, cause.as_str())),
        ),
        RunReport::Finished { success, stdout: _, stderr } => if success {
            Ok(())
        } else {
            Err(Error::CommandFailed(explain(CLONE_CONTEXT, stderr.as_str())))
        },
    }
}

/// What the caller found in a project after cloning it.
#[derive(Debug, Clone, Copy, PartialEq, Eq, Structural)]
pub struct CloneFacts {
    pub has_composer_json: bool,
    pub has_package_json: bool,
    pub has_env_example: bool,
    pub has_env: bool,
    pub has_artisan: bool,
}

/// What is done to a project after cloning it, each a best effort.
#[derive(Debug, PartialEq, Eq)]
pub struct AfterClone {
    /// Install the dependencies that Composer manages.
    pub composer_install: Option<Invocation>,
    /// Install the dependencies that npm manages.
    pub npm_install: Option<Invocation>,
    /// Copy the example of the environment file to the environment file:
    /// from the first path to the second.
    pub copy_env: Option<(String, String)>,
    /// Generate the key of the application.
    pub generate_key: Option<Invocation>,
}

/// The model of an optional command.
pub open spec fn command_view(command: Option<Invocation>) -> Option<InvocationView> {
    match command {
        Some(c) => Some(c@),
        None => None,
    }
}

fn project_command(dir: &str, program: &str, first: &str, second: Option<&str>) -> (r: Invocation)
    ensures
        r@ == (InvocationView {
            program: program@,
            args: match second {
                Some(s) => seq![first@, s@],
                None => seq![first@],
            },
            dir: Some(dir@),
        }),
{
    let mut args: Vec<String> = Vec::new();
    push_str(&mut args, first);
    match second {
        Some(s) => {
            push_str(&mut args, s);
            assert(texts(args@) =~= seq![first@, s@]);
        },
        None => {
            assert(texts(args@) =~= seq![first@]);
        },
    }
    invoke_in(dir, program, args)
}

/// What is done to the project at `project_path` after cloning it:
/// Composer and npm install their dependencies where the project has a
/// manifest for them, the example of the environment file is copied where
/// there is one and no environment file yet, and the key of the application
/// is generated where the project has an `artisan` file.
pub fn after_clone(project_path: &str, facts: CloneFacts) -> (r: AfterClone)
    ensures
        command_view(r.composer_install) == (if facts.has_composer_json {
            Some(
                InvocationView {
                    program: COMPOSER@,
                    args: seq![ARG_INSTALL@],
                    dir: Some(project_path@),
                },
            )
        } else {
            None
        }),
        command_view(r.npm_install) == (if facts.has_package_json {
            Some(InvocationView { program: NPM@, args: seq![ARG_INSTALL@], dir: Some(project_path@) })
        } else {
            None
        }),
        match r.copy_env {
            Some(pair) => facts.has_env_example && !facts.has_env && pair.0@ == path_joined(
                project_path@,
                ENV_EXAMPLE@,
            ) && pair.1@ == path_joined(project_path@, ENV_FILE@),
            None => !(facts.has_env_example && !facts.has_env),
        },
        command_view(r.generate_key) == (if facts.has_artisan {
            Some(
                InvocationView {
                    program: PHP@,
                    args: seq![ARTISAN@, ARG_KEY_GENERATE@],
                    dir: Some(project_path@),
                },
            )
        } else {
            None
        }),
{
    let composer_install = if facts.has_composer_json {
        Some(project_command(project_path, COMPOSER, ARG_INSTALL, None))
    } else {
        None
    };
    let npm_install = if facts.has_package_json {
        Some(project_command(project_path, NPM, ARG_INSTALL, None))
    } else {
        None
    };
    let copy_env = if facts.has_env_example && !facts.has_env {
        Some((join(project_path, ENV_EXAMPLE), join(project_path, ENV_FILE)))
    } else {
        None
    };
    let generate_key = if facts.has_artisan {
        Some(project_command(project_path, PHP, ARTISAN, Some(ARG_KEY_GENERATE)))
    } else {
        None
    };
    AfterClone { composer_install, npm_install, copy_env, generate_key }
}

} // verus!

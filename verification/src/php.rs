//! PHP interpreters: versions, extensions and the packages that carry them.

use crate::errors::Error;
use crate::process::{explain, explained, invoke, is_failure, outcome, require_success,
    Invocation, InvocationView, RunReport};
use crate::sites::text_of;
use crate::system::{PackageManager, UNSUPPORTED_MANAGER};
use crate::text::{contains, decimal, decimal_string, extend_texts, first_line, first_line_of,
    has_prefix, has_substring, is_digit, join, joined, parse_number_of, parsed_number, push_str,
    push_text, replace, replace_all, split, split_on, split_words, starts_with, string_of, texts,
    to_chars, trim, trimmed, words};
use vstd::prelude::*;
use vstd::string::*;

verus! {

/// One PHP version, installed or known.
#[derive(Debug, PartialEq, Eq)]
pub struct PhpVersion {
    pub version: String,
    pub full_version: String,
    pub installed: bool,
    pub active: bool,
    pub path: String,
}

/// One extension that can be installed with a PHP version.
#[derive(Debug, PartialEq, Eq)]
pub struct PhpExtension {
    pub name: String,
    pub display_name: String,
    pub description: String,
    pub category: String,
    pub default_selected: bool,
}

/// Whether the package archive for PHP is set up, and how to add it.
#[derive(Debug, PartialEq, Eq)]
pub struct PpaStatus {
    pub installed: bool,
    pub name: String,
    pub add_command: String,
}

/// One step of an installation, as reported to the user.
#[derive(Debug, PartialEq, Eq)]
pub struct InstallProgress {
    pub step: String,
    pub current_step: u8,
    pub total_steps: u8,
    pub status: String,
}

/// Mathematical model of a [`PhpVersion`].
pub struct PhpVersionView {
    pub version: Seq<char>,
    pub full_version: Seq<char>,
    pub installed: bool,
    pub active: bool,
    pub path: Seq<char>,
}

/// Mathematical model of a [`PhpExtension`].
pub struct PhpExtensionView {
    pub name: Seq<char>,
    pub display_name: Seq<char>,
    pub description: Seq<char>,
    pub category: Seq<char>,
    pub default_selected: bool,
}

/// Mathematical model of a [`PpaStatus`].
pub struct PpaStatusView {
    pub installed: bool,
    pub name: Seq<char>,
    pub add_command: Seq<char>,
}

/// Mathematical model of an [`InstallProgress`].
pub struct InstallProgressView {
    pub step: Seq<char>,
    pub current_step: u8,
    pub total_steps: u8,
    pub status: Seq<char>,
}

impl View for PhpVersion {
    type V = PhpVersionView;

    open spec fn view(&self) -> PhpVersionView {
        PhpVersionView {
            version: self.version@,
            full_version: self.full_version@,
            installed: self.installed,
            active: self.active,
            path: self.path@,
        }
    }
}

impl View for PhpExtension {
    type V = PhpExtensionView;

    open spec fn view(&self) -> PhpExtensionView {
        PhpExtensionView {
            name: self.name@,
            display_name: self.display_name@,
            description: self.description@,
            category: self.category@,
            default_selected: self.default_selected,
        }
    }
}

impl View for PpaStatus {
    type V = PpaStatusView;

    open spec fn view(&self) -> PpaStatusView {
        PpaStatusView {
            installed: self.installed,
            name: self.name@,
            add_command: self.add_command@,
        }
    }
}

impl View for InstallProgress {
    type V = InstallProgressView;

    open spec fn view(&self) -> InstallProgressView {
        InstallProgressView {
            step: self.step@,
            current_step: self.current_step,
            total_steps: self.total_steps,
            status: self.status@,
        }
    }
}

/// The models of a list of PHP versions, in the same order.
pub open spec fn version_views(versions: Seq<PhpVersion>) -> Seq<PhpVersionView> {
    Seq::new(versions.len(), |i: int| versions[i]@)
}

/// The models of a list of extensions, in the same order.
pub open spec fn extension_views(extensions: Seq<PhpExtension>) -> Seq<PhpExtensionView> {
    Seq::new(extensions.len(), |i: int| extensions[i]@)
}

// ---------------------------------------------------------------------------
// Extensions
// ---------------------------------------------------------------------------
pub const CATEGORY_REQUIRED: &'static str = "required";

pub const CATEGORY_RECOMMENDED: &'static str = "recommended";

pub const CATEGORY_OPTIONAL: &'static str = "optional";

pub const EXTENSION_COUNT: usize = 18;

/// An extension, from its parts.
pub open spec fn extension(
    name: Seq<char>,
    display_name: Seq<char>,
    description: Seq<char>,
    category: Seq<char>,
    default_selected: bool,
) -> PhpExtensionView {
    PhpExtensionView {
        name: name,
        display_name: display_name,
        description: description,
        category: category,
        default_selected: default_selected,
    }
}

/// The extension at `index` of the list that is offered: first those every
/// installation needs, then the recommended ones, then the optional ones.
/// Only the optional ones are not selected from the start.
pub open spec fn offered_extension(index: int) -> PhpExtensionView {
    if index == 0 {
        extension("cli"@, "CLI"@, "Command-line interface"@, CATEGORY_REQUIRED@, true)
    } else if index == 1 {
        extension("fpm"@, "FPM"@, "FastCGI Process Manager for web servers"@, CATEGORY_REQUIRED@, true)
    } else if index == 2 {
        extension("common"@, "Common"@, "Common files and documentation"@, CATEGORY_REQUIRED@, true)
    } else if index == 3 {
        extension("mysql"@, "MySQL"@, "MySQL/MariaDB database support"@, CATEGORY_RECOMMENDED@, true)
    } else if index == 4 {
        extension("curl"@, "cURL"@, "HTTP client library"@, CATEGORY_RECOMMENDED@, true)
    } else if index == 5 {
        extension("mbstring"@, "Mbstring"@, "Multibyte string handling"@, CATEGORY_RECOMMENDED@, true)
    } else if index == 6 {
        extension("xml"@, "XML"@, "XML parsing and manipulation"@, CATEGORY_RECOMMENDED@, true)
    } else if index == 7 {
        extension("zip"@, "Zip"@, "Zip archive support"@, CATEGORY_RECOMMENDED@, true)
    } else if index == 8 {
        extension("bcmath"@, "BCMath"@, "Arbitrary precision mathematics"@, CATEGORY_RECOMMENDED@, true)
    } else if index == 9 {
        extension("gd"@, "GD"@, "Image processing library"@, CATEGORY_OPTIONAL@, false)
    } else if index == 10 {
        extension("intl"@, "Intl"@, "Internationalization support"@, CATEGORY_OPTIONAL@, false)
    } else if index == 11 {
        extension("redis"@, "Redis"@, "Redis cache/session driver"@, CATEGORY_OPTIONAL@, false)
    } else if index == 12 {
        extension("pgsql"@, "PostgreSQL"@, "PostgreSQL database support"@, CATEGORY_OPTIONAL@, false)
    } else if index == 13 {
        extension("sqlite3"@, "SQLite3"@, "SQLite database support"@, CATEGORY_OPTIONAL@, false)
    } else if index == 14 {
        extension("imagick"@, "Imagick"@, "ImageMagick image processing"@, CATEGORY_OPTIONAL@, false)
    } else if index == 15 {
        extension("soap"@, "SOAP"@, "SOAP web services support"@, CATEGORY_OPTIONAL@, false)
    } else if index == 16 {
        extension("ldap"@, "LDAP"@, "LDAP directory support"@, CATEGORY_OPTIONAL@, false)
    } else {
        extension("xdebug"@, "Xdebug"@, "Debugging and profiling"@, CATEGORY_OPTIONAL@, false)
    }
}

/// The extensions that are offered, in order.
pub open spec fn offered_extensions() -> Seq<PhpExtensionView> {
    Seq::new(EXTENSION_COUNT as nat, |i: int| offered_extension(i))
}

fn make_extension(
    name: &str,
    display_name: &str,
    description: &str,
    category: &str,
    default_selected: bool,
) -> (r: PhpExtension)
    ensures
        r@ == extension(name@, display_name@, description@, category@, default_selected),
{
    PhpExtension {
        name: name.to_string(),
        display_name: display_name.to_string(),
        description: description.to_string(),
        category: category.to_string(),
        default_selected,
    }
}

fn extension_at(index: usize) -> (r: PhpExtension)
    ensures
        r@ == offered_extension(index as int),
{
    if index == 0 {
        make_extension("cli", "CLI", "Command-line interface", CATEGORY_REQUIRED, true)
    } else if index == 1 {
        make_extension("fpm", "FPM", "FastCGI Process Manager for web servers", CATEGORY_REQUIRED, true)
    } else if index == 2 {
        make_extension("common", "Common", "Common files and documentation", CATEGORY_REQUIRED, true)
    } else if index == 3 {
        make_extension("mysql", "MySQL", "MySQL/MariaDB database support", CATEGORY_RECOMMENDED, true)
    } else if index == 4 {
        make_extension("curl", "cURL", "HTTP client library", CATEGORY_RECOMMENDED, true)
    } else if index == 5 {
        make_extension("mbstring", "Mbstring", "Multibyte string handling", CATEGORY_RECOMMENDED, true)
    } else if index == 6 {
        make_extension("xml", "XML", "XML parsing and manipulation", CATEGORY_RECOMMENDED, true)
    } else if index == 7 {
        make_extension("zip", "Zip", "Zip archive support", CATEGORY_RECOMMENDED, true)
    } else if index == 8 {
        make_extension("bcmath", "BCMath", "Arbitrary precision mathematics", CATEGORY_RECOMMENDED, true)
    } else if index == 9 {
        make_extension("gd", "GD", "Image processing library", CATEGORY_OPTIONAL, false)
    } else if index == 10 {
        make_extension("intl", "Intl", "Internationalization support", CATEGORY_OPTIONAL, false)
    } else if index == 11 {
        make_extension("redis", "Redis", "Redis cache/session driver", CATEGORY_OPTIONAL, false)
    } else if index == 12 {
        make_extension("pgsql", "PostgreSQL", "PostgreSQL database support", CATEGORY_OPTIONAL, false)
    } else if index == 13 {
        make_extension("sqlite3", "SQLite3", "SQLite database support", CATEGORY_OPTIONAL, false)
    } else if index == 14 {
        make_extension("imagick", "Imagick", "ImageMagick image processing", CATEGORY_OPTIONAL, false)
    } else if index == 15 {
        make_extension("soap", "SOAP", "SOAP web services support", CATEGORY_OPTIONAL, false)
    } else if index == 16 {
        make_extension("ldap", "LDAP", "LDAP directory support", CATEGORY_OPTIONAL, false)
    } else {
        make_extension("xdebug", "Xdebug", "Debugging and profiling", CATEGORY_OPTIONAL, false)
    }
}

/// The extensions that can be installed with a PHP version.
pub fn get_php_extensions() -> (r: Vec<PhpExtension>)
    ensures
        extension_views(r@) == offered_extensions(),
{
    let mut out: Vec<PhpExtension> = Vec::new();
    let mut i: usize = 0;
    while i < EXTENSION_COUNT
        invariant
            i <= EXTENSION_COUNT,
            extension_views(out@) == offered_extensions().take(i as int),
        decreases EXTENSION_COUNT - i,
    {
        let ghost before = extension_views(out@);
        let next = extension_at(i);
        out.push(next);
        assert(extension_views(out@) =~= before.push(offered_extension(i as int)));
        assert(extension_views(out@) =~= offered_extensions().take(i + 1));
        i += 1;
    }
    assert(offered_extensions().take(EXTENSION_COUNT as int) =~= offered_extensions());
    out
}

// ---------------------------------------------------------------------------
// Steps the user is told about
// ---------------------------------------------------------------------------
pub const STATUS_RUNNING: &'static str = "running";

pub const STATUS_COMPLETE: &'static str = "complete";

pub const STATUS_ERROR: &'static str = "error";

pub const INSTALL_EVENT: &'static str = "php-install-progress";

pub const UNINSTALL_EVENT: &'static str = "php-uninstall-progress";

pub const PPA_EVENT: &'static str = "ppa-progress";

/// What follows the announcements of a step.
#[derive(Debug, PartialEq, Eq)]
pub enum StepAction {
    /// Run this command, then report what became of it.
    Run(Invocation),
    /// Stop: the request is refused.
    Refuse(Error),
}

/// One step of an installation: what the user is told, in order, and what
/// is done then.
#[derive(Debug, PartialEq, Eq)]
pub struct Step {
    pub announce: Vec<InstallProgress>,
    pub action: StepAction,
}

/// The end of a step: what the user is told, if anything, and how the
/// installation goes on. `Ok(None)` means that the next step follows,
/// `Ok(Some(..))` that the installation is done, with the sentence to show.
#[derive(Debug, PartialEq, Eq)]
pub struct StepEnd {
    pub announce: Option<InstallProgress>,
    pub result: Result<Option<String>, Error>,
}

/// The models of a list of announcements, in the same order.
pub open spec fn progress_views(list: Seq<InstallProgress>) -> Seq<InstallProgressView> {
    Seq::new(list.len(), |i: int| list[i]@)
}

/// An announcement, from its parts.
pub open spec fn progress(step: Seq<char>, current: u8, total: u8, status: Seq<char>)
    -> InstallProgressView {
    InstallProgressView { step: step, current_step: current, total_steps: total, status: status }
}

fn announce(step: String, current: u8, total: u8, status: &str) -> (r: InstallProgress)
    ensures
        r@ == progress(step@, current, total, status@),
{
    InstallProgress { step, current_step: current, total_steps: total, status: status.to_string() }
}

// ---------------------------------------------------------------------------
// Installing and removing versions
// ---------------------------------------------------------------------------
pub const PKEXEC: &'static str = "pkexec";

pub const APT_GET: &'static str = "apt-get";

pub const DNF: &'static str = "dnf";

pub const PACMAN: &'static str = "pacman";

pub const ARG_INSTALL: &'static str = "install";

pub const ARG_REMOVE: &'static str = "remove";

pub const ARG_PURGE: &'static str = "--purge";

pub const ARG_YES: &'static str = "-y";

pub const ARG_SYNC: &'static str = "-S";

pub const ARG_REMOVE_RECURSIVE: &'static str = "-Rns";

pub const ARG_NO_CONFIRM: &'static str = "--noconfirm";

pub const PHP: &'static str = "php";

pub const DOT: &'static str = ".";

pub const DASH: &'static str = "-";

pub const DASH_PHP_DASH: &'static str = "-php-";

pub const STAR: &'static str = "*";

pub const INSTALL_CONTEXT: &'static str = "Failed to install PHP";

pub const UNINSTALL_CONTEXT: &'static str = "Failed to uninstall PHP";

pub const PHP_SPACE: &'static str = "PHP ";

pub const INSTALLED: &'static str = " installed successfully";

pub const INSTALLED_WITH: &'static str = " installed successfully with extensions: ";

pub const INSTALLED_BANG: &'static str = " installed successfully!";

pub const UNINSTALLED: &'static str = " uninstalled successfully";

pub const REMOVED_BANG: &'static str = " removed successfully!";

pub const PREPARING_OPEN: &'static str = "Preparing PHP ";

pub const PREPARING_CLOSE: &'static str = " installation...";

pub const INSTALLING_OPEN: &'static str = "Installing ";

pub const INSTALLING_CLOSE: &'static str = " packages...";

pub const REMOVING_OPEN: &'static str = "Removing PHP ";

pub const ELLIPSIS: &'static str = "...";

pub const INSTALL_FAILED: &'static str = "Installation failed";

pub const UNINSTALL_FAILED: &'static str = "Uninstall failed";

pub const LIST_SEPARATOR: &'static str = ", ";

/// A version without its dots.
pub open spec fn compact(version: Seq<char>) -> Seq<char> {
    replace_all(version, DOT@, Seq::empty())
}

/// A version without its dots.
pub fn compact_version(version: &str) -> (r: String)
    ensures
        r@ == compact(version@),
{
    let nothing = String::new();
    replace(version, DOT, nothing.as_str())
}

/// The packages of the usual extensions of a PHP version for `apt`.
pub open spec fn usual_packages(version: Seq<char>) -> Seq<Seq<char>> {
    seq![
        PHP@ + version,
        PHP@ + version + "-cli"@,
        PHP@ + version + "-fpm"@,
        PHP@ + version + "-common"@,
        PHP@ + version + "-mysql"@,
        PHP@ + version + "-xml"@,
        PHP@ + version + "-curl"@,
        PHP@ + version + "-mbstring"@,
    ]
}

/// The arguments with which a package manager installs a PHP version with
/// its usual extensions; none for `zypper`, which is not supported for PHP.
pub open spec fn install_args(manager: PackageManager, version: Seq<char>) -> Option<
    Seq<Seq<char>>,
> {
    match manager {
        PackageManager::Apt => Some(seq![APT_GET@, ARG_INSTALL@, ARG_YES@] + usual_packages(version)),
        PackageManager::Dnf => Some(seq![DNF@, ARG_INSTALL@, ARG_YES@, PHP@ + compact(version)]),
        PackageManager::Pacman => Some(seq![PACMAN@, ARG_SYNC@, ARG_NO_CONFIRM@, PHP@]),
        PackageManager::Zypper => None,
    }
}

/// The arguments with which `package_manager` installs a PHP version, if
/// it is one that can.
pub open spec fn named_install_args(package_manager: Seq<char>, version: Seq<char>) -> Option<
    Seq<Seq<char>>,
> {
    match PackageManager::named(package_manager) {
        Some(manager) => install_args(manager, version),
        None => None,
    }
}

fn php_package(version: &str, suffix: &str) -> (r: String)
    ensures
        r@ == PHP@ + version@ + suffix@,
{
    PHP.to_string().concat(version).concat(suffix)
}

/// The command that installs the PHP version `version` with its usual
/// extensions, with elevated privileges. A package manager other than
/// `apt`, `dnf` and `pacman` is refused with a message that names it.
pub fn install_php_command(version: &str, package_manager: &str) -> (r: Result<Invocation, Error>)
    ensures
        match named_install_args(package_manager@, version@) {
            Some(args) => r matches Ok(command) && command@ == (InvocationView {
                program: PKEXEC@,
                args: args,
                dir: None,
            }),
            None => r matches Err(Error::Unsupported(m)) && m@ == explained(
                UNSUPPORTED_MANAGER@,
                package_manager@,
            ),
        },
{
    let mut args: Vec<String> = Vec::new();
    match PackageManager::parse(package_manager) {
        Some(PackageManager::Apt) => {
            push_str(&mut args, APT_GET);
            push_str(&mut args, ARG_INSTALL);
            push_str(&mut args, ARG_YES);
            push_text(&mut args, PHP.to_string().concat(version));
            push_text(&mut args, php_package(version, "-cli"));
            push_text(&mut args, php_package(version, "-fpm"));
            push_text(&mut args, php_package(version, "-common"));
            push_text(&mut args, php_package(version, "-mysql"));
            push_text(&mut args, php_package(version, "-xml"));
            push_text(&mut args, php_package(version, "-curl"));
            push_text(&mut args, php_package(version, "-mbstring"));
            assert(texts(args@) =~= seq![APT_GET@, ARG_INSTALL@, ARG_YES@] + usual_packages(
                version@,
            ));
            Ok(invoke(PKEXEC, args))
        },
        Some(PackageManager::Dnf) => {
            let short = compact_version(version);
            push_str(&mut args, DNF);
            push_str(&mut args, ARG_INSTALL);
            push_str(&mut args, ARG_YES);
            push_text(&mut args, PHP.to_string().concat(short.as_str()));
            assert(texts(args@) =~= seq![DNF@, ARG_INSTALL@, ARG_YES@, PHP@ + compact(version@)]);
            Ok(invoke(PKEXEC, args))
        },
        Some(PackageManager::Pacman) => {
            push_str(&mut args, PACMAN);
            push_str(&mut args, ARG_SYNC);
            push_str(&mut args, ARG_NO_CONFIRM);
            push_str(&mut args, PHP);
            assert(texts(args@) =~= seq![PACMAN@, ARG_SYNC@, ARG_NO_CONFIRM@, PHP@]);
            Ok(invoke(PKEXEC, args))
        },
        _ => Err(Error::Unsupported(explain(UNSUPPORTED_MANAGER, package_manager))),
    }
}

/// What became of installing a PHP version: a sentence that names the
/// version where the command succeeded, the failure otherwise.
pub fn install_php_version(version: &str, report: RunReport) -> (r: Result<String, Error>)
    ensures
        match outcome(report, INSTALL_CONTEXT@, false) {
            Ok(_) => r matches Ok(text) && text@ == PHP_SPACE@ + version@ + INSTALLED@,
            Err(failure) => r matches Err(e) && is_failure(e, failure),
        },
{
    match require_success(report, INSTALL_CONTEXT, false) {
        Ok(_) => Ok(PHP_SPACE.to_string().concat(version).concat(INSTALLED)),
        Err(e) => Err(e),
    }
}

/// The packages of a PHP version and of the extensions asked for: for
/// `apt` the version and `php<version>-<extension>`, for `dnf` the same on
/// the version without dots, with `-php-` before the extension, for `pacman`
/// `php` and `php-<extension>`.
pub open spec fn packages_for(
    manager: PackageManager,
    version: Seq<char>,
    extensions: Seq<Seq<char>>,
) -> Option<Seq<Seq<char>>> {
    match manager {
        PackageManager::Apt => Some(
            seq![PHP@ + version] + Seq::new(
                extensions.len(),
                |i: int| PHP@ + version + DASH@ + extensions[i],
            ),
        ),
        PackageManager::Dnf => Some(
            seq![PHP@ + compact(version)] + Seq::new(
                extensions.len(),
                |i: int| PHP@ + compact(version) + DASH_PHP_DASH@ + extensions[i],
            ),
        ),
        PackageManager::Pacman => Some(
            seq![PHP@] + Seq::new(extensions.len(), |i: int| PHP@ + DASH@ + extensions[i]),
        ),
        PackageManager::Zypper => None,
    }
}

/// The words with which a package manager is told to install.
pub open spec fn install_verb(manager: PackageManager) -> Seq<Seq<char>> {
    match manager {
        PackageManager::Apt => seq![APT_GET@, ARG_INSTALL@, ARG_YES@],
        PackageManager::Dnf => seq![DNF@, ARG_INSTALL@, ARG_YES@],
        PackageManager::Pacman => seq![PACMAN@, ARG_SYNC@, ARG_NO_CONFIRM@],
        PackageManager::Zypper => Seq::empty(),
    }
}

fn extension_packages(head: &str, extensions: &Vec<String>) -> (r: Vec<String>)
    ensures
        texts(r@) == Seq::new(extensions@.len(), |i: int| head@ + extensions@[i]@),
{
    let mut out: Vec<String> = Vec::new();
    let mut i: usize = 0;
    while i < extensions.len()
        invariant
            i <= extensions.len(),
            texts(out@) == Seq::new(i as nat, |k: int| head@ + extensions@[k]@),
        decreases extensions.len() - i,
    {
        let ghost before = texts(out@);
        push_text(&mut out, head.to_string().concat(extensions[i].as_str()));
        assert(before.push(head@ + extensions@[i as int]@) =~= Seq::new(
            (i + 1) as nat,
            |k: int| head@ + extensions@[k]@,
        ));
        i += 1;
    }
    out
}

/// The packages of a PHP version and of the extensions asked for; see
/// [`packages_for`].
pub fn php_packages(manager: PackageManager, version: &str, extensions: &Vec<String>) -> (r: Option<
    Vec<String>,
>)
    ensures
        match packages_for(manager, version@, texts(extensions@)) {
            Some(packages) => r matches Some(found) && texts(found@) == packages,
            None => r is None,
        },
{
    let (base, head) = match manager {
        PackageManager::Apt => {
            let base = PHP.to_string().concat(version);
            let head = base.clone().concat(DASH);
            (base, head)
        },
        PackageManager::Dnf => {
            let short = compact_version(version);
            let base = PHP.to_string().concat(short.as_str());
            let head = base.clone().concat(DASH_PHP_DASH);
            (base, head)
        },
        PackageManager::Pacman => {
            let base = PHP.to_string();
            let head = base.clone().concat(DASH);
            (base, head)
        },
        PackageManager::Zypper => {
            return None;
        },
    };
    let mut packages: Vec<String> = Vec::new();
    push_text(&mut packages, base);
    let more = extension_packages(head.as_str(), extensions);
    extend_texts(&mut packages, &more);
    proof {
        let want = packages_for(manager, version@, texts(extensions@))->0;
        assert(texts(packages@) =~= want);
    }
    Some(packages)
}

/// What the user is told before the packages are installed.
pub open spec fn preparing(version: Seq<char>) -> InstallProgressView {
    progress(PREPARING_OPEN@ + version + PREPARING_CLOSE@, 1, 3, STATUS_RUNNING@)
}

/// What the user is told when the packages are about to be installed.
pub open spec fn installing(count: nat) -> InstallProgressView {
    progress(INSTALLING_OPEN@ + decimal(count) + INSTALLING_CLOSE@, 2, 3, STATUS_RUNNING@)
}

/// The step that installs the PHP version `version` with the extensions
/// asked for.
///
/// The user is told that the installation is prepared. A package manager
/// other than `apt`, `dnf` and `pacman` is then refused, and the user told
/// so. Otherwise the user is told how many packages are installed, and the
/// command installs them with elevated privileges.
pub fn install_with_extensions_step(version: &str, extensions: &Vec<String>, package_manager: &str) -> (r:
    Step)
    ensures
        match PackageManager::named(package_manager@) {
            Some(manager) => match packages_for(manager, version@, texts(extensions@)) {
                Some(packages) => {
                    &&& progress_views(r.announce@) == seq![
                        preparing(version@),
                        installing(packages.len()),
                    ]
                    &&& r.action matches StepAction::Run(command) && command@ == (InvocationView {
                        program: PKEXEC@,
                        args: install_verb(manager) + packages,
                        dir: None,
                    })
                },
                None => refuses_manager(r, preparing(version@), 1, 3, package_manager@),
            },
            None => refuses_manager(r, preparing(version@), 1, 3, package_manager@),
        },
{
    let first = announce(
        PREPARING_OPEN.to_string().concat(version).concat(PREPARING_CLOSE),
        1,
        3,
        STATUS_RUNNING,
    );
    let packages = match PackageManager::parse(package_manager) {
        Some(manager) => match php_packages(manager, version, extensions) {
            Some(packages) => Some((manager, packages)),
            None => None,
        },
        None => None,
    };
    match packages {
        None => refuse_manager(first, 1, 3, package_manager),
        Some((manager, packages)) => {
            let count = packages.len();
            let second = announce(
                INSTALLING_OPEN.to_string().concat(decimal_string(count as u64).as_str()).concat(
                    INSTALLING_CLOSE,
                ),
                2,
                3,
                STATUS_RUNNING,
            );
            let mut args: Vec<String> = Vec::new();
            match manager {
                PackageManager::Apt => {
                    push_str(&mut args, APT_GET);
                    push_str(&mut args, ARG_INSTALL);
                    push_str(&mut args, ARG_YES);
                },
                PackageManager::Dnf => {
                    push_str(&mut args, DNF);
                    push_str(&mut args, ARG_INSTALL);
                    push_str(&mut args, ARG_YES);
                },
                _ => {
                    push_str(&mut args, PACMAN);
                    push_str(&mut args, ARG_SYNC);
                    push_str(&mut args, ARG_NO_CONFIRM);
                },
            }
            assert(texts(args@) =~= install_verb(manager));
            extend_texts(&mut args, &packages);
            let mut told: Vec<InstallProgress> = Vec::new();
            told.push(first);
            told.push(second);
            assert(progress_views(told@) =~= seq![
                preparing(version@),
                installing(packages@.len() as nat),
            ]);
            Step { announce: told, action: StepAction::Run(invoke(PKEXEC, args)) }
        },
    }
}

/// Whether a step tells the user `first`, then that the package manager is
/// not supported, and refuses the request with a message that names the
/// package manager.
pub open spec fn refuses_manager(
    step: Step,
    first: InstallProgressView,
    current: u8,
    total: u8,
    package_manager: Seq<char>,
) -> bool {
    &&& progress_views(step.announce@) == seq![
        first,
        progress(UNSUPPORTED_MANAGER@, current, total, STATUS_ERROR@),
    ]
    &&& step.action matches StepAction::Refuse(Error::Unsupported(m)) && m@ == explained(
        UNSUPPORTED_MANAGER@,
        package_manager,
    )
}

fn refuse_manager(first: InstallProgress, current: u8, total: u8, package_manager: &str) -> (r: Step)
    ensures
        refuses_manager(r, first@, current, total, package_manager@),
{
    let second = announce(UNSUPPORTED_MANAGER.to_string(), current, total, STATUS_ERROR);
    let mut told: Vec<InstallProgress> = Vec::new();
    told.push(first);
    told.push(second);
    assert(progress_views(told@) =~= seq![
        first@,
        progress(UNSUPPORTED_MANAGER@, current, total, STATUS_ERROR@),
    ]);
    Step {
        announce: told,
        action: StepAction::Refuse(
            Error::Unsupported(explain(UNSUPPORTED_MANAGER, package_manager)),
        ),
    }
}

/// The model of an optional announcement.
pub open spec fn told(announce: Option<InstallProgress>) -> Option<InstallProgressView> {
    match announce {
        Some(p) => Some(p@),
        None => None,
    }
}

/// The end of the installation of a PHP version with extensions.
///
/// Where the packages were installed the user is told so, and the result
/// is a sentence that names the version and the extensions. Where the
/// command failed, or could not be started, the user is told that the
/// installation failed and the result is the failure.
pub fn install_php_with_extensions(version: &str, extensions: &Vec<String>, report: RunReport) -> (r:
    StepEnd)
    ensures
        match report {
            RunReport::NotStarted(cause) => {
                &&& told(r.announce) == Some(progress(INSTALL_FAILED@, 2, 3, STATUS_ERROR@))
                &&& r.result matches Err(Error::CommandNotStarted(m)) && m@ == explained(
                    INSTALL_CONTEXT@,
                    cause@,
                )
            },
            RunReport::Finished { success, stderr, .. } => if success {
                &&& told(r.announce) == Some(
                    progress(PHP_SPACE@ + version@ + INSTALLED_BANG@, 3, 3, STATUS_COMPLETE@),
                )
                &&& r.result matches Ok(Some(text)) && text@ == PHP_SPACE@ + version@
                    + INSTALLED_WITH@ + joined(texts(extensions@), LIST_SEPARATOR@)
            } else {
                &&& told(r.announce) == Some(progress(INSTALL_FAILED@, 3, 3, STATUS_ERROR@))
                &&& r.result matches Err(Error::CommandFailed(m)) && m@ == stderr@
            },
        },
{
    match report {
        RunReport::NotStarted(cause) => StepEnd {
            announce: Some(announce(INSTALL_FAILED.to_string(), 2, 3, STATUS_ERROR)),
            result: Err(Error::CommandNotStarted(explain(INSTALL_CONTEXT, cause.as_str()))),
        },
        RunReport::Finished { success, stdout: _, stderr } => {
            if success {
                let list = join(extensions, LIST_SEPARATOR);
                StepEnd {
                    announce: Some(
                        announce(
                            PHP_SPACE.to_string().concat(version).concat(INSTALLED_BANG),
                            3,
                            3,
                            STATUS_COMPLETE,
                        ),
                    ),
                    result: Ok(
                        Some(
                            PHP_SPACE.to_string().concat(version).concat(INSTALLED_WITH).concat(
                                list.as_str(),
                            ),
                        ),
                    ),
                }
            } else {
                StepEnd {
                    announce: Some(announce(INSTALL_FAILED.to_string(), 3, 3, STATUS_ERROR)),
                    result: Err(Error::CommandFailed(stderr)),
                }
            }
        },
    }
}

/// The arguments with which a package manager removes a PHP version and
/// all its packages; none for `zypper`.
pub open spec fn uninstall_args(manager: PackageManager, version: Seq<char>) -> Option<
    Seq<Seq<char>>,
> {
    match manager {
        PackageManager::Apt => Some(
            seq![APT_GET@, ARG_REMOVE@, ARG_PURGE@, ARG_YES@, PHP@ + version + STAR@],
        ),
        PackageManager::Dnf => Some(seq![DNF@, ARG_REMOVE@, ARG_YES@, PHP@ + compact(version) + STAR@]),
        PackageManager::Pacman => Some(seq![PACMAN@, ARG_REMOVE_RECURSIVE@, ARG_NO_CONFIRM@, PHP@]),
        PackageManager::Zypper => None,
    }
}

/// What the user is told when a version is about to be removed.
pub open spec fn removing(version: Seq<char>) -> InstallProgressView {
    progress(REMOVING_OPEN@ + version + ELLIPSIS@, 1, 2, STATUS_RUNNING@)
}

/// The arguments with which `package_manager` removes a PHP version, if it
/// is one that can.
pub open spec fn named_uninstall_args(package_manager: Seq<char>, version: Seq<char>) -> Option<
    Seq<Seq<char>>,
> {
    match PackageManager::named(package_manager) {
        Some(manager) => uninstall_args(manager, version),
        None => None,
    }
}

/// The step that removes the PHP version `version`: the user is told that
/// it is removed; then a package manager other than `apt`, `dnf` and
/// `pacman` is refused, and the user told so; otherwise the command removes
/// the packages with elevated privileges.
pub fn uninstall_step(version: &str, package_manager: &str) -> (r: Step)
    ensures
        match named_uninstall_args(package_manager@, version@) {
            Some(args) => {
                &&& progress_views(r.announce@) == seq![removing(version@)]
                &&& r.action matches StepAction::Run(command) && command@ == (InvocationView {
                    program: PKEXEC@,
                    args: args,
                    dir: None,
                })
            },
            None => refuses_manager(r, removing(version@), 1, 2, package_manager@),
        },
{
    let first = announce(
        REMOVING_OPEN.to_string().concat(version).concat(ELLIPSIS),
        1,
        2,
        STATUS_RUNNING,
    );
    let mut args: Vec<String> = Vec::new();
    match PackageManager::parse(package_manager) {
        Some(PackageManager::Apt) => {
            push_str(&mut args, APT_GET);
            push_str(&mut args, ARG_REMOVE);
            push_str(&mut args, ARG_PURGE);
            push_str(&mut args, ARG_YES);
            push_text(&mut args, PHP.to_string().concat(version).concat(STAR));
            assert(texts(args@) =~= seq![
                APT_GET@,
                ARG_REMOVE@,
                ARG_PURGE@,
                ARG_YES@,
                PHP@ + version@ + STAR@,
            ]);
        },
        Some(PackageManager::Dnf) => {
            let short = compact_version(version);
            push_str(&mut args, DNF);
            push_str(&mut args, ARG_REMOVE);
            push_str(&mut args, ARG_YES);
            push_text(&mut args, PHP.to_string().concat(short.as_str()).concat(STAR));
            assert(texts(args@) =~= seq![
                DNF@,
                ARG_REMOVE@,
                ARG_YES@,
                PHP@ + compact(version@) + STAR@,
            ]);
        },
        Some(PackageManager::Pacman) => {
            push_str(&mut args, PACMAN);
            push_str(&mut args, ARG_REMOVE_RECURSIVE);
            push_str(&mut args, ARG_NO_CONFIRM);
            push_str(&mut args, PHP);
            assert(texts(args@) =~= seq![PACMAN@, ARG_REMOVE_RECURSIVE@, ARG_NO_CONFIRM@, PHP@]);
        },
        _ => {
            return refuse_manager(first, 1, 2, package_manager);
        },
    }
    let mut told: Vec<InstallProgress> = Vec::new();
    told.push(first);
    assert(progress_views(told@) =~= seq![removing(version@)]);
    Step { announce: told, action: StepAction::Run(invoke(PKEXEC, args)) }
}

/// The end of the removal of a PHP version: where the packages were
/// removed the user is told so and the result is a sentence that names the
/// version; otherwise the user is told that the removal failed and the
/// result is the failure.
pub fn uninstall_php_version(version: &str, report: RunReport) -> (r: StepEnd)
    ensures
        match report {
            RunReport::NotStarted(cause) => {
                &&& told(r.announce) == Some(progress(UNINSTALL_FAILED@, 1, 2, STATUS_ERROR@))
                &&& r.result matches Err(Error::CommandNotStarted(m)) && m@ == explained(
                    UNINSTALL_CONTEXT@,
                    cause@,
                )
            },
            RunReport::Finished { success, stderr, .. } => if success {
                &&& told(r.announce) == Some(
                    progress(PHP_SPACE@ + version@ + REMOVED_BANG@, 2, 2, STATUS_COMPLETE@),
                )
                &&& r.result matches Ok(Some(text)) && text@ == PHP_SPACE@ + version@
                    + UNINSTALLED@
            } else {
                &&& told(r.announce) == Some(progress(UNINSTALL_FAILED@, 2, 2, STATUS_ERROR@))
                &&& r.result matches Err(Error::CommandFailed(m)) && m@ == stderr@
            },
        },
{
    match report {
        RunReport::NotStarted(cause) => StepEnd {
            announce: Some(announce(UNINSTALL_FAILED.to_string(), 1, 2, STATUS_ERROR)),
            result: Err(Error::CommandNotStarted(explain(UNINSTALL_CONTEXT, cause.as_str()))),
        },
        RunReport::Finished { success, stdout: _, stderr } => {
            if success {
                StepEnd {
                    announce: Some(
                        announce(
                            PHP_SPACE.to_string().concat(version).concat(REMOVED_BANG),
                            2,
                            2,
                            STATUS_COMPLETE,
                        ),
                    ),
                    result: Ok(Some(PHP_SPACE.to_string().concat(version).concat(UNINSTALLED))),
                }
            } else {
                StepEnd {
                    announce: Some(announce(UNINSTALL_FAILED.to_string(), 2, 2, STATUS_ERROR)),
                    result: Err(Error::CommandFailed(stderr)),
                }
            }
        },
    }
}

// ---------------------------------------------------------------------------
// The package archive
// ---------------------------------------------------------------------------
pub const GREP: &'static str = "grep";

pub const ARG_RECURSIVE: &'static str = "-r";

pub const PPA_NAME: &'static str = "ondrej/php";

pub const PPA_OWNER: &'static str = "ondrej";

pub const SOURCES_DIR: &'static str = "/etc/apt/sources.list.d/";

pub const PPA_ADD_COMMAND: &'static str =
    "sudo add-apt-repository ppa:ondrej/php -y && sudo apt update";

pub const PROPERTIES_PACKAGE: &'static str = "software-properties-common";

pub const ADD_REPOSITORY: &'static str = "add-apt-repository";

pub const PPA_SOURCE: &'static str = "ppa:ondrej/php";

pub const ARG_UPDATE: &'static str = "update";

pub const PPA_STEPS: u8 = 3;

pub const PPA_ANNOUNCE_FIRST: &'static str = "Installing software-properties-common...";

pub const PPA_ANNOUNCE_SECOND: &'static str = "Adding PPA ondrej/php...";

pub const PPA_ANNOUNCE_THIRD: &'static str = "Updating package lists...";

pub const PPA_FAILED_FIRST: &'static str = "Failed to install prerequisites";

pub const PPA_FAILED_FIRST_RUN: &'static str = "Failed to install software-properties-common";

pub const PPA_FAILED_SECOND: &'static str = "Failed to add PPA";

pub const PPA_FAILED_THIRD: &'static str = "Failed to update apt";

pub const PPA_ADDED: &'static str = "PPA added successfully";

pub const PPA_DONE: &'static str = "PPA ondrej/php added successfully";

/// The command that looks for the archive in the package sources.
pub fn ppa_search_command() -> (r: Invocation)
    ensures
        r@ == (InvocationView {
            program: GREP@,
            args: seq![ARG_RECURSIVE@, PPA_NAME@, SOURCES_DIR@],
            dir: None,
        }),
{
    let mut args: Vec<String> = Vec::new();
    push_str(&mut args, ARG_RECURSIVE);
    push_str(&mut args, PPA_NAME);
    push_str(&mut args, SOURCES_DIR);
    assert(texts(args@) =~= seq![ARG_RECURSIVE@, PPA_NAME@, SOURCES_DIR@]);
    invoke(GREP, args)
}

/// Whether one of the names mentions the owner of the archive.
pub open spec fn names_owner(names: Seq<Seq<char>>) -> bool {
    exists|i: int| 0 <= i < names.len() && contains(#[trigger] names[i], PPA_OWNER@)
}

/// Whether the package archive for PHP is set up: the search of the
/// package sources found it, or one of the source files is named after its
/// owner. `source_files` are the names of the files in the directory of
/// package sources.
pub fn check_php_ppa(search: &RunReport, source_files: &Vec<String>) -> (r: PpaStatus)
    ensures
        r@ == (PpaStatusView {
            installed: search.succeeded() || names_owner(texts(source_files@)),
            name: PPA_NAME@,
            add_command: PPA_ADD_COMMAND@,
        }),
{
    let owner = to_chars(PPA_OWNER);
    let mut named = false;
    let mut i: usize = 0;
    while i < source_files.len()
        invariant
            i <= source_files.len(),
            owner@ == PPA_OWNER@,
            named == names_owner(texts(source_files@).take(i as int)),
        decreases source_files.len() - i,
    {
        let ghost before = texts(source_files@).take(i as int);
        let ghost after = texts(source_files@).take(i + 1);
        let name = to_chars(source_files[i].as_str());
        let here = has_substring(&name, &owner);
        proof {
            assert(after[i as int] == source_files@[i as int]@);
            if named {
                let k = choose|k: int|
                    0 <= k < before.len() && contains(#[trigger] before[k], PPA_OWNER@);
                assert(after[k] == before[k]);
            }
            if names_owner(after) && !here {
                let k = choose|k: int|
                    0 <= k < after.len() && contains(#[trigger] after[k], PPA_OWNER@);
                assert(before[k] == after[k]);
            }
        }
        named = named || here;
        i += 1;
    }
    assert(texts(source_files@).take(source_files@.len() as int) =~= texts(source_files@));
    PpaStatus {
        installed: search.is_success() || named,
        name: PPA_NAME.to_string(),
        add_command: PPA_ADD_COMMAND.to_string(),
    }
}

/// What the user is told when step `step` of adding the archive begins.
pub open spec fn ppa_announcement(step: u8) -> InstallProgressView {
    progress(
        if step == 1 {
            PPA_ANNOUNCE_FIRST@
        } else if step == 2 {
            PPA_ANNOUNCE_SECOND@
        } else {
            PPA_ANNOUNCE_THIRD@
        },
        step,
        PPA_STEPS,
        STATUS_RUNNING@,
    )
}

/// The arguments of step `step` of adding the archive: install the tool
/// that adds archives, add the archive, read the package lists again.
pub open spec fn ppa_args(step: u8) -> Seq<Seq<char>> {
    if step == 1 {
        seq![APT_GET@, ARG_INSTALL@, ARG_YES@, PROPERTIES_PACKAGE@]
    } else if step == 2 {
        seq![ADD_REPOSITORY@, PPA_SOURCE@, ARG_YES@]
    } else {
        seq![APT_GET@, ARG_UPDATE@]
    }
}

/// Step `step` of adding the package archive, for the steps 1 to 3; there
/// is no other step.
pub fn ppa_step(step: u8) -> (r: Option<Step>)
    ensures
        match r {
            Some(found) => {
                &&& 1 <= step <= PPA_STEPS
                &&& progress_views(found.announce@) == seq![ppa_announcement(step)]
                &&& found.action matches StepAction::Run(command) && command@ == (InvocationView {
                    program: PKEXEC@,
                    args: ppa_args(step),
                    dir: None,
                })
            },
            None => !(1 <= step <= PPA_STEPS),
        },
{
    if step < 1 || step > PPA_STEPS {
        return None;
    }
    let mut args: Vec<String> = Vec::new();
    let words = if step == 1 {
        push_str(&mut args, APT_GET);
        push_str(&mut args, ARG_INSTALL);
        push_str(&mut args, ARG_YES);
        push_str(&mut args, PROPERTIES_PACKAGE);
        PPA_ANNOUNCE_FIRST
    } else if step == 2 {
        push_str(&mut args, ADD_REPOSITORY);
        push_str(&mut args, PPA_SOURCE);
        push_str(&mut args, ARG_YES);
        PPA_ANNOUNCE_SECOND
    } else {
        push_str(&mut args, APT_GET);
        push_str(&mut args, ARG_UPDATE);
        PPA_ANNOUNCE_THIRD
    };
    assert(texts(args@) =~= ppa_args(step));
    let mut told: Vec<InstallProgress> = Vec::new();
    told.push(announce(words.to_string(), step, PPA_STEPS, STATUS_RUNNING));
    assert(progress_views(told@) =~= seq![ppa_announcement(step)]);
    Some(Step { announce: told, action: StepAction::Run(invoke(PKEXEC, args)) })
}

/// What the user is told when step `step` of adding the archive failed.
pub open spec fn ppa_failure(step: u8) -> Seq<char> {
    if step == 1 {
        PPA_FAILED_FIRST@
    } else if step == 2 {
        PPA_FAILED_SECOND@
    } else {
        PPA_FAILED_THIRD@
    }
}

/// The end of step `step` of adding the package archive.
///
/// A step that succeeded leads to the next one; the third one (and any
/// step after it) ends the whole, the user is told that the archive was
/// added, and the result is a sentence saying so. A step that failed, or could not be started, ends
/// the whole too: the user is told which step failed and the result is the
/// failure; for the first step its error stream comes under a heading.
pub fn add_php_ppa(step: u8, report: RunReport) -> (r: StepEnd)
    ensures
        match report {
            RunReport::NotStarted(cause) => {
                &&& told(r.announce) == Some(
                    progress(ppa_failure(step), step, PPA_STEPS, STATUS_ERROR@),
                )
                &&& r.result matches Err(Error::CommandNotStarted(m)) && m@ == explained(
                    ppa_failure(step),
                    cause@,
                )
            },
            RunReport::Finished { success, stderr, .. } => if !success {
                &&& told(r.announce) == Some(
                    progress(ppa_failure(step), step, PPA_STEPS, STATUS_ERROR@),
                )
                &&& r.result matches Err(Error::CommandFailed(m)) && m@ == (if step == 1 {
                    explained(PPA_FAILED_FIRST_RUN@, stderr@)
                } else {
                    stderr@
                })
            } else if step >= PPA_STEPS {
                &&& told(r.announce) == Some(progress(PPA_ADDED@, step, PPA_STEPS, STATUS_COMPLETE@))
                &&& r.result matches Ok(Some(text)) && text@ == PPA_DONE@
            } else {
                &&& r.announce is None
                &&& r.result == Ok::<Option<String>, Error>(None)
            },
        },
{
    let failure = if step == 1 {
        PPA_FAILED_FIRST
    } else if step == 2 {
        PPA_FAILED_SECOND
    } else {
        PPA_FAILED_THIRD
    };
    match report {
        RunReport::NotStarted(cause) => StepEnd {
            announce: Some(announce(failure.to_string(), step, PPA_STEPS, STATUS_ERROR)),
            result: Err(Error::CommandNotStarted(explain(failure, cause.as_str()))),
        },
        RunReport::Finished { success, stdout: _, stderr } => {
            if !success {
                let message = if step == 1 {
                    explain(PPA_FAILED_FIRST_RUN, stderr.as_str())
                } else {
                    stderr
                };
                StepEnd {
                    announce: Some(announce(failure.to_string(), step, PPA_STEPS, STATUS_ERROR)),
                    result: Err(Error::CommandFailed(message)),
                }
            } else if step >= PPA_STEPS {
                StepEnd {
                    announce: Some(
                        announce(PPA_ADDED.to_string(), step, PPA_STEPS, STATUS_COMPLETE),
                    ),
                    result: Ok(Some(PPA_DONE.to_string())),
                }
            } else {
                StepEnd { announce: None, result: Ok(None) }
            }
        },
    }
}

// ---------------------------------------------------------------------------
// Switching the active version
// ---------------------------------------------------------------------------
pub const PHP_BINARY: &'static str = "/usr/bin/php";

pub const UPDATE_ALTERNATIVES: &'static str = "update-alternatives";

pub const ARG_SET: &'static str = "--set";

pub const LINK: &'static str = "ln";

pub const ARG_SYMBOLIC: &'static str = "-sf";

pub const NO_ALTERNATIVES: &'static str = "no alternatives";

pub const NOT_INSTALLED: &'static str = " is not installed";

pub const SWITCH_CONTEXT: &'static str = "Failed to switch PHP version";

pub const LINK_CONTEXT: &'static str = "Failed to create symlink";

/// The interpreter of the PHP version `version`.
pub open spec fn binary_of(version: Seq<char>) -> Seq<char> {
    PHP_BINARY@ + version
}

/// The interpreter of the PHP version `version`.
pub fn php_binary(version: &str) -> (r: String)
    ensures
        r@ == binary_of(version@),
{
    PHP_BINARY.to_string().concat(version)
}

/// The command that makes `version` the PHP version of the machine, with
/// elevated privileges. `installed` tells whether the interpreter of the
/// version is there; a version that is not installed is refused.
pub fn switch_php_version(version: &str, installed: bool) -> (r: Result<Invocation, Error>)
    ensures
        installed ==> (r matches Ok(command) && command@ == (InvocationView {
            program: PKEXEC@,
            args: seq![UPDATE_ALTERNATIVES@, ARG_SET@, PHP@, binary_of(version@)],
            dir: None,
        })),
        !installed ==> (r matches Err(Error::Unsupported(m)) && m@ == PHP_SPACE@ + version@
            + NOT_INSTALLED@),
{
    if !installed {
        return Err(
            Error::Unsupported(PHP_SPACE.to_string().concat(version).concat(NOT_INSTALLED)),
        );
    }
    let mut args: Vec<String> = Vec::new();
    push_str(&mut args, UPDATE_ALTERNATIVES);
    push_str(&mut args, ARG_SET);
    push_str(&mut args, PHP);
    push_text(&mut args, php_binary(version));
    assert(texts(args@) =~= seq![UPDATE_ALTERNATIVES@, ARG_SET@, PHP@, binary_of(version@)]);
    Ok(invoke(PKEXEC, args))
}

/// How a switch goes on after the first command: it is done where the
/// command succeeded. Where the system keeps no alternatives for PHP the
/// interpreter is linked by hand, with the command of the result. Any other
/// failure ends the switch.
pub fn switch_outcome(version: &str, report: RunReport) -> (r: Result<Option<Invocation>, Error>)
    ensures
        match report {
            RunReport::NotStarted(cause) => r matches Err(Error::CommandNotStarted(m)) && m@
                == explained(SWITCH_CONTEXT@, cause@),
            RunReport::Finished { success, stderr, .. } => if success {
                r == Ok::<Option<Invocation>, Error>(None)
            } else if contains(stderr@, NO_ALTERNATIVES@) {
                r matches Ok(Some(command)) && command@ == (InvocationView {
                    program: PKEXEC@,
                    args: seq![LINK@, ARG_SYMBOLIC@, binary_of(version@), PHP_BINARY@],
                    dir: None,
                })
            } else {
                r matches Err(Error::CommandFailed(m)) && m@ == stderr@
            },
        },
{
    match report {
        RunReport::NotStarted(cause) => Err(
            Error::CommandNotStarted(explain(SWITCH_CONTEXT, cause.as_str())),
        ),
        RunReport::Finished { success, stdout: _, stderr } => {
            if success {
                return Ok(None);
            }
            let text = to_chars(stderr.as_str());
            let marker = to_chars(NO_ALTERNATIVES);
            if has_substring(&text, &marker) {
                let mut args: Vec<String> = Vec::new();
                push_str(&mut args, LINK);
                push_str(&mut args, ARG_SYMBOLIC);
                push_text(&mut args, php_binary(version));
                push_str(&mut args, PHP_BINARY);
                assert(texts(args@) =~= seq![
                    LINK@,
                    ARG_SYMBOLIC@,
                    binary_of(version@),
                    PHP_BINARY@,
                ]);
                Ok(Some(invoke(PKEXEC, args)))
            } else {
                Err(Error::CommandFailed(stderr))
            }
        },
    }
}

/// What became of linking the interpreter by hand.
pub fn link_outcome(report: RunReport) -> (r: Result<(), Error>)
    ensures
        match outcome(report, LINK_CONTEXT@, false) {
            Ok(_) => r is Ok,
            Err(failure) => r matches Err(e) && is_failure(e, failure),
        },
{
    match require_success(report, LINK_CONTEXT, false) {
        Ok(_) => Ok(()),
        Err(e) => Err(e),
    }
}

// ---------------------------------------------------------------------------
// Reading versions
// ---------------------------------------------------------------------------
pub const ARG_SHORT_VERSION: &'static str = "-v";

pub const ARG_RUN: &'static str = "-r";

pub const ECHO_VERSION: &'static str = "echo PHP_MAJOR_VERSION . '.' . PHP_MINOR_VERSION;";

pub const FALLBACK_VERSION: &'static str = "8.3";

/// The command that makes the interpreter `php_path` print its version.
pub fn version_command(php_path: &str) -> (r: Invocation)
    ensures
        r@ == (InvocationView { program: php_path@, args: seq![ARG_SHORT_VERSION@], dir: None }),
{
    let mut args: Vec<String> = Vec::new();
    push_str(&mut args, ARG_SHORT_VERSION);
    assert(texts(args@) =~= seq![ARG_SHORT_VERSION@]);
    invoke(php_path, args)
}

/// The full version that an interpreter reports: the second word of the
/// first line it printed, where it ran and succeeded.
pub open spec fn full_version_of(report: RunReport) -> Option<Seq<char>> {
    match report {
        RunReport::Finished { success, stdout, .. } => if success {
            match first_line(stdout@) {
                Some(line) => if words(line).len() > 1 {
                    Some(words(line)[1])
                } else {
                    None
                },
                None => None,
            }
        } else {
            None
        },
        RunReport::NotStarted(_) => None,
    }
}

/// The short form of a full version: its first two parts, with a dot
/// between them; the version itself where it has no dot.
pub open spec fn short_version(full: Seq<char>) -> Seq<char> {
    let parts = split_on(full, '.');
    if parts.len() >= 2 {
        parts[0] + DOT@ + parts[1]
    } else {
        full
    }
}

/// The full version that an interpreter reports; see [`full_version_of`].
pub fn get_php_full_version(report: &RunReport) -> (r: Option<String>)
    ensures
        text_of(r) == full_version_of(*report),
{
    match report {
        RunReport::Finished { success, stdout, .. } => {
            if *success {
                match first_line_of(stdout.as_str()) {
                    Some(line) => {
                        let all = split_words(line.as_str());
                        if all.len() > 1 {
                            assert(texts(all@)[1] == all@[1]@);
                            Some(all[1].clone())
                        } else {
                            None
                        }
                    },
                    None => None,
                }
            } else {
                None
            }
        },
        RunReport::NotStarted(_) => None,
    }
}

/// The short form of a full version; see [`short_version`].
pub fn shorten_version(full: &str) -> (r: String)
    ensures
        r@ == short_version(full@),
{
    let parts = split(full, '.');
    if parts.len() >= 2 {
        assert(texts(parts@)[0] == parts@[0]@);
        assert(texts(parts@)[1] == parts@[1]@);
        parts[0].clone().concat(DOT).concat(parts[1].as_str())
    } else {
        full.to_string()
    }
}

/// The active PHP version of the machine, from the report of `php -v`: its
/// short form and its full form, in this order; neither where the command
/// did not tell.
pub fn get_active_php_version(report: &RunReport) -> (r: Option<(String, String)>)
    ensures
        match full_version_of(*report) {
            Some(full) => r matches Some(pair) && pair.0@ == short_version(full) && pair.1@
                == full,
            None => r is None,
        },
{
    match get_php_full_version(report) {
        Some(full) => {
            let short = shorten_version(full.as_str());
            Some((short, full))
        },
        None => None,
    }
}

// ---------------------------------------------------------------------------
// Finding the installed versions
// ---------------------------------------------------------------------------
pub const KNOWN_COUNT: usize = 8;

pub const PLACE_COUNT: usize = 3;

pub const USR_BIN: &'static str = "/usr/bin";

pub const PATH_SEPARATOR: &'static str = "/";

pub const PHP_PREFIX: &'static str = "/php";

pub const MAX_PART: u32 = 4294967295;

/// The PHP versions that are known, newest first.
pub open spec fn known_version(index: int) -> Seq<char> {
    if index == 0 {
        "8.4"@
    } else if index == 1 {
        "8.3"@
    } else if index == 2 {
        "8.2"@
    } else if index == 3 {
        "8.1"@
    } else if index == 4 {
        "8.0"@
    } else if index == 5 {
        "7.4"@
    } else if index == 6 {
        "7.3"@
    } else {
        "7.2"@
    }
}

/// The directories in which interpreters are looked for, in order.
pub open spec fn search_place(index: int) -> Seq<char> {
    if index == 0 {
        USR_BIN@
    } else if index == 1 {
        "/usr/local/bin"@
    } else {
        "/opt/php"@
    }
}

fn known_version_at(index: usize) -> (r: &'static str)
    ensures
        r@ == known_version(index as int),
{
    if index == 0 {
        "8.4"
    } else if index == 1 {
        "8.3"
    } else if index == 2 {
        "8.2"
    } else if index == 3 {
        "8.1"
    } else if index == 4 {
        "8.0"
    } else if index == 5 {
        "7.4"
    } else if index == 6 {
        "7.3"
    } else {
        "7.2"
    }
}

fn search_place_at(index: usize) -> (r: &'static str)
    ensures
        r@ == search_place(index as int),
{
    if index == 0 {
        USR_BIN
    } else if index == 1 {
        "/usr/local/bin"
    } else {
        "/opt/php"
    }
}

/// A version and the interpreter that was found for it.
pub type Found = (Seq<char>, Seq<char>);

/// The candidate at `index`: a known version and where its interpreter
/// would lie in one of the search directories. The candidates go through
/// the versions, and for each version through the directories.
pub open spec fn candidate(index: int) -> Found {
    let version = known_version(index / (PLACE_COUNT as int));
    (version, search_place(index % (PLACE_COUNT as int)) + PHP_PREFIX@ + version)
}

/// Whether a version is among those found.
pub open spec fn has_version(found: Seq<Found>, version: Seq<char>) -> bool {
    exists|i: int| 0 <= i < found.len() && (#[trigger] found[i]).0 == version
}

/// The interpreters found among the first `count` candidates: of each
/// version the first candidate that exists. `existing` tells of each
/// candidate whether it exists, and a candidate it does not reach does not.
pub open spec fn found_candidates(existing: Seq<bool>, count: nat) -> Seq<Found>
    decreases count,
{
    if count == 0 {
        Seq::empty()
    } else {
        let before = found_candidates(existing, (count - 1) as nat);
        if count - 1 < existing.len() && existing[count - 1] && !has_version(
            before,
            candidate(count - 1).0,
        ) {
            before.push(candidate(count - 1))
        } else {
            before
        }
    }
}

/// The version that the name of a file in `/usr/bin` carries: what follows
/// `php`, where that begins with a digit.
pub open spec fn version_in_name(name: Seq<char>) -> Option<Seq<char>> {
    if starts_with(name, PHP@) && name.len() > PHP@.len() && is_digit(name[PHP@.len() as int]) {
        Some(name.skip(PHP@.len() as int))
    } else {
        None
    }
}

/// The interpreters found, with those added that the names of the files in
/// `/usr/bin` show: of each version not found before, the first file that
/// carries it.
pub open spec fn found_with_names(found: Seq<Found>, names: Seq<Seq<char>>) -> Seq<Found>
    decreases names.len(),
{
    if names.len() == 0 {
        found
    } else {
        let before = found_with_names(found, names.drop_last());
        match version_in_name(names.last()) {
            Some(version) => if has_version(before, version) {
                before
            } else {
                before.push((version, USR_BIN@ + PATH_SEPARATOR@ + names.last()))
            },
            None => before,
        }
    }
}

/// The texts of a list of found interpreters.
pub open spec fn found_views(found: Seq<(String, String)>) -> Seq<Found> {
    Seq::new(found.len(), |i: int| (found[i].0@, found[i].1@))
}

/// The path of the candidate at `index`, for the caller to look at.
pub fn candidate_path(index: usize) -> (r: String)
    ensures
        r@ == candidate(index as int).1,
{
    let version = known_version_at(index / PLACE_COUNT);
    let place = search_place_at(index % PLACE_COUNT);
    place.to_string().concat(PHP_PREFIX).concat(version)
}

fn knows_version(found: &Vec<(String, String)>, version: &str) -> (r: bool)
    ensures
        r == has_version(found_views(found@), version@),
{
    let mut i: usize = 0;
    while i < found.len()
        invariant
            i <= found.len(),
            forall|k: int| 0 <= k < i ==> (#[trigger] found_views(found@)[k]).0 != version@,
        decreases found.len() - i,
    {
        assert(found_views(found@)[i as int].0 == found@[i as int].0@);
        if *found[i].0.as_str() == *version {
            return true;
        }
        i += 1;
    }
    false
}

fn push_found(found: &mut Vec<(String, String)>, version: String, path: String)
    ensures
        found_views(final(found)@) == found_views(old(found)@).push((version@, path@)),
{
    found.push((version, path));
    assert(found_views(found@) =~= found_views(old(found)@).push((version@, path@)));
}

/// The interpreters installed on the machine, each with its version, in
/// the order in which they are found: first the known versions, each at the
/// first of its candidates that exists, then the versions that the names of
/// the files in `/usr/bin` carry. No version is found twice.
pub fn find_installations(existing: &Vec<bool>, usr_bin: &Vec<String>) -> (r: Vec<(String, String)>)
    ensures
        found_views(r@) == found_with_names(
            found_candidates(existing@, (KNOWN_COUNT * PLACE_COUNT) as nat),
            texts(usr_bin@),
        ),
{
    let mut found: Vec<(String, String)> = Vec::new();
    assert(found_views(found@) =~= Seq::<Found>::empty());
    let mut i: usize = 0;
    while i < KNOWN_COUNT * PLACE_COUNT
        invariant
            i <= KNOWN_COUNT * PLACE_COUNT,
            found_views(found@) == found_candidates(existing@, i as nat),
        decreases KNOWN_COUNT * PLACE_COUNT - i,
    {
        let version = known_version_at(i / PLACE_COUNT);
        if i < existing.len() && existing[i] && !knows_version(&found, version) {
            let path = candidate_path(i);
            push_found(&mut found, version.to_string(), path);
        }
        i += 1;
    }
    let ghost first = found_views(found@);
    let ghost names = texts(usr_bin@);
    let prefix = to_chars(PHP);
    let mut k: usize = 0;
    assert(names.take(0) =~= Seq::<Seq<char>>::empty());
    while k < usr_bin.len()
        invariant
            k <= usr_bin.len(),
            names == texts(usr_bin@),
            prefix@ == PHP@,
            found_views(found@) == found_with_names(first, names.take(k as int)),
        decreases usr_bin.len() - k,
    {
        proof {
            assert(names.take(k + 1).drop_last() =~= names.take(k as int));
            assert(names.take(k + 1).last() == usr_bin@[k as int]@);
        }
        let name = to_chars(usr_bin[k].as_str());
        if has_prefix(&name, &prefix) && name.len() > prefix.len() {
            let c = name[prefix.len()];
            if '0' <= c && c <= '9' {
                let version = string_of(&name, prefix.len(), name.len());
                assert(name@.subrange(prefix@.len() as int, name@.len() as int) =~= name@.skip(
                    prefix@.len() as int,
                ));
                if !knows_version(&found, version.as_str()) {
                    let path = USR_BIN.to_string().concat(PATH_SEPARATOR).concat(
                        usr_bin[k].as_str(),
                    );
                    push_found(&mut found, version, path);
                }
            }
        }
        k += 1;
    }
    assert(names.take(usr_bin@.len() as int) =~= names);
    found
}

// ---------------------------------------------------------------------------
// Ordering versions
// ---------------------------------------------------------------------------
/// The numbers among the parts: of each part that spells a number up to
/// 4294967295, that number; the other parts are passed over.
pub open spec fn numbers_in(parts: Seq<Seq<char>>) -> Seq<nat>
    decreases parts.len(),
{
    if parts.len() == 0 {
        Seq::empty()
    } else {
        match parsed_number(parts.last(), MAX_PART as nat) {
            Some(n) => numbers_in(parts.drop_last()).push(n),
            None => numbers_in(parts.drop_last()),
        }
    }
}

/// The key by which a version is ordered: the numbers among its parts,
/// where the parts are separated by dots.
pub open spec fn version_key(version: Seq<char>) -> Seq<nat> {
    numbers_in(split_on(version, '.'))
}

/// Whether the key `a` comes before the key `b`: at the first place where
/// they differ `a` holds the smaller number, or `a` ends there and `b` goes
/// on.
pub open spec fn key_before(a: Seq<nat>, b: Seq<nat>) -> bool
    decreases a.len(),
{
    if b.len() == 0 {
        false
    } else if a.len() == 0 {
        true
    } else if a[0] != b[0] {
        a[0] < b[0]
    } else {
        key_before(a.skip(1), b.skip(1))
    }
}

/// A list with one more version, put behind every version that does not
/// come before it and in front of those that do.
pub open spec fn inserted(sorted: Seq<PhpVersionView>, item: PhpVersionView) -> Seq<
    PhpVersionView,
>
    decreases sorted.len(),
{
    if sorted.len() > 0 && key_before(version_key(sorted.last().version), version_key(item.version)) {
        inserted(sorted.drop_last(), item).push(sorted.last())
    } else {
        sorted.push(item)
    }
}

/// The versions from the newest to the oldest; versions with the same key
/// keep the order they had.
pub open spec fn newest_first(list: Seq<PhpVersionView>) -> Seq<PhpVersionView>
    decreases list.len(),
{
    if list.len() == 0 {
        Seq::empty()
    } else {
        inserted(newest_first(list.drop_last()), list.last())
    }
}

/// No key comes before a key that comes before it.
pub proof fn lemma_key_before_asymmetric(a: Seq<nat>, b: Seq<nat>)
    requires
        key_before(a, b),
    ensures
        !key_before(b, a),
    decreases a.len(),
{
    if a.len() > 0 && b.len() > 0 && a[0] == b[0] {
        lemma_key_before_asymmetric(a.skip(1), b.skip(1));
    }
}

/// A key that comes before another comes before any third key or has that
/// third key before the other: the order of keys is total.
pub proof fn lemma_key_before_total(a: Seq<nat>, b: Seq<nat>, c: Seq<nat>)
    requires
        key_before(a, c),
    ensures
        key_before(a, b) || key_before(b, c),
    decreases a.len(),
{
    if a.len() > 0 && b.len() > 0 && c.len() > 0 && a[0] == b[0] && b[0] == c[0] {
        lemma_key_before_total(a.skip(1), b.skip(1), c.skip(1));
    }
}

/// No version of the list stands before a version that is newer.
pub open spec fn is_newest_first(list: Seq<PhpVersionView>) -> bool {
    forall|i: int, j: int|
        0 <= i < j < list.len() ==> !key_before(
            version_key((#[trigger] list[i]).version),
            version_key((#[trigger] list[j]).version),
        )
}

/// Inserting a version adds that version and nothing else, and keeps a
/// list that goes from the newest to the oldest in that order.
pub proof fn lemma_inserted(sorted: Seq<PhpVersionView>, item: PhpVersionView)
    ensures
        inserted(sorted, item).len() == sorted.len() + 1,
        inserted(sorted, item).to_multiset() == sorted.to_multiset().insert(item),
        forall|k: int|
            0 <= k < inserted(sorted, item).len() ==> (#[trigger] inserted(sorted, item)[k]) == item
                || sorted.contains(inserted(sorted, item)[k]),
        is_newest_first(sorted) ==> is_newest_first(inserted(sorted, item)),
    decreases sorted.len(),
{
    let key = version_key(item.version);
    vstd::seq_lib::to_multiset_build(sorted, item);
    if sorted.len() > 0 && key_before(version_key(sorted.last().version), key) {
        let front = sorted.drop_last();
        let last = sorted.last();
        let inner = inserted(front, item);
        lemma_inserted(front, item);
        let out = inner.push(last);
        assert(sorted =~= front.push(last));
        vstd::seq_lib::to_multiset_build(front, last);
        vstd::seq_lib::to_multiset_build(inner, last);
        assert(front.to_multiset().insert(item).insert(last) =~= front.to_multiset().insert(
            last,
        ).insert(item));
        assert forall|k: int| 0 <= k < out.len() implies (#[trigger] out[k]) == item
            || sorted.contains(out[k]) by {
            if k < inner.len() {
                if inner[k] != item {
                    let e = inner[k];
                    assert(front.contains(e));
                    let j = choose|j: int| 0 <= j < front.len() && front[j] == e;
                    assert(sorted[j] == e);
                }
            } else {
                assert(sorted[sorted.len() - 1] == out[k]);
            }
        }
        if is_newest_first(sorted) {
            assert forall|i: int, j: int| 0 <= i < j < front.len() implies !key_before(
                version_key((#[trigger] front[i]).version),
                version_key((#[trigger] front[j]).version),
            ) by {
                assert(front[i] == sorted[i] && front[j] == sorted[j]);
            }
            assert forall|i: int, j: int| 0 <= i < j < out.len() implies !key_before(
                version_key((#[trigger] out[i]).version),
                version_key((#[trigger] out[j]).version),
            ) by {
                if j < inner.len() {
                    assert(out[i] == inner[i] && out[j] == inner[j]);
                } else {
                    assert(out[j] == last);
                    assert(out[i] == inner[i]);
                    if inner[i] == item {
                        lemma_key_before_asymmetric(version_key(last.version), key);
                    } else {
                        let e = inner[i];
                        assert(front.contains(e));
                        let m = choose|m: int| 0 <= m < front.len() && front[m] == e;
                        assert(sorted[m] == e);
                        assert(sorted[sorted.len() - 1] == last);
                    }
                }
            }
        }
    } else {
        let out = sorted.push(item);
        assert forall|k: int| 0 <= k < out.len() implies (#[trigger] out[k]) == item
            || sorted.contains(out[k]) by {
            if k < sorted.len() {
                assert(sorted[k] == out[k]);
            }
        }
        if is_newest_first(sorted) {
            assert forall|i: int, j: int| 0 <= i < j < out.len() implies !key_before(
                version_key((#[trigger] out[i]).version),
                version_key((#[trigger] out[j]).version),
            ) by {
                if j < sorted.len() {
                    assert(out[i] == sorted[i] && out[j] == sorted[j]);
                } else {
                    assert(out[j] == item);
                    assert(out[i] == sorted[i]);
                    let tail = sorted.len() - 1;
                    if i < tail {
                        assert(!key_before(
                            version_key(sorted[i].version),
                            version_key(sorted[tail].version),
                        ));
                        if key_before(version_key(sorted[i].version), key) {
                            lemma_key_before_total(
                                version_key(sorted[i].version),
                                version_key(sorted[tail].version),
                                key,
                            );
                        }
                    }
                }
            }
        }
    }
}

/// Ordering a list keeps every version, as often as it stood in the list,
/// and puts no version before a newer one.
pub proof fn lemma_newest_first(list: Seq<PhpVersionView>)
    ensures
        newest_first(list).len() == list.len(),
        newest_first(list).to_multiset() == list.to_multiset(),
        is_newest_first(newest_first(list)),
    decreases list.len(),
{
    if list.len() > 0 {
        lemma_newest_first(list.drop_last());
        lemma_inserted(newest_first(list.drop_last()), list.last());
        assert(list =~= list.drop_last().push(list.last()));
        vstd::seq_lib::to_multiset_build(list.drop_last(), list.last());
    } else {
        assert(list =~= Seq::<PhpVersionView>::empty());
    }
}

/// The key by which a version is ordered.
pub fn key_of(version: &str) -> (r: Vec<u32>)
    ensures
        r@.len() == version_key(version@).len(),
        forall|i: int| 0 <= i < r@.len() ==> r@[i] as nat == version_key(version@)[i],
{
    let parts = split(version, '.');
    let ghost all = texts(parts@);
    let mut key: Vec<u32> = Vec::new();
    let mut i: usize = 0;
    while i < parts.len()
        invariant
            i <= parts.len(),
            all == texts(parts@),
            key@.len() == numbers_in(all.take(i as int)).len(),
            forall|k: int| 0 <= k < key@.len() ==> key@[k] as nat == numbers_in(all.take(i as int))[k],
        decreases parts.len() - i,
    {
        proof {
            assert(all.take(i + 1).drop_last() =~= all.take(i as int));
            assert(all.take(i + 1).last() == parts@[i as int]@);
        }
        match parse_number_of(parts[i].as_str(), MAX_PART) {
            Some(n) => {
                key.push(n);
            },
            None => {},
        }
        i += 1;
    }
    assert(all.take(parts@.len() as int) =~= all);
    key
}

/// The key that a list of numbers stands for.
pub open spec fn key_view(key: Seq<u32>) -> Seq<nat> {
    Seq::new(key.len(), |i: int| key[i] as nat)
}

/// Whether the key `a` comes before the key `b`.
pub fn comes_before(a: &Vec<u32>, b: &Vec<u32>) -> (r: bool)
    ensures
        r == key_before(key_view(a@), key_view(b@)),
{
    let ghost ka = key_view(a@);
    let ghost kb = key_view(b@);
    let mut i: usize = 0;
    assert(ka.skip(0) =~= ka);
    assert(kb.skip(0) =~= kb);
    while i < a.len() && i < b.len()
        invariant
            i <= a.len(),
            i <= b.len(),
            ka == key_view(a@),
            kb == key_view(b@),
            key_before(ka, kb) == key_before(ka.skip(i as int), kb.skip(i as int)),
        decreases a.len() - i,
    {
        assert(ka.skip(i as int)[0] == a@[i as int] as nat);
        assert(kb.skip(i as int)[0] == b@[i as int] as nat);
        if a[i] != b[i] {
            return a[i] < b[i];
        }
        assert(ka.skip(i as int).skip(1) =~= ka.skip(i + 1));
        assert(kb.skip(i as int).skip(1) =~= kb.skip(i + 1));
        i += 1;
    }
    assert(ka.skip(i as int).len() == a@.len() - i);
    assert(kb.skip(i as int).len() == b@.len() - i);
    i < b.len()
}

fn version_comes_before(a: &str, b: &str) -> (r: bool)
    ensures
        r == key_before(version_key(a@), version_key(b@)),
{
    let ka = key_of(a);
    let kb = key_of(b);
    assert(key_view(ka@) =~= version_key(a@));
    assert(key_view(kb@) =~= version_key(b@));
    comes_before(&ka, &kb)
}

/// Inserting a version puts it at the place that follows the versions that
/// do not come before it.
pub proof fn lemma_inserted_at(sorted: Seq<PhpVersionView>, item: PhpVersionView, at: int)
    requires
        0 <= at <= sorted.len(),
        forall|k: int|
            at <= k < sorted.len() ==> key_before(
                version_key((#[trigger] sorted[k]).version),
                version_key(item.version),
            ),
        at > 0 ==> !key_before(version_key(sorted[at - 1].version), version_key(item.version)),
    ensures
        inserted(sorted, item) == sorted.insert(at, item),
    decreases sorted.len() - at,
{
    if at < sorted.len() {
        let front = sorted.drop_last();
        assert(key_before(
            version_key(sorted[sorted.len() - 1].version),
            version_key(item.version),
        ));
        assert forall|k: int| at <= k < front.len() implies key_before(
            version_key((#[trigger] front[k]).version),
            version_key(item.version),
        ) by {
            assert(front[k] == sorted[k]);
        }
        if at > 0 {
            assert(front[at - 1] == sorted[at - 1]);
        }
        lemma_inserted_at(front, item, at);
        assert(front.insert(at, item).push(sorted.last()) =~= sorted.insert(at, item));
    } else {
        assert(sorted.push(item) =~= sorted.insert(at, item));
    }
}

fn insert_version(sorted: &mut Vec<PhpVersion>, item: PhpVersion)
    ensures
        version_views(final(sorted)@) == inserted(version_views(old(sorted)@), item@),
{
    let ghost before = version_views(sorted@);
    let mut at: usize = sorted.len();
    while at > 0 && version_comes_before(sorted[at - 1].version.as_str(), item.version.as_str())
        invariant
            at <= sorted.len(),
            before == version_views(sorted@),
            forall|k: int|
                at <= k < before.len() ==> key_before(
                    version_key((#[trigger] before[k]).version),
                    version_key(item@.version),
                ),
        decreases at,
    {
        assert(before[at - 1] == sorted@[at - 1]@);
        at -= 1;
    }
    proof {
        if at > 0 {
            assert(before[at - 1] == sorted@[at - 1]@);
        }
        lemma_inserted_at(before, item@, at as int);
    }
    sorted.insert(at, item);
    assert(version_views(sorted@) =~= before.insert(at as int, item@));
}

/// The versions from the newest to the oldest; see [`newest_first`].
pub fn sort_versions(list: Vec<PhpVersion>) -> (r: Vec<PhpVersion>)
    ensures
        version_views(r@) == newest_first(version_views(list@)),
        is_newest_first(version_views(r@)),
        version_views(r@).to_multiset() == version_views(list@).to_multiset(),
{
    proof {
        lemma_newest_first(version_views(list@));
    }
    let ghost all = version_views(list@);
    let mut rest = list;
    let mut sorted: Vec<PhpVersion> = Vec::new();
    let mut reversed: Vec<PhpVersion> = Vec::new();
    assert(version_views(reversed@) =~= Seq::<PhpVersionView>::empty());
    while rest.len() > 0
        invariant
            version_views(rest@) + version_views(reversed@).reverse() == all,
        decreases rest.len(),
    {
        let ghost r0 = version_views(rest@);
        let ghost v0 = version_views(reversed@);
        let item = rest.pop().unwrap();
        reversed.push(item);
        assert(version_views(rest@) =~= r0.drop_last());
        assert(version_views(reversed@) =~= v0.push(r0.last()));
        assert(r0.drop_last() + v0.push(r0.last()).reverse() =~= r0 + v0.reverse());
    }
    assert(version_views(reversed@).reverse() =~= all);
    let ghost total = reversed@.len();
    assert(version_views(sorted@) =~= newest_first(all.take(0)));
    while reversed.len() > 0
        invariant
            reversed@.len() <= total,
            total == all.len(),
            version_views(reversed@).reverse() == all.skip(total - reversed@.len()),
            version_views(sorted@) == newest_first(all.take(total - reversed@.len())),
        decreases reversed.len(),
    {
        let ghost v0 = version_views(reversed@);
        let ghost done = total - reversed@.len();
        let item = reversed.pop().unwrap();
        proof {
            assert(version_views(reversed@) =~= v0.drop_last());
            assert(v0.reverse()[0] == v0.last());
            assert(all.skip(done)[0] == all[done]);
            assert(item@ == all[done]);
            assert(v0.drop_last().reverse() =~= v0.reverse().skip(1));
            assert(all.skip(done).skip(1) =~= all.skip(done + 1));
            assert(all.take(done + 1).drop_last() =~= all.take(done));
            assert(all.take(done + 1).last() == all[done]);
        }
        insert_version(&mut sorted, item);
    }
    assert(all.take(total as int) =~= all);
    sorted
}

// ---------------------------------------------------------------------------
// The list of versions
// ---------------------------------------------------------------------------
/// The entry of an interpreter that was found: installed, with the full
/// version its report names (none where it names none), and active where
/// its version is the active one.
pub open spec fn installed_entry(found: Found, report: Option<RunReport>, active: Option<Seq<char>>)
    -> PhpVersionView {
    PhpVersionView {
        version: found.0,
        full_version: match report {
            Some(r) => match full_version_of(r) {
                Some(full) => full,
                None => Seq::empty(),
            },
            None => Seq::empty(),
        },
        installed: true,
        active: active == Some(found.0),
        path: found.1,
    }
}

/// The entry of a known version that is not installed.
pub open spec fn missing_entry(version: Seq<char>) -> PhpVersionView {
    PhpVersionView {
        version: version,
        full_version: Seq::empty(),
        installed: false,
        active: false,
        path: Seq::empty(),
    }
}

/// The report at `index`, if the list reaches it.
pub open spec fn report_at(reports: Seq<RunReport>, index: int) -> Option<RunReport> {
    if 0 <= index < reports.len() {
        Some(reports[index])
    } else {
        None
    }
}

/// The entries of the interpreters that were found, in order.
pub open spec fn installed_entries(
    found: Seq<Found>,
    reports: Seq<RunReport>,
    active: Option<Seq<char>>,
) -> Seq<PhpVersionView> {
    Seq::new(found.len(), |i: int| installed_entry(found[i], report_at(reports, i), active))
}

/// The entries of the first `count` known versions that were not found.
pub open spec fn missing_entries(found: Seq<Found>, count: nat) -> Seq<PhpVersionView>
    decreases count,
{
    if count == 0 {
        Seq::empty()
    } else if has_version(found, known_version(count - 1)) {
        missing_entries(found, (count - 1) as nat)
    } else {
        missing_entries(found, (count - 1) as nat).push(missing_entry(known_version(count - 1)))
    }
}

/// The active version in its short form, as the report of `php -v` tells
/// it.
pub open spec fn active_version(report: RunReport) -> Option<Seq<char>> {
    match full_version_of(report) {
        Some(full) => Some(short_version(full)),
        None => None,
    }
}

/// The PHP versions of the machine: the interpreters that were found, then
/// the known versions that were not, all from the newest to the oldest.
pub open spec fn versions_listed(found: Seq<Found>, reports: Seq<RunReport>, active: RunReport)
    -> Seq<PhpVersionView> {
    newest_first(
        installed_entries(found, reports, active_version(active)) + missing_entries(
            found,
            KNOWN_COUNT as nat,
        ),
    )
}

/// The PHP versions of the machine, installed and known.
///
/// `found` are the interpreters that [`find_installations`] gave, `reports`
/// what each of them printed when asked for its version, in the same order,
/// and `active` what the default interpreter printed. Every interpreter
/// found is listed as installed; the one whose version is the active
/// version is marked. The known versions that were not found follow as not
/// installed. The list goes from the newest version to the oldest.
pub fn get_php_versions(found: &Vec<(String, String)>, reports: &Vec<RunReport>, active: &RunReport) -> (r:
    Result<Vec<PhpVersion>, Error>)
    ensures
        r matches Ok(list) && version_views(list@) == versions_listed(
            found_views(found@),
            reports@,
            *active,
        ),
{
    let current = match get_active_php_version(active) {
        Some(pair) => Some(pair.0),
        None => None,
    };
    let ghost wanted = installed_entries(found_views(found@), reports@, active_version(*active));
    let mut list: Vec<PhpVersion> = Vec::new();
    let mut i: usize = 0;
    assert(version_views(list@) =~= wanted.take(0));
    while i < found.len()
        invariant
            i <= found.len(),
            text_of(current) == active_version(*active),
            wanted == installed_entries(found_views(found@), reports@, active_version(*active)),
            version_views(list@) == wanted.take(i as int),
        decreases found.len() - i,
    {
        let ghost before = version_views(list@);
        let full = if i < reports.len() {
            match get_php_full_version(&reports[i]) {
                Some(text) => text,
                None => String::new(),
            }
        } else {
            String::new()
        };
        let is_active = match &current {
            Some(version) => *version.as_str() == *found[i].0.as_str(),
            None => false,
        };
        let entry = PhpVersion {
            version: found[i].0.clone(),
            full_version: full,
            installed: true,
            active: is_active,
            path: found[i].1.clone(),
        };
        assert(found_views(found@)[i as int] == (found@[i as int].0@, found@[i as int].1@));
        assert(entry@ == wanted[i as int]);
        list.push(entry);
        assert(version_views(list@) =~= before.push(wanted[i as int]));
        assert(version_views(list@) =~= wanted.take(i + 1));
        i += 1;
    }
    assert(wanted.take(found@.len() as int) =~= wanted);
    let mut k: usize = 0;
    assert(wanted + missing_entries(found_views(found@), 0) =~= wanted);
    while k < KNOWN_COUNT
        invariant
            k <= KNOWN_COUNT,
            version_views(list@) == wanted + missing_entries(found_views(found@), k as nat),
        decreases KNOWN_COUNT - k,
    {
        let ghost before = version_views(list@);
        let version = known_version_at(k);
        if !knows_version(found, version) {
            let entry = PhpVersion {
                version: version.to_string(),
                full_version: String::new(),
                installed: false,
                active: false,
                path: String::new(),
            };
            list.push(entry);
            assert(version_views(list@) =~= before.push(missing_entry(known_version(k as int))));
            assert(before.push(missing_entry(known_version(k as int))) =~= wanted
                + missing_entries(found_views(found@), (k + 1) as nat));
        }
        k += 1;
    }
    Ok(sort_versions(list))
}

/// The command that makes the default interpreter print its version in the
/// short form.
pub fn active_version_command() -> (r: Invocation)
    ensures
        r@ == (InvocationView { program: PHP@, args: seq![ARG_RUN@, ECHO_VERSION@], dir: None }),
{
    let mut args: Vec<String> = Vec::new();
    push_str(&mut args, ARG_RUN);
    push_str(&mut args, ECHO_VERSION);
    assert(texts(args@) =~= seq![ARG_RUN@, ECHO_VERSION@]);
    invoke(PHP, args)
}

/// The PHP version that new sites run on where none is asked for: what the
/// default interpreter printed, white space aside, or 8.3 where it could
/// not be started.
pub fn default_php_version(report: &RunReport) -> (r: String)
    ensures
        r@ == match *report {
            RunReport::Finished { stdout, .. } => trimmed(stdout@),
            RunReport::NotStarted(_) => FALLBACK_VERSION@,
        },
{
    match report {
        RunReport::Finished { stdout, .. } => trim(stdout.as_str()),
        RunReport::NotStarted(_) => FALLBACK_VERSION.to_string(),
    }
}

} // verus!

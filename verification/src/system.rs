//! The machine: distribution, web servers, name resolution, services and
//! databases.

use crate::errors::Error;
use crate::process::{explain, explained, invoke, is_failure, outcome, printed, printed_text,
    require_success, Invocation, InvocationView, RunReport};
use crate::sites::text_of;
use crate::text::{alphanumeric, contains, decimal, decimal_string, first_index, first_line,
    first_line_of, has_prefix, has_substring, index_of, lines, push_str, push_text, replace,
    replace_all, split_lines, split_words, starts_with, string_of, strip, strip_end, strip_end_of,
    strip_of, strip_prefixes, tail, tail_of, texts, to_chars, trim, trimmed, without_prefixes,
    words, CharSet};
use vstd::prelude::*;
use vstd::string::*;

verus! {

/// The distribution and kernel of the machine.
#[derive(Debug, PartialEq, Eq)]
pub struct SystemInfo {
    pub distro: String,
    pub distro_version: String,
    pub package_manager: String,
    pub kernel: String,
    pub hostname: String,
}

/// Which web servers are installed and running.
#[derive(Debug, PartialEq, Eq)]
pub struct WebServerStatus {
    pub caddy_installed: bool,
    pub caddy_running: bool,
    pub caddy_version: Option<String>,
    pub nginx_installed: bool,
    pub nginx_running: bool,
    pub nginx_version: Option<String>,
    pub active: Option<String>,
}

/// How far the resolution of local domains is set up.
#[derive(Debug, PartialEq, Eq)]
pub struct DnsStatus {
    pub dnsmasq_installed: bool,
    pub dnsmasq_running: bool,
    pub dnsmasq_configured: bool,
    pub resolver_configured: bool,
}

/// One service installed on the machine itself.
#[derive(Debug, PartialEq, Eq)]
pub struct NativeService {
    pub name: String,
    pub display_name: String,
    pub installed: bool,
    pub running: bool,
    pub version: Option<String>,
    pub port: Option<u16>,
}

/// The services installed on the machine itself.
#[derive(Debug, PartialEq, Eq)]
pub struct NativeServicesStatus {
    pub services: Vec<NativeService>,
}

/// One database of a server.
#[derive(Debug, PartialEq, Eq)]
pub struct Database {
    pub name: String,
    pub size: Option<String>,
}

/// Mathematical model of a [`SystemInfo`].
pub struct SystemInfoView {
    pub distro: Seq<char>,
    pub distro_version: Seq<char>,
    pub package_manager: Seq<char>,
    pub kernel: Seq<char>,
    pub hostname: Seq<char>,
}

/// Mathematical model of a [`WebServerStatus`].
pub struct WebServerStatusView {
    pub caddy_installed: bool,
    pub caddy_running: bool,
    pub caddy_version: Option<Seq<char>>,
    pub nginx_installed: bool,
    pub nginx_running: bool,
    pub nginx_version: Option<Seq<char>>,
    pub active: Option<Seq<char>>,
}

/// Mathematical model of a [`NativeService`].
pub struct NativeServiceView {
    pub name: Seq<char>,
    pub display_name: Seq<char>,
    pub installed: bool,
    pub running: bool,
    pub version: Option<Seq<char>>,
    pub port: Option<u16>,
}

/// Mathematical model of a [`Database`].
pub struct DatabaseView {
    pub name: Seq<char>,
    pub size: Option<Seq<char>>,
}

impl View for SystemInfo {
    type V = SystemInfoView;

    open spec fn view(&self) -> SystemInfoView {
        SystemInfoView {
            distro: self.distro@,
            distro_version: self.distro_version@,
            package_manager: self.package_manager@,
            kernel: self.kernel@,
            hostname: self.hostname@,
        }
    }
}

impl View for WebServerStatus {
    type V = WebServerStatusView;

    open spec fn view(&self) -> WebServerStatusView {
        WebServerStatusView {
            caddy_installed: self.caddy_installed,
            caddy_running: self.caddy_running,
            caddy_version: text_of(self.caddy_version),
            nginx_installed: self.nginx_installed,
            nginx_running: self.nginx_running,
            nginx_version: text_of(self.nginx_version),
            active: text_of(self.active),
        }
    }
}

impl View for NativeService {
    type V = NativeServiceView;

    open spec fn view(&self) -> NativeServiceView {
        NativeServiceView {
            name: self.name@,
            display_name: self.display_name@,
            installed: self.installed,
            running: self.running,
            version: text_of(self.version),
            port: self.port,
        }
    }
}

impl View for Database {
    type V = DatabaseView;

    open spec fn view(&self) -> DatabaseView {
        DatabaseView { name: self.name@, size: text_of(self.size) }
    }
}

/// The models of a list of services, in the same order.
pub open spec fn service_views(services: Seq<NativeService>) -> Seq<NativeServiceView> {
    Seq::new(services.len(), |i: int| services[i]@)
}

/// The models of a list of databases, in the same order.
pub open spec fn database_views(databases: Seq<Database>) -> Seq<DatabaseView> {
    Seq::new(databases.len(), |i: int| databases[i]@)
}

// ---------------------------------------------------------------------------
// Package managers
// ---------------------------------------------------------------------------
/// The package managers that are known.
#[derive(Debug, Clone, Copy, PartialEq, Eq, Structural)]
pub enum PackageManager {
    Apt,
    Dnf,
    Pacman,
    Zypper,
}

pub const APT: &'static str = "apt";

pub const DNF: &'static str = "dnf";

pub const PACMAN: &'static str = "pacman";

pub const ZYPPER: &'static str = "zypper";

pub const UNKNOWN: &'static str = "unknown";

impl PackageManager {
    /// The package manager that `name` names, if it names one.
    pub open spec fn named(name: Seq<char>) -> Option<PackageManager> {
        if name == APT@ {
            Some(PackageManager::Apt)
        } else if name == DNF@ {
            Some(PackageManager::Dnf)
        } else if name == PACMAN@ {
            Some(PackageManager::Pacman)
        } else if name == ZYPPER@ {
            Some(PackageManager::Zypper)
        } else {
            None
        }
    }

    /// The name of the package manager.
    pub open spec fn spec_name(self) -> Seq<char> {
        match self {
            PackageManager::Apt => APT@,
            PackageManager::Dnf => DNF@,
            PackageManager::Pacman => PACMAN@,
            PackageManager::Zypper => ZYPPER@,
        }
    }

    /// The package manager of a distribution, by the identifier the
    /// distribution gives itself.
    pub open spec fn of_distro(distro: Seq<char>) -> Option<PackageManager> {
        if distro == "ubuntu"@ || distro == "debian"@ || distro == "linuxmint"@ || distro == "pop"@
            || distro == "elementary"@ || distro == "zorin"@ {
            Some(PackageManager::Apt)
        } else if distro == "fedora"@ || distro == "rhel"@ || distro == "centos"@ || distro
            == "rocky"@ || distro == "almalinux"@ {
            Some(PackageManager::Dnf)
        } else if distro == "arch"@ || distro == "manjaro"@ || distro == "endeavouros"@ {
            Some(PackageManager::Pacman)
        } else if distro == "opensuse"@ || distro == "opensuse-leap"@ || distro
            == "opensuse-tumbleweed"@ {
            Some(PackageManager::Zypper)
        } else {
            None
        }
    }

    /// The package manager that `name` names, if it names one.
    pub fn parse(name: &str) -> (r: Option<PackageManager>)
        ensures
            r == PackageManager::named(name@),
    {
        if *name == *APT {
            Some(PackageManager::Apt)
        } else if *name == *DNF {
            Some(PackageManager::Dnf)
        } else if *name == *PACMAN {
            Some(PackageManager::Pacman)
        } else if *name == *ZYPPER {
            Some(PackageManager::Zypper)
        } else {
            None
        }
    }

    /// The name of the package manager.
    pub fn name(&self) -> (r: &'static str)
        ensures
            r@ == self.spec_name(),
    {
        match self {
            PackageManager::Apt => APT,
            PackageManager::Dnf => DNF,
            PackageManager::Pacman => PACMAN,
            PackageManager::Zypper => ZYPPER,
        }
    }

    /// The package manager of a distribution.
    pub fn for_distro(distro: &str) -> (r: Option<PackageManager>)
        ensures
            r == PackageManager::of_distro(distro@),
    {
        if *distro == *"ubuntu" || *distro == *"debian" || *distro == *"linuxmint" || *distro
            == *"pop" || *distro == *"elementary" || *distro == *"zorin" {
            Some(PackageManager::Apt)
        } else if *distro == *"fedora" || *distro == *"rhel" || *distro == *"centos" || *distro
            == *"rocky" || *distro == *"almalinux" {
            Some(PackageManager::Dnf)
        } else if *distro == *"arch" || *distro == *"manjaro" || *distro == *"endeavouros" {
            Some(PackageManager::Pacman)
        } else if *distro == *"opensuse" || *distro == *"opensuse-leap" || *distro
            == *"opensuse-tumbleweed" {
            Some(PackageManager::Zypper)
        } else {
            None
        }
    }
}

pub const UNSUPPORTED_MANAGER: &'static str = "Unsupported package manager";

// ---------------------------------------------------------------------------
// The distribution
// ---------------------------------------------------------------------------
pub const OS_RELEASE: &'static str = "/etc/os-release";

pub const OS_RELEASE_CONTEXT: &'static str = "Failed to read /etc/os-release";

pub const ID_KEY: &'static str = "ID=";

pub const VERSION_KEY: &'static str = "VERSION_ID=";

pub const UNAME: &'static str = "uname";

pub const ARG_RELEASE: &'static str = "-r";

pub const HOSTNAME: &'static str = "hostname";

/// The value of a line of the release file for `key`: the line without the
/// key it begins with and without the quotes around the rest.
pub open spec fn release_value(line: Seq<char>, key: Seq<char>) -> Seq<char> {
    strip(without_prefixes(line, key), CharSet::Only('"'))
}

/// The value that the lines give for `key`: that of the last line that
/// begins with the key, or `fallback` where none does.
pub open spec fn release_entry(all: Seq<Seq<char>>, key: Seq<char>, fallback: Seq<char>) -> Seq<
    char,
>
    decreases all.len(),
{
    if all.len() == 0 {
        fallback
    } else if starts_with(all.last(), key) {
        release_value(all.last(), key)
    } else {
        release_entry(all.drop_last(), key, fallback)
    }
}

/// The name under which the package manager of a distribution is reported:
/// `unknown` for a distribution that is not known.
pub open spec fn manager_name(distro: Seq<char>) -> Seq<char> {
    match PackageManager::of_distro(distro) {
        Some(manager) => manager.spec_name(),
        None => UNKNOWN@,
    }
}

/// What is known of the system, from the text of its release file and the
/// reports of `uname -r` and `hostname`.
pub open spec fn system_found(os_release: Seq<char>, kernel: RunReport, hostname: RunReport)
    -> SystemInfoView {
    let distro = release_entry(lines(os_release), ID_KEY@, UNKNOWN@);
    SystemInfoView {
        distro: distro,
        distro_version: release_entry(lines(os_release), VERSION_KEY@, Seq::empty()),
        package_manager: manager_name(distro),
        kernel: printed(kernel),
        hostname: printed(hostname),
    }
}

fn find_release_entry(all: &Vec<String>, key: &str) -> (r: Option<String>)
    ensures
        forall|fallback: Seq<char>| #[trigger]
            release_entry(texts(all@), key@, fallback) == match r {
                Some(value) => value@,
                None => fallback,
            },
{
    let ghost every = texts(all@);
    let pattern = to_chars(key);
    let mut i: usize = all.len();
    assert(every.take(all@.len() as int) =~= every);
    while i > 0
        invariant
            i <= all.len(),
            every == texts(all@),
            pattern@ == key@,
            forall|fallback: Seq<char>| #[trigger]
                release_entry(every, key@, fallback) == release_entry(
                    every.take(i as int),
                    key@,
                    fallback,
                ),
        decreases i,
    {
        proof {
            assert(every.take(i as int).drop_last() =~= every.take(i - 1));
            assert(every.take(i as int).last() == all@[i - 1]@);
        }
        let line = to_chars(all[i - 1].as_str());
        if has_prefix(&line, &pattern) {
            let inner = strip_prefixes(all[i - 1].as_str(), key);
            return Some(strip_of(inner.as_str(), CharSet::Only('"')));
        }
        i -= 1;
    }
    assert(every.take(0).len() == 0);
    None
}

/// The command that prints the release of the kernel.
pub fn kernel_command() -> (r: Invocation)
    ensures
        r@ == (InvocationView { program: UNAME@, args: seq![ARG_RELEASE@], dir: None }),
{
    let mut args: Vec<String> = Vec::new();
    push_str(&mut args, ARG_RELEASE);
    assert(texts(args@) =~= seq![ARG_RELEASE@]);
    invoke(UNAME, args)
}

/// The command that prints the name of the machine.
pub fn hostname_command() -> (r: Invocation)
    ensures
        r@ == (InvocationView { program: HOSTNAME@, args: Seq::empty(), dir: None }),
{
    let args: Vec<String> = Vec::new();
    assert(texts(args@) =~= Seq::<Seq<char>>::empty());
    invoke(HOSTNAME, args)
}

/// What is known of the system.
///
/// `os_release` is the text of `/etc/os-release`, or the reason why it
/// could not be read, which is a failure. The distribution and its version
/// are the values of the last `ID=` and `VERSION_ID=` lines; the package
/// manager follows from the distribution; kernel and host name are what the
/// two commands printed, white space aside, and empty where a command could
/// not be started.
pub fn detect_system(os_release: Result<String, String>, kernel: &RunReport, hostname: &RunReport) -> (r:
    Result<SystemInfo, Error>)
    ensures
        match os_release {
            Ok(text) => r matches Ok(info) && info@ == system_found(text@, *kernel, *hostname),
            Err(cause) => r matches Err(Error::Persistence(m)) && m@ == explained(
                OS_RELEASE_CONTEXT@,
                cause@,
            ),
        },
{
    match os_release {
        Err(cause) => Err(Error::Persistence(explain(OS_RELEASE_CONTEXT, cause.as_str()))),
        Ok(text) => {
            let all = split_lines(text.as_str());
            let distro = match find_release_entry(&all, ID_KEY) {
                Some(value) => value,
                None => UNKNOWN.to_string(),
            };
            let distro_version = match find_release_entry(&all, VERSION_KEY) {
                Some(value) => value,
                None => String::new(),
            };
            let package_manager = match PackageManager::for_distro(distro.as_str()) {
                Some(manager) => manager.name().to_string(),
                None => UNKNOWN.to_string(),
            };
            Ok(
                SystemInfo {
                    distro,
                    distro_version,
                    package_manager,
                    kernel: printed_text(kernel),
                    hostname: printed_text(hostname),
                },
            )
        },
    }
}

// ---------------------------------------------------------------------------
// Web servers
// ---------------------------------------------------------------------------
pub const CADDY: &'static str = "caddy";

pub const NGINX: &'static str = "nginx";

pub const SYSTEMCTL: &'static str = "systemctl";

pub const PKEXEC: &'static str = "pkexec";

pub const BASH: &'static str = "bash";

pub const ARG_COMMAND: &'static str = "-c";

pub const ARG_IS_ACTIVE: &'static str = "is-active";

pub const ARG_VERSION: &'static str = "version";

pub const ARG_SHORT_VERSION: &'static str = "-v";

pub const ARG_START: &'static str = "start";

pub const ARG_STOP: &'static str = "stop";

pub const ARG_RESTART: &'static str = "restart";

pub const NGINX_VERSION_PREFIX: &'static str = "nginx version: ";

pub const UNKNOWN_SERVER: &'static str = "Unknown web server";

pub const INSTALL_APT: &'static str = "apt install -y ";

pub const INSTALL_DNF: &'static str = "dnf install -y ";

pub const INSTALL_PACMAN: &'static str = "pacman -S --noconfirm ";

pub const INSTALL_ZYPPER: &'static str = "zypper install -y ";

pub const CADDY_SETUP_OPEN: &'static str = "\nset -e\n\n# 1. Install Caddy\n";

pub const CADDY_SETUP_CLOSE: &'static str = "\n\n# 2. Add caddy user to www-data group (for PHP-FPM socket access)\nusermod -aG www-data caddy || true\n\n# 3. Create ServerMark sites directory\nmkdir -p /etc/caddy/sites.d\nchown caddy:caddy /etc/caddy/sites.d\nchmod 755 /etc/caddy/sites.d\n\n# 4. Create empty Caddyfile for ServerMark sites\necho \"# ServerMark sites\" > /etc/caddy/sites.d/servermark.conf\nchown caddy:caddy /etc/caddy/sites.d/servermark.conf\n\n# 5. Add import to system Caddyfile if not present\nIMPORT_LINE=\"import /etc/caddy/sites.d/*.conf\"\nif ! grep -q \"sites.d\" /etc/caddy/Caddyfile 2>/dev/null; then\n    # Prepend import line to existing Caddyfile\n    if [ -f /etc/caddy/Caddyfile ]; then\n        TEMP_FILE=$(mktemp)\n        echo \"$IMPORT_LINE\" > \"$TEMP_FILE\"\n        echo \"\" >> \"$TEMP_FILE\"\n        cat /etc/caddy/Caddyfile >> \"$TEMP_FILE\"\n        mv \"$TEMP_FILE\" /etc/caddy/Caddyfile\n    else\n        echo \"$IMPORT_LINE\" > /etc/caddy/Caddyfile\n    fi\nfi\n\n# 6. Enable and start Caddy\nsystemctl enable caddy\nsystemctl restart caddy\n";

pub const NGINX_SETUP_OPEN: &'static str = "\nset -e\n";

pub const NGINX_SETUP_CLOSE: &'static str = "\nsystemctl enable nginx\nsystemctl start nginx\n";

pub const CADDY_INSTALL_CONTEXT: &'static str = "Failed to install Caddy";

pub const NGINX_INSTALL_CONTEXT: &'static str = "Failed to install Nginx";

pub const CADDY_START_CONTEXT: &'static str = "Failed to start Caddy";

pub const NGINX_START_CONTEXT: &'static str = "Failed to start Nginx";

/// The command that tells whether the system service `unit` runs.
pub fn is_active_command(unit: &str) -> (r: Invocation)
    ensures
        r@ == (InvocationView { program: SYSTEMCTL@, args: seq![ARG_IS_ACTIVE@, unit@], dir: None }),
{
    let mut args: Vec<String> = Vec::new();
    push_str(&mut args, ARG_IS_ACTIVE);
    push_str(&mut args, unit);
    assert(texts(args@) =~= seq![ARG_IS_ACTIVE@, unit@]);
    invoke(SYSTEMCTL, args)
}

/// The command `program` with the single argument `arg`.
pub fn probe_command(program: &str, arg: &str) -> (r: Invocation)
    ensures
        r@ == (InvocationView { program: program@, args: seq![arg@], dir: None }),
{
    let mut args: Vec<String> = Vec::new();
    push_str(&mut args, arg);
    assert(texts(args@) =~= seq![arg@]);
    invoke(program, args)
}

/// The command that runs `script` in a shell with elevated privileges.
pub fn elevated_script(script: String) -> (r: Invocation)
    ensures
        r@ == (InvocationView {
            program: PKEXEC@,
            args: seq![BASH@, ARG_COMMAND@, script@],
            dir: None,
        }),
{
    let mut args: Vec<String> = Vec::new();
    push_str(&mut args, BASH);
    push_str(&mut args, ARG_COMMAND);
    push_text(&mut args, script);
    assert(texts(args@) =~= seq![BASH@, ARG_COMMAND@, script@]);
    invoke(PKEXEC, args)
}

/// The command that starts, stops or restarts the system service `unit`
/// with elevated privileges.
pub fn elevated_unit_command(action: &str, unit: &str) -> (r: Invocation)
    ensures
        r@ == (InvocationView {
            program: PKEXEC@,
            args: seq![SYSTEMCTL@, action@, unit@],
            dir: None,
        }),
{
    let mut args: Vec<String> = Vec::new();
    push_str(&mut args, SYSTEMCTL);
    push_str(&mut args, action);
    push_str(&mut args, unit);
    assert(texts(args@) =~= seq![SYSTEMCTL@, action@, unit@]);
    invoke(PKEXEC, args)
}

/// The version of Caddy: the first line that `caddy version` printed,
/// white space aside; none where the command did not succeed.
pub open spec fn caddy_version_of(report: RunReport) -> Option<Seq<char>> {
    match report {
        RunReport::Finished { success, stdout, .. } => if success {
            Some(
                trimmed(
                    match first_line(stdout@) {
                        Some(line) => line,
                        None => Seq::empty(),
                    },
                ),
            )
        } else {
            None
        },
        RunReport::NotStarted(_) => None,
    }
}

/// The version of Nginx: what `nginx -v` wrote to its error stream, white
/// space aside and without the words it begins with; none where the command
/// could not be started, or failed without writing anything.
pub open spec fn nginx_version_of(report: RunReport) -> Option<Seq<char>> {
    match report {
        RunReport::Finished { success, stderr, .. } => if success || stderr@.len() > 0 {
            Some(replace_all(trimmed(stderr@), NGINX_VERSION_PREFIX@, Seq::empty()))
        } else {
            None
        },
        RunReport::NotStarted(_) => None,
    }
}

/// The web servers of the machine, from the reports of the version
/// commands and of the `is-active` queries. A server is installed where its
/// version could be told. The active server is Caddy where it runs, else
/// Nginx where it runs.
pub open spec fn web_servers_found(
    caddy_version: RunReport,
    caddy_active: RunReport,
    nginx_version: RunReport,
    nginx_active: RunReport,
) -> WebServerStatusView {
    WebServerStatusView {
        caddy_installed: caddy_version_of(caddy_version) is Some,
        caddy_running: caddy_active.succeeded(),
        caddy_version: caddy_version_of(caddy_version),
        nginx_installed: nginx_version_of(nginx_version) is Some,
        nginx_running: nginx_active.succeeded(),
        nginx_version: nginx_version_of(nginx_version),
        active: if caddy_active.succeeded() {
            Some(CADDY@)
        } else if nginx_active.succeeded() {
            Some(NGINX@)
        } else {
            None
        },
    }
}

fn caddy_version_text(report: &RunReport) -> (r: Option<String>)
    ensures
        text_of(r) == caddy_version_of(*report),
{
    match report {
        RunReport::Finished { success, stdout, .. } => {
            if *success {
                match first_line_of(stdout.as_str()) {
                    Some(line) => Some(trim(line.as_str())),
                    None => {
                        let empty = String::new();
                        Some(trim(empty.as_str()))
                    },
                }
            } else {
                None
            }
        },
        RunReport::NotStarted(_) => None,
    }
}

fn nginx_version_text(report: &RunReport) -> (r: Option<String>)
    ensures
        text_of(r) == nginx_version_of(*report),
{
    match report {
        RunReport::Finished { success, stderr, .. } => {
            if *success || stderr.as_str().unicode_len() > 0 {
                let bare = trim(stderr.as_str());
                let nothing = String::new();
                Some(replace(bare.as_str(), NGINX_VERSION_PREFIX, nothing.as_str()))
            } else {
                None
            }
        },
        RunReport::NotStarted(_) => None,
    }
}

/// The web servers of the machine; see [`web_servers_found`].
pub fn detect_web_server(
    caddy_version: &RunReport,
    caddy_active: &RunReport,
    nginx_version: &RunReport,
    nginx_active: &RunReport,
) -> (r: WebServerStatus)
    ensures
        r@ == web_servers_found(*caddy_version, *caddy_active, *nginx_version, *nginx_active),
{
    let caddy = caddy_version_text(caddy_version);
    let nginx = nginx_version_text(nginx_version);
    let caddy_running = caddy_active.is_success();
    let nginx_running = nginx_active.is_success();
    let active = if caddy_running {
        Some(CADDY.to_string())
    } else if nginx_running {
        Some(NGINX.to_string())
    } else {
        None
    };
    WebServerStatus {
        caddy_installed: caddy.is_some(),
        caddy_running,
        caddy_version: caddy,
        nginx_installed: nginx.is_some(),
        nginx_running,
        nginx_version: nginx,
        active,
    }
}

/// The command line that installs `package` with a package manager.
pub open spec fn install_line(manager: PackageManager, package: Seq<char>) -> Seq<char> {
    (match manager {
        PackageManager::Apt => INSTALL_APT@,
        PackageManager::Dnf => INSTALL_DNF@,
        PackageManager::Pacman => INSTALL_PACMAN@,
        PackageManager::Zypper => INSTALL_ZYPPER@,
    }) + package
}

/// The command line that installs `package` with a package manager.
pub fn install_command_line(manager: PackageManager, package: &str) -> (r: String)
    ensures
        r@ == install_line(manager, package@),
{
    match manager {
        PackageManager::Apt => INSTALL_APT.to_string().concat(package),
        PackageManager::Dnf => INSTALL_DNF.to_string().concat(package),
        PackageManager::Pacman => INSTALL_PACMAN.to_string().concat(package),
        PackageManager::Zypper => INSTALL_ZYPPER.to_string().concat(package),
    }
}

/// The script that installs Caddy and prepares it for this application: it
/// lets Caddy reach the sockets of PHP, creates the directory of site
/// fragments, imports that directory from the main configuration, and
/// starts the server.
pub open spec fn caddy_setup(manager: PackageManager) -> Seq<char> {
    CADDY_SETUP_OPEN@ + install_line(manager, CADDY@) + CADDY_SETUP_CLOSE@
}

/// The script that installs Nginx and starts it.
pub open spec fn nginx_setup(manager: PackageManager) -> Seq<char> {
    NGINX_SETUP_OPEN@ + install_line(manager, NGINX@) + NGINX_SETUP_CLOSE@
}

/// The script that installs and sets up a web server, or the reason why
/// there is none: the server is not one of the two, or the package manager
/// is not known.
pub open spec fn server_setup(server: Seq<char>, package_manager: Seq<char>) -> Result<
    Seq<char>,
    Seq<char>,
> {
    if server == CADDY@ {
        match PackageManager::named(package_manager) {
            Some(manager) => Ok(caddy_setup(manager)),
            None => Err(UNSUPPORTED_MANAGER@),
        }
    } else if server == NGINX@ {
        match PackageManager::named(package_manager) {
            Some(manager) => Ok(nginx_setup(manager)),
            None => Err(UNSUPPORTED_MANAGER@),
        }
    } else {
        Err(UNKNOWN_SERVER@)
    }
}

/// The script that installs Caddy with `package_manager`.
pub fn install_caddy(package_manager: &str) -> (r: Result<String, Error>)
    ensures
        match PackageManager::named(package_manager@) {
            Some(manager) => r matches Ok(script) && script@ == caddy_setup(manager),
            None => r matches Err(Error::Unsupported(m)) && m@ == UNSUPPORTED_MANAGER@,
        },
{
    match PackageManager::parse(package_manager) {
        None => Err(Error::Unsupported(UNSUPPORTED_MANAGER.to_string())),
        Some(manager) => {
            let line = install_command_line(manager, CADDY);
            Ok(CADDY_SETUP_OPEN.to_string().concat(line.as_str()).concat(CADDY_SETUP_CLOSE))
        },
    }
}

/// The script that installs Nginx with `package_manager`.
pub fn install_nginx(package_manager: &str) -> (r: Result<String, Error>)
    ensures
        match PackageManager::named(package_manager@) {
            Some(manager) => r matches Ok(script) && script@ == nginx_setup(manager),
            None => r matches Err(Error::Unsupported(m)) && m@ == UNSUPPORTED_MANAGER@,
        },
{
    match PackageManager::parse(package_manager) {
        None => Err(Error::Unsupported(UNSUPPORTED_MANAGER.to_string())),
        Some(manager) => {
            let line = install_command_line(manager, NGINX);
            Ok(NGINX_SETUP_OPEN.to_string().concat(line.as_str()).concat(NGINX_SETUP_CLOSE))
        },
    }
}

/// The script that installs the web server `server` with
/// `package_manager`, to be run once with elevated privileges; see
/// [`server_setup`].
pub fn install_web_server(server: &str, package_manager: &str) -> (r: Result<String, Error>)
    ensures
        match server_setup(server@, package_manager@) {
            Ok(script) => r matches Ok(text) && text@ == script,
            Err(message) => r matches Err(Error::Unsupported(m)) && m@ == message,
        },
{
    if *server == *CADDY {
        install_caddy(package_manager)
    } else if *server == *NGINX {
        install_nginx(package_manager)
    } else {
        Err(Error::Unsupported(UNKNOWN_SERVER.to_string()))
    }
}

/// What became of a setup script: nothing to tell where it succeeded;
/// otherwise the failure, headed by `context`.
pub fn setup_result(report: RunReport, context: &str) -> (r: Result<(), Error>)
    ensures
        match outcome(report, context@, true) {
            Ok(_) => r is Ok,
            Err(failure) => r matches Err(e) && is_failure(e, failure),
        },
{
    match require_success(report, context, true) {
        Ok(_) => Ok(()),
        Err(e) => Err(e),
    }
}

/// The two commands that hand the machine over to the web server
/// `server`: the first stops the other server, and its failure does not
/// matter; the second starts `server`. A name other than `caddy` and
/// `nginx` is refused.
pub fn switch_web_server(server: &str) -> (r: Result<(Invocation, Invocation), Error>)
    ensures
        server@ == CADDY@ ==> (r matches Ok(pair) && pair.0@ == (InvocationView {
            program: PKEXEC@,
            args: seq![SYSTEMCTL@, ARG_STOP@, NGINX@],
            dir: None,
        }) && pair.1@ == (InvocationView {
            program: PKEXEC@,
            args: seq![SYSTEMCTL@, ARG_START@, CADDY@],
            dir: None,
        })),
        server@ != CADDY@ && server@ == NGINX@ ==> (r matches Ok(pair) && pair.0@
            == (InvocationView {
            program: PKEXEC@,
            args: seq![SYSTEMCTL@, ARG_STOP@, CADDY@],
            dir: None,
        }) && pair.1@ == (InvocationView {
            program: PKEXEC@,
            args: seq![SYSTEMCTL@, ARG_START@, NGINX@],
            dir: None,
        })),
        server@ != CADDY@ && server@ != NGINX@ ==> (r matches Err(Error::Unsupported(m)) && m@
            == UNKNOWN_SERVER@),
{
    if *server == *CADDY {
        Ok((elevated_unit_command(ARG_STOP, NGINX), elevated_unit_command(ARG_START, CADDY)))
    } else if *server == *NGINX {
        Ok((elevated_unit_command(ARG_STOP, CADDY), elevated_unit_command(ARG_START, NGINX)))
    } else {
        Err(Error::Unsupported(UNKNOWN_SERVER.to_string()))
    }
}

/// What became of starting a server after a switch: only a command that
/// could not be started is a failure.
pub fn switch_result(report: &RunReport, context: &str) -> (r: Result<(), Error>)
    ensures
        match *report {
            RunReport::NotStarted(cause) => r matches Err(Error::CommandNotStarted(m)) && m@
                == explained(context@, cause@),
            RunReport::Finished { .. } => r is Ok,
        },
{
    match report {
        RunReport::NotStarted(cause) => Err(
            Error::CommandNotStarted(explain(context, cause.as_str())),
        ),
        RunReport::Finished { .. } => Ok(()),
    }
}

// ---------------------------------------------------------------------------
// Name resolution
// ---------------------------------------------------------------------------
pub const DNSMASQ: &'static str = "dnsmasq";

pub const WHICH: &'static str = "which";

pub const SS: &'static str = "ss";

pub const ARG_LISTENING: &'static str = "-tlnp";

pub const DNS_PORT: &'static str = ":5353";

pub const ADDRESS_DOT_TEST: &'static str = "address=/.test/";

pub const ADDRESS_TEST: &'static str = "address=/test/";

pub const DOMAINS_TEST: &'static str = "Domains=~test";

pub const DNS_LOOPBACK: &'static str = "DNS=127.0.0.1";

pub const DNS_SETUP_OPEN: &'static str = "\nset -e\n\necho \"=== ServerMark DNS Setup ===\"\n\n# 1. Install dnsmasq if not present\nif ! command -v dnsmasq &> /dev/null; then\n    echo \"Installing dnsmasq...\"\n    ";

pub const DNS_SETUP_CLOSE: &'static str = "\nfi\n\n# 2. Stop dnsmasq service to reconfigure\necho \"Stopping dnsmasq service...\"\nsystemctl stop dnsmasq 2>/dev/null || true\nsystemctl disable dnsmasq 2>/dev/null || true\n\n# 3. Create ServerMark dnsmasq config (minimal to avoid conflicts with existing configs)\necho \"Configuring dnsmasq...\"\nmkdir -p /etc/dnsmasq.d\n\ncat > /etc/dnsmasq.d/servermark.conf << 'DNSCONF'\n# ServerMark DNS configuration\n# Resolve *.test domains to localhost\naddress=/.test/127.0.0.1\n\n# Use port 5353 to coexist with systemd-resolved\nport=5353\nDNSCONF\n\n# 3b. Create base config only if no other config exists\nif [ ! -f /etc/dnsmasq.d/local-dev.conf ] && [ ! -f /etc/dnsmasq.d/base.conf ]; then\n    cat > /etc/dnsmasq.d/servermark-base.conf << 'BASECONF'\n# ServerMark base DNS configuration\nlisten-address=127.0.0.1\nbind-interfaces\nno-resolv\nserver=8.8.8.8\nserver=1.1.1.1\ncache-size=1000\nBASECONF\nfi\n\n# 4. Ensure main dnsmasq.conf doesn't conflict\nif [ -f /etc/dnsmasq.conf ]; then\n    # Comment out any port= line in main config\n    sed -i 's/^port=/#port=/' /etc/dnsmasq.conf 2>/dev/null || true\nfi\n\n# 5. Configure systemd-resolved to forward .test to dnsmasq\necho \"Configuring systemd-resolved integration...\"\nmkdir -p /etc/systemd/resolved.conf.d\n\ncat > /etc/systemd/resolved.conf.d/servermark.conf << 'RESOLVEDCONF'\n[Resolve]\n# Forward .test domain queries to local dnsmasq\nDNS=127.0.0.1#5353\nDomains=~test\nRESOLVEDCONF\n\n# 6. Restart systemd-resolved to pick up new config\necho \"Restarting systemd-resolved...\"\nsystemctl restart systemd-resolved\n\n# 7. Enable and start dnsmasq\necho \"Starting dnsmasq...\"\nsystemctl enable dnsmasq\nsystemctl start dnsmasq\n\n# 8. Verify setup\nsleep 1\necho \"\"\necho \"=== Verification ===\"\n\nif systemctl is-active --quiet dnsmasq; then\n    echo \"\u{2713} dnsmasq is running on port 5353\"\nelse\n    echo \"\u{2717} dnsmasq failed to start\"\n    journalctl -u dnsmasq -n 5 --no-pager\n    exit 1\nfi\n\n# Test DNS resolution\necho \"Testing DNS resolution...\"\nif command -v resolvectl &> /dev/null; then\n    resolvectl query test.test 2>/dev/null && echo \"\u{2713} DNS resolution working\" || echo \"Note: DNS test query (this is normal if no .test site exists yet)\"\nfi\n\necho \"\"\necho \"=== Setup Complete ===\"\necho \"All *.test domains will now resolve to 127.0.0.1\"\n";

pub const DNS_INSTALL_CONTEXT: &'static str = "Failed to install DNS";

pub const DNS_FAILED_OPEN: &'static str = "Failed to install DNS:\n";

pub const NEWLINE: &'static str = "\n";

/// Whether a listing of listening sockets shows dnsmasq on its port.
pub open spec fn listens_for_dns(sockets: RunReport) -> bool {
    match sockets {
        RunReport::Finished { stdout, .. } => contains(stdout@, DNS_PORT@) && contains(
            stdout@,
            DNSMASQ@,
        ),
        RunReport::NotStarted(_) => false,
    }
}

/// Whether a configuration file of dnsmasq resolves the `test` domain.
pub open spec fn resolves_test(conf: Seq<char>) -> bool {
    contains(conf, ADDRESS_DOT_TEST@) || contains(conf, ADDRESS_TEST@)
}

/// Whether one of the configuration files resolves the `test` domain.
pub open spec fn any_resolves_test(confs: Seq<Seq<char>>) -> bool {
    exists|i: int| 0 <= i < confs.len() && resolves_test(#[trigger] confs[i])
}

/// How far name resolution is set up.
///
/// dnsmasq is installed where `which` found it; it runs where the service
/// is active or the socket listing shows it on port 5353; it is configured
/// where the file of this application, or any file of its configuration
/// directory, resolves the `test` domain; the resolver is configured where
/// its drop-in forwards `test` or points at the loopback address.
pub open spec fn dns_found(
    which: RunReport,
    active: RunReport,
    sockets: RunReport,
    own_conf: Option<Seq<char>>,
    confs: Seq<Seq<char>>,
    resolved_conf: Option<Seq<char>>,
) -> DnsStatus {
    DnsStatus {
        dnsmasq_installed: which.succeeded(),
        dnsmasq_running: active.succeeded() || listens_for_dns(sockets),
        dnsmasq_configured: (own_conf matches Some(conf) && contains(conf, ADDRESS_DOT_TEST@))
            || any_resolves_test(confs),
        resolver_configured: resolved_conf matches Some(conf) && (contains(conf, DOMAINS_TEST@)
            || contains(conf, DNS_LOOPBACK@)),
    }
}

fn mentions(text: &str, word: &str) -> (r: bool)
    ensures
        r == contains(text@, word@),
{
    let haystack = to_chars(text);
    let needle = to_chars(word);
    has_substring(&haystack, &needle)
}

/// How far name resolution is set up; see [`dns_found`]. `own_conf` and
/// `resolved_conf` are the texts of the two files of this application where
/// they could be read, `confs` the texts of the readable files of the
/// configuration directory of dnsmasq.
pub fn detect_dns(
    which: &RunReport,
    active: &RunReport,
    sockets: &RunReport,
    own_conf: &Option<String>,
    confs: &Vec<String>,
    resolved_conf: &Option<String>,
) -> (r: DnsStatus)
    ensures
        r == dns_found(
            *which,
            *active,
            *sockets,
            text_of(*own_conf),
            texts(confs@),
            text_of(*resolved_conf),
        ),
{
    let listening = match sockets {
        RunReport::Finished { stdout, .. } => mentions(stdout.as_str(), DNS_PORT) && mentions(
            stdout.as_str(),
            DNSMASQ,
        ),
        RunReport::NotStarted(_) => false,
    };
    let own = match own_conf {
        Some(conf) => mentions(conf.as_str(), ADDRESS_DOT_TEST),
        None => false,
    };
    let mut other = false;
    let mut i: usize = 0;
    while i < confs.len()
        invariant
            i <= confs.len(),
            other == any_resolves_test(texts(confs@).take(i as int)),
        decreases confs.len() - i,
    {
        let ghost before = texts(confs@).take(i as int);
        let ghost after = texts(confs@).take(i + 1);
        let here = mentions(confs[i].as_str(), ADDRESS_DOT_TEST) || mentions(
            confs[i].as_str(),
            ADDRESS_TEST,
        );
        proof {
            assert(after[i as int] == confs@[i as int]@);
            if other {
                let k = choose|k: int| 0 <= k < before.len() && resolves_test(#[trigger] before[k]);
                assert(after[k] == before[k]);
            }
            if any_resolves_test(after) && !here {
                let k = choose|k: int| 0 <= k < after.len() && resolves_test(#[trigger] after[k]);
                assert(before[k] == after[k]);
            }
        }
        other = other || here;
        i += 1;
    }
    assert(texts(confs@).take(confs@.len() as int) =~= texts(confs@));
    let resolver = match resolved_conf {
        Some(conf) => mentions(conf.as_str(), DOMAINS_TEST) || mentions(conf.as_str(), DNS_LOOPBACK),
        None => false,
    };
    DnsStatus {
        dnsmasq_installed: which.is_success(),
        dnsmasq_running: active.is_success() || listening,
        dnsmasq_configured: own || other,
        resolver_configured: resolver,
    }
}

/// The script that installs dnsmasq and makes every `test` domain resolve
/// to the loopback address: dnsmasq answers on port 5353, and the system
/// resolver forwards the `test` domain to it.
pub open spec fn dns_setup(manager: PackageManager) -> Seq<char> {
    DNS_SETUP_OPEN@ + install_line(manager, DNSMASQ@) + DNS_SETUP_CLOSE@
}

/// The script that sets up name resolution with `package_manager`, to be
/// run once with elevated privileges.
pub fn install_dns(package_manager: &str) -> (r: Result<String, Error>)
    ensures
        match PackageManager::named(package_manager@) {
            Some(manager) => r matches Ok(script) && script@ == dns_setup(manager),
            None => r matches Err(Error::Unsupported(m)) && m@ == UNSUPPORTED_MANAGER@,
        },
{
    match PackageManager::parse(package_manager) {
        None => Err(Error::Unsupported(UNSUPPORTED_MANAGER.to_string())),
        Some(manager) => {
            let line = install_command_line(manager, DNSMASQ);
            Ok(DNS_SETUP_OPEN.to_string().concat(line.as_str()).concat(DNS_SETUP_CLOSE))
        },
    }
}

/// What became of setting up name resolution: nothing to tell where the
/// script succeeded; otherwise the failure, with both streams of the script
/// where it ran.
pub fn install_dns_result(report: RunReport) -> (r: Result<(), Error>)
    ensures
        match report {
            RunReport::NotStarted(cause) => r matches Err(Error::CommandNotStarted(m)) && m@
                == explained(DNS_INSTALL_CONTEXT@, cause@),
            RunReport::Finished { success, stdout, stderr } => if success {
                r is Ok
            } else {
                r matches Err(Error::CommandFailed(m)) && m@ == DNS_FAILED_OPEN@ + stdout@
                    + NEWLINE@ + stderr@
            },
        },
{
    match report {
        RunReport::NotStarted(cause) => Err(
            Error::CommandNotStarted(explain(DNS_INSTALL_CONTEXT, cause.as_str())),
        ),
        RunReport::Finished { success, stdout, stderr } => {
            if success {
                Ok(())
            } else {
                let mut message = DNS_FAILED_OPEN.to_string();
                message.append(stdout.as_str());
                message.append(NEWLINE);
                message.append(stderr.as_str());
                Err(Error::CommandFailed(message))
            }
        },
    }
}

// ---------------------------------------------------------------------------
// Services installed on the machine
// ---------------------------------------------------------------------------
pub const MYSQL: &'static str = "mysql";

pub const MARIADB: &'static str = "mariadb";

pub const POSTGRESQL: &'static str = "postgresql";

pub const REDIS: &'static str = "redis";

pub const REDIS_SERVER: &'static str = "redis-server";

pub const MEMCACHED: &'static str = "memcached";

pub const PSQL: &'static str = "psql";

pub const ARG_LONG_VERSION: &'static str = "--version";

pub const ARG_HELP: &'static str = "-h";

pub const ARG_STATUS: &'static str = "status";

pub const MYSQL_LABEL: &'static str = "MySQL/MariaDB";

pub const POSTGRESQL_LABEL: &'static str = "PostgreSQL";

pub const REDIS_LABEL: &'static str = "Redis";

pub const MEMCACHED_LABEL: &'static str = "Memcached";

pub const VERSION_MARK: &'static str = "v=";

pub const MYSQL_PORT: u16 = 3306;

pub const POSTGRESQL_PORT: u16 = 5432;

pub const REDIS_PORT: u16 = 6379;

pub const MEMCACHED_PORT: u16 = 11211;

/// The word at `index` of a text, or nothing where it has fewer words.
pub open spec fn word_at(text: Seq<char>, index: int) -> Seq<char> {
    if 0 <= index < words(text).len() {
        words(text)[index]
    } else {
        Seq::empty()
    }
}

/// The version in what `mysql --version` printed: the third word, without
/// the commas it ends with.
pub open spec fn mysql_version_in(stdout: Seq<char>) -> Seq<char> {
    strip_end(word_at(stdout, 2), CharSet::Only(','))
}

/// The version in what `psql --version` printed: the last word.
pub open spec fn postgresql_version_in(stdout: Seq<char>) -> Seq<char> {
    word_at(stdout, words(stdout).len() - 1)
}

/// The first of the words that begins with `v=`, without the `v=`s it
/// begins with; nothing where no word does.
pub open spec fn marked_version(all: Seq<Seq<char>>) -> Seq<char>
    decreases all.len(),
{
    if all.len() == 0 {
        Seq::empty()
    } else if starts_with(all[0], VERSION_MARK@) {
        without_prefixes(all[0], VERSION_MARK@)
    } else {
        marked_version(all.skip(1))
    }
}

/// The version in what `redis-server --version` printed.
pub open spec fn redis_version_in(stdout: Seq<char>) -> Seq<char> {
    marked_version(words(stdout))
}

/// The version in what `memcached -h` printed: the second word of the
/// first line.
pub open spec fn memcached_version_in(stdout: Seq<char>) -> Seq<char> {
    match first_line(stdout) {
        Some(line) => word_at(line, 1),
        None => Seq::empty(),
    }
}

/// The output of a command that succeeded.
pub open spec fn output_of(report: RunReport) -> Option<Seq<char>> {
    match report {
        RunReport::Finished { success, stdout, .. } => if success {
            Some(stdout@)
        } else {
            None
        },
        RunReport::NotStarted(_) => None,
    }
}

/// The version of MySQL, where `mysql --version` succeeded.
pub open spec fn mysql_version_of(report: RunReport) -> Option<Seq<char>> {
    match output_of(report) {
        Some(stdout) => Some(mysql_version_in(stdout)),
        None => None,
    }
}

/// The version of PostgreSQL, where `psql --version` succeeded.
pub open spec fn postgresql_version_of(report: RunReport) -> Option<Seq<char>> {
    match output_of(report) {
        Some(stdout) => Some(postgresql_version_in(stdout)),
        None => None,
    }
}

/// The version of Redis, where `redis-server --version` succeeded.
pub open spec fn redis_version_of(report: RunReport) -> Option<Seq<char>> {
    match output_of(report) {
        Some(stdout) => Some(redis_version_in(stdout)),
        None => None,
    }
}

/// The version of Memcached, where `memcached -h` wrote anything at all.
pub open spec fn memcached_version_of(report: RunReport) -> Option<Seq<char>> {
    match report {
        RunReport::Finished { stdout, stderr, .. } => if stdout@.len() > 0 || stderr@.len() > 0 {
            Some(memcached_version_in(stdout@))
        } else {
            None
        },
        RunReport::NotStarted(_) => None,
    }
}

/// A service, from what is known of it: it is installed where its version
/// could be told.
pub open spec fn service_found(
    name: Seq<char>,
    display_name: Seq<char>,
    running: bool,
    version: Option<Seq<char>>,
    port: u16,
) -> NativeServiceView {
    NativeServiceView {
        name: name,
        display_name: display_name,
        installed: version is Some,
        running: running,
        version: version,
        port: Some(port),
    }
}

/// What the probes of the four services reported.
pub struct ServiceProbes {
    pub mysql_version: RunReport,
    pub mysql_active: RunReport,
    pub mariadb_active: RunReport,
    pub postgresql_version: RunReport,
    pub postgresql_active: RunReport,
    pub redis_version: RunReport,
    pub redis_active: RunReport,
    pub redis_server_active: RunReport,
    pub memcached_version: RunReport,
    pub memcached_active: RunReport,
}

/// The four services, from the reports of their probes: MySQL (which runs
/// where either `mysql` or `mariadb` is active), PostgreSQL, Redis (either
/// `redis` or `redis-server`) and Memcached, in this order.
pub open spec fn services_found(probes: ServiceProbes) -> Seq<NativeServiceView> {
    seq![
        service_found(
            MYSQL@,
            MYSQL_LABEL@,
            probes.mysql_active.succeeded() || probes.mariadb_active.succeeded(),
            mysql_version_of(probes.mysql_version),
            MYSQL_PORT,
        ),
        service_found(
            POSTGRESQL@,
            POSTGRESQL_LABEL@,
            probes.postgresql_active.succeeded(),
            postgresql_version_of(probes.postgresql_version),
            POSTGRESQL_PORT,
        ),
        service_found(
            REDIS@,
            REDIS_LABEL@,
            probes.redis_active.succeeded() || probes.redis_server_active.succeeded(),
            redis_version_of(probes.redis_version),
            REDIS_PORT,
        ),
        service_found(
            MEMCACHED@,
            MEMCACHED_LABEL@,
            probes.memcached_active.succeeded(),
            memcached_version_of(probes.memcached_version),
            MEMCACHED_PORT,
        ),
    ]
}

fn word_of(text: &str, index: usize) -> (r: String)
    ensures
        r@ == word_at(text@, index as int),
{
    let all = split_words(text);
    if index < all.len() {
        assert(texts(all@)[index as int] == all@[index as int]@);
        all[index].clone()
    } else {
        String::new()
    }
}

fn mysql_version_text(report: &RunReport) -> (r: Option<String>)
    ensures
        text_of(r) == mysql_version_of(*report),
{
    match report {
        RunReport::Finished { success, stdout, .. } => {
            if *success {
                let word = word_of(stdout.as_str(), 2);
                Some(strip_end_of(word.as_str(), CharSet::Only(',')))
            } else {
                None
            }
        },
        RunReport::NotStarted(_) => None,
    }
}

fn postgresql_version_text(report: &RunReport) -> (r: Option<String>)
    ensures
        text_of(r) == postgresql_version_of(*report),
{
    match report {
        RunReport::Finished { success, stdout, .. } => {
            if *success {
                let all = split_words(stdout.as_str());
                if all.len() > 0 {
                    assert(texts(all@)[all@.len() - 1] == all@[all@.len() - 1]@);
                    Some(all[all.len() - 1].clone())
                } else {
                    Some(String::new())
                }
            } else {
                None
            }
        },
        RunReport::NotStarted(_) => None,
    }
}

fn find_marked_version(all: &Vec<String>) -> (r: String)
    ensures
        r@ == marked_version(texts(all@)),
{
    let ghost every = texts(all@);
    let mark = to_chars(VERSION_MARK);
    let mut i: usize = 0;
    assert(every.skip(0) =~= every);
    while i < all.len()
        invariant
            i <= all.len(),
            every == texts(all@),
            mark@ == VERSION_MARK@,
            marked_version(every) == marked_version(every.skip(i as int)),
        decreases all.len() - i,
    {
        let ghost rest = every.skip(i as int);
        assert(rest[0] == all@[i as int]@);
        assert(rest.skip(1) =~= every.skip(i + 1));
        let word = to_chars(all[i].as_str());
        if has_prefix(&word, &mark) {
            return strip_prefixes(all[i].as_str(), VERSION_MARK);
        }
        i += 1;
    }
    assert(every.skip(all@.len() as int).len() == 0);
    String::new()
}

fn redis_version_text(report: &RunReport) -> (r: Option<String>)
    ensures
        text_of(r) == redis_version_of(*report),
{
    match report {
        RunReport::Finished { success, stdout, .. } => {
            if *success {
                let all = split_words(stdout.as_str());
                Some(find_marked_version(&all))
            } else {
                None
            }
        },
        RunReport::NotStarted(_) => None,
    }
}

fn memcached_version_text(report: &RunReport) -> (r: Option<String>)
    ensures
        text_of(r) == memcached_version_of(*report),
{
    match report {
        RunReport::Finished { stdout, stderr, .. } => {
            if stdout.as_str().unicode_len() > 0 || stderr.as_str().unicode_len() > 0 {
                match first_line_of(stdout.as_str()) {
                    Some(line) => Some(word_of(line.as_str(), 1)),
                    None => Some(String::new()),
                }
            } else {
                None
            }
        },
        RunReport::NotStarted(_) => None,
    }
}

fn make_service(name: &str, display_name: &str, running: bool, version: Option<String>, port: u16) -> (r:
    NativeService)
    ensures
        r@ == service_found(name@, display_name@, running, text_of(version), port),
{
    NativeService {
        name: name.to_string(),
        display_name: display_name.to_string(),
        installed: version.is_some(),
        running,
        version,
        port: Some(port),
    }
}

/// The services installed on the machine itself; see [`services_found`].
pub fn detect_native_services(probes: &ServiceProbes) -> (r: NativeServicesStatus)
    ensures
        service_views(r.services@) == services_found(*probes),
{
    let mut services: Vec<NativeService> = Vec::new();
    services.push(
        make_service(
            MYSQL,
            MYSQL_LABEL,
            probes.mysql_active.is_success() || probes.mariadb_active.is_success(),
            mysql_version_text(&probes.mysql_version),
            MYSQL_PORT,
        ),
    );
    services.push(
        make_service(
            POSTGRESQL,
            POSTGRESQL_LABEL,
            probes.postgresql_active.is_success(),
            postgresql_version_text(&probes.postgresql_version),
            POSTGRESQL_PORT,
        ),
    );
    services.push(
        make_service(
            REDIS,
            REDIS_LABEL,
            probes.redis_active.is_success() || probes.redis_server_active.is_success(),
            redis_version_text(&probes.redis_version),
            REDIS_PORT,
        ),
    );
    services.push(
        make_service(
            MEMCACHED,
            MEMCACHED_LABEL,
            probes.memcached_active.is_success(),
            memcached_version_text(&probes.memcached_version),
            MEMCACHED_PORT,
        ),
    );
    assert(service_views(services@) =~= services_found(*probes));
    NativeServicesStatus { services }
}

// ---------------------------------------------------------------------------
// Controlling services
// ---------------------------------------------------------------------------
pub const UNKNOWN_SERVICE: &'static str = "Unknown service";

pub const UNKNOWN_ACTION: &'static str = "Unknown action";

pub const FAILED_TO: &'static str = "Failed to ";

pub const SPACE: &'static str = " ";

/// The unit whose state decides under which name the service `service` is
/// controlled: MariaDB for `mysql`, the Redis server for `redis`, none for
/// any other service.
pub open spec fn alternative_unit(service: Seq<char>) -> Option<Seq<char>> {
    if service == MYSQL@ {
        Some(MARIADB@)
    } else if service == REDIS@ {
        Some(REDIS_SERVER@)
    } else {
        None
    }
}

/// Whether the report of `systemctl status` shows the unit `unit`: the
/// command succeeded or printed the name of the unit.
pub open spec fn shows_unit(report: RunReport, unit: Seq<char>) -> bool {
    match report {
        RunReport::Finished { success, stdout, .. } => success || contains(stdout@, unit),
        RunReport::NotStarted(_) => false,
    }
}

/// The unit under which a service is controlled: the alternative unit of
/// `mysql` and `redis` where the status probe shows it, the service itself
/// for the services that are known, and none for any other.
pub open spec fn unit_of(service: Seq<char>, probe: Option<RunReport>) -> Option<Seq<char>> {
    if service == MYSQL@ || service == REDIS@ {
        match probe {
            Some(report) => if shows_unit(report, alternative_unit(service)->0) {
                alternative_unit(service)
            } else {
                Some(service)
            },
            None => Some(service),
        }
    } else if service == POSTGRESQL@ || service == MEMCACHED@ || service == DNSMASQ@ || service
        == CADDY@ || service == NGINX@ {
        Some(service)
    } else {
        None
    }
}

/// Whether `action` is one of `start`, `stop` and `restart`.
pub open spec fn is_action(action: Seq<char>) -> bool {
    action == ARG_START@ || action == ARG_STOP@ || action == ARG_RESTART@
}

/// The command that asks for the status of the alternative unit of a
/// service, for the services that have one.
pub fn service_probe_command(service: &str) -> (r: Option<Invocation>)
    ensures
        match alternative_unit(service@) {
            Some(unit) => r matches Some(command) && command@ == (InvocationView {
                program: SYSTEMCTL@,
                args: seq![ARG_STATUS@, unit],
                dir: None,
            }),
            None => r is None,
        },
{
    let unit = if *service == *MYSQL {
        MARIADB
    } else if *service == *REDIS {
        REDIS_SERVER
    } else {
        return None;
    };
    let mut args: Vec<String> = Vec::new();
    push_str(&mut args, ARG_STATUS);
    push_str(&mut args, unit);
    assert(texts(args@) =~= seq![ARG_STATUS@, unit@]);
    Some(invoke(SYSTEMCTL, args))
}

fn shows(report: &RunReport, unit: &str) -> (r: bool)
    ensures
        r == shows_unit(*report, unit@),
{
    match report {
        RunReport::Finished { success, stdout, .. } => *success || mentions(stdout.as_str(), unit),
        RunReport::NotStarted(_) => false,
    }
}

/// The command that starts, stops or restarts a service, with elevated
/// privileges.
///
/// `probe` is the report of the status probe for the services that have
/// one. A service that is not known is refused, and so is, for a service
/// that is known, an action other than `start`, `stop` and `restart`; the
/// message names what was refused.
pub fn control_native_service(service: &str, action: &str, probe: Option<&RunReport>) -> (r: Result<
    Invocation,
    Error,
>)
    ensures
        match unit_of(
            service@,
            match probe {
                Some(report) => Some(*report),
                None => None,
            },
        ) {
            None => r matches Err(Error::Unsupported(m)) && m@ == explained(
                UNKNOWN_SERVICE@,
                service@,
            ),
            Some(unit) => if is_action(action@) {
                r matches Ok(command) && command@ == (InvocationView {
                    program: PKEXEC@,
                    args: seq![SYSTEMCTL@, action@, unit],
                    dir: None,
                })
            } else {
                r matches Err(Error::Unsupported(m)) && m@ == explained(UNKNOWN_ACTION@, action@)
            },
        },
{
    let unit = if *service == *MYSQL {
        match probe {
            Some(report) => if shows(report, MARIADB) {
                MARIADB
            } else {
                MYSQL
            },
            None => MYSQL,
        }
    } else if *service == *REDIS {
        match probe {
            Some(report) => if shows(report, REDIS_SERVER) {
                REDIS_SERVER
            } else {
                REDIS
            },
            None => REDIS,
        }
    } else if *service == *POSTGRESQL {
        POSTGRESQL
    } else if *service == *MEMCACHED {
        MEMCACHED
    } else if *service == *DNSMASQ {
        DNSMASQ
    } else if *service == *CADDY {
        CADDY
    } else if *service == *NGINX {
        NGINX
    } else {
        return Err(Error::Unsupported(explain(UNKNOWN_SERVICE, service)));
    };
    if *action == *ARG_START || *action == *ARG_STOP || *action == *ARG_RESTART {
        Ok(elevated_unit_command(action, unit))
    } else {
        Err(Error::Unsupported(explain(UNKNOWN_ACTION, action)))
    }
}

/// What is said when `action` on `service` failed.
pub open spec fn control_context(service: Seq<char>, action: Seq<char>) -> Seq<char> {
    FAILED_TO@ + action + SPACE@ + service
}

/// What became of controlling a service: nothing to tell where the command
/// succeeded; otherwise the failure, under a heading that names action and
/// service.
pub fn control_result(service: &str, action: &str, report: RunReport) -> (r: Result<(), Error>)
    ensures
        match outcome(report, control_context(service@, action@), true) {
            Ok(_) => r is Ok,
            Err(failure) => r matches Err(e) && is_failure(e, failure),
        },
{
    let context = FAILED_TO.to_string().concat(action).concat(SPACE).concat(service);
    match require_success(report, context.as_str(), true) {
        Ok(_) => Ok(()),
        Err(e) => Err(e),
    }
}

// ---------------------------------------------------------------------------
// Terminals
// ---------------------------------------------------------------------------
pub const TERMINAL_COUNT: usize = 8;

pub const XTERM_INDEX: usize = 7;

pub const ARG_EXECUTE: &'static str = "-e";

pub const CD_OPEN: &'static str = "cd '";

pub const CD_CLOSE: &'static str = "' && $SHELL";

pub const NO_TERMINAL: &'static str = "No supported terminal emulator found";

pub const TERMINAL_CONTEXT: &'static str = "Failed to open terminal";

/// The terminal emulators that are tried, in the order of preference, each
/// with the flag that sets its working directory. The last one, `xterm`, is
/// started with a shell command instead.
pub open spec fn terminal(index: int) -> (Seq<char>, Seq<char>) {
    if index == 0 {
        ("gnome-terminal"@, "--working-directory"@)
    } else if index == 1 {
        ("konsole"@, "--workdir"@)
    } else if index == 2 {
        ("xfce4-terminal"@, "--working-directory"@)
    } else if index == 3 {
        ("terminator"@, "--working-directory"@)
    } else if index == 4 {
        ("tilix"@, "--working-directory"@)
    } else if index == 5 {
        ("alacritty"@, "--working-directory"@)
    } else if index == 6 {
        ("kitty"@, "--directory"@)
    } else {
        ("xterm"@, ARG_EXECUTE@)
    }
}

fn terminal_at(index: usize) -> (r: (&'static str, &'static str))
    ensures
        r.0@ == terminal(index as int).0,
        r.1@ == terminal(index as int).1,
{
    if index == 0 {
        ("gnome-terminal", "--working-directory")
    } else if index == 1 {
        ("konsole", "--workdir")
    } else if index == 2 {
        ("xfce4-terminal", "--working-directory")
    } else if index == 3 {
        ("terminator", "--working-directory")
    } else if index == 4 {
        ("tilix", "--working-directory")
    } else if index == 5 {
        ("alacritty", "--working-directory")
    } else if index == 6 {
        ("kitty", "--directory")
    } else {
        ("xterm", ARG_EXECUTE)
    }
}

/// The command that tells whether the terminal at `index` is installed.
pub fn terminal_probe(index: usize) -> (r: Invocation)
    ensures
        r@ == (InvocationView {
            program: WHICH@,
            args: seq![terminal(index as int).0],
            dir: None,
        }),
{
    let (name, _) = terminal_at(index);
    probe_command(WHICH, name)
}

/// The index of the first terminal among the first `count` that is
/// installed; `available` tells of each terminal whether it is, and a
/// terminal it does not reach is not.
pub open spec fn first_terminal(available: Seq<bool>, count: nat) -> Option<int>
    decreases count,
{
    if count == 0 {
        None
    } else {
        match first_terminal(available, (count - 1) as nat) {
            Some(i) => Some(i),
            None => if count - 1 < available.len() && available[count - 1] {
                Some(count - 1)
            } else {
                None
            },
        }
    }
}

/// The arguments that open the terminal at `index` in the directory
/// `path`.
pub open spec fn terminal_args(index: int, path: Seq<char>) -> Seq<Seq<char>> {
    if index == XTERM_INDEX {
        seq![ARG_EXECUTE@, CD_OPEN@ + path + CD_CLOSE@]
    } else {
        seq![terminal(index).1, path]
    }
}

/// The command that opens a terminal in the directory `path`: that of the
/// first terminal that is installed. Without any of them there is none.
pub fn open_terminal(path: &str, available: &Vec<bool>) -> (r: Result<Invocation, Error>)
    ensures
        match first_terminal(available@, TERMINAL_COUNT as nat) {
            Some(index) => r matches Ok(command) && command@ == (InvocationView {
                program: terminal(index).0,
                args: terminal_args(index, path@),
                dir: None,
            }),
            None => r matches Err(Error::Unsupported(m)) && m@ == NO_TERMINAL@,
        },
{
    let mut i: usize = 0;
    while i < TERMINAL_COUNT
        invariant
            i <= TERMINAL_COUNT,
            first_terminal(available@, i as nat) is None,
        decreases TERMINAL_COUNT - i,
    {
        if i < available.len() && available[i] {
            proof {
                lemma_first_terminal(available@, i as nat, TERMINAL_COUNT as nat);
            }
            let (name, flag) = terminal_at(i);
            let mut args: Vec<String> = Vec::new();
            if i == XTERM_INDEX {
                push_str(&mut args, ARG_EXECUTE);
                push_text(&mut args, CD_OPEN.to_string().concat(path).concat(CD_CLOSE));
            } else {
                push_str(&mut args, flag);
                push_str(&mut args, path);
            }
            assert(texts(args@) =~= terminal_args(i as int, path@));
            return Ok(invoke(name, args));
        }
        i += 1;
    }
    Err(Error::Unsupported(NO_TERMINAL.to_string()))
}

/// Where no terminal before `index` is installed and the one at `index`
/// is, it is the first among any number that reaches it.
pub proof fn lemma_first_terminal(available: Seq<bool>, index: nat, count: nat)
    requires
        first_terminal(available, index) is None,
        index < available.len() && available[index as int],
        index < count,
    ensures
        first_terminal(available, count) == Some(index as int),
    decreases count,
{
    if count > index + 1 {
        lemma_first_terminal(available, index, (count - 1) as nat);
    }
}

/// What became of opening a terminal: only a terminal that could not be
/// started is a failure.
pub fn terminal_result(report: &RunReport) -> (r: Result<(), Error>)
    ensures
        match *report {
            RunReport::NotStarted(cause) => r matches Err(Error::CommandNotStarted(m)) && m@
                == explained(TERMINAL_CONTEXT@, cause@),
            RunReport::Finished { .. } => r is Ok,
        },
{
    switch_result(report, TERMINAL_CONTEXT)
}

// ---------------------------------------------------------------------------
// Logs of services
// ---------------------------------------------------------------------------
pub const PHP_FPM: &'static str = "php-fpm";

pub const PHP_FPM_UNITS: &'static str = "php*-fpm";

pub const JOURNALCTL: &'static str = "journalctl";

pub const ARG_UNIT: &'static str = "-u";

pub const ARG_COUNT: &'static str = "-n";

pub const ARG_NO_PAGER: &'static str = "--no-pager";

pub const LOGS_CONTEXT: &'static str = "Failed to get logs";

pub const CADDY_ACCESS_LOG: &'static str = "/var/log/caddy/access.log";

pub const CADDY_ERROR_LOG: &'static str = "/var/log/caddy/error.log";

pub const NGINX_ACCESS_LOG: &'static str = "/var/log/nginx/access.log";

pub const NGINX_ERROR_LOG: &'static str = "/var/log/nginx/error.log";

/// The units whose journal holds the log of a service: every PHP process
/// manager for `php-fpm`, the service itself for the other services that
/// are known, none for any other.
pub open spec fn journal_unit(service: Seq<char>) -> Option<Seq<char>> {
    if service == PHP_FPM@ {
        Some(PHP_FPM_UNITS@)
    } else if service == CADDY@ || service == NGINX@ || service == MYSQL@ || service == MARIADB@
        || service == POSTGRESQL@ || service == REDIS@ || service == DNSMASQ@ {
        Some(service)
    } else {
        None
    }
}

/// The command that shows the last `lines` lines of the journal of a
/// service. A service that is not known is refused.
pub fn service_logs_command(service: &str, lines: u32) -> (r: Result<Invocation, Error>)
    ensures
        match journal_unit(service@) {
            Some(unit) => r matches Ok(command) && command@ == (InvocationView {
                program: JOURNALCTL@,
                args: seq![ARG_UNIT@, unit, ARG_COUNT@, decimal(lines as nat), ARG_NO_PAGER@],
                dir: None,
            }),
            None => r matches Err(Error::Unsupported(m)) && m@ == explained(
                UNKNOWN_SERVICE@,
                service@,
            ),
        },
{
    let unit = if *service == *PHP_FPM {
        PHP_FPM_UNITS
    } else if *service == *CADDY || *service == *NGINX || *service == *MYSQL || *service
        == *MARIADB || *service == *POSTGRESQL || *service == *REDIS || *service == *DNSMASQ {
        service
    } else {
        return Err(Error::Unsupported(explain(UNKNOWN_SERVICE, service)));
    };
    let mut args: Vec<String> = Vec::new();
    push_str(&mut args, ARG_UNIT);
    push_str(&mut args, unit);
    push_str(&mut args, ARG_COUNT);
    push_text(&mut args, decimal_string(lines as u64));
    push_str(&mut args, ARG_NO_PAGER);
    assert(texts(args@) =~= seq![
        ARG_UNIT@,
        unit@,
        ARG_COUNT@,
        decimal(lines as nat),
        ARG_NO_PAGER@,
    ]);
    Ok(invoke(JOURNALCTL, args))
}

/// The files to read where the journal of a service cannot be had: the
/// access log and the error log of a web server, in this order; none for
/// any other service.
pub open spec fn log_files(service: Seq<char>) -> Seq<Seq<char>> {
    if service == CADDY@ {
        seq![CADDY_ACCESS_LOG@, CADDY_ERROR_LOG@]
    } else if service == NGINX@ {
        seq![NGINX_ACCESS_LOG@, NGINX_ERROR_LOG@]
    } else {
        Seq::empty()
    }
}

/// The files to read where the journal of a service cannot be had.
pub fn service_log_files(service: &str) -> (r: Vec<String>)
    ensures
        texts(r@) == log_files(service@),
{
    let mut files: Vec<String> = Vec::new();
    if *service == *CADDY {
        push_str(&mut files, CADDY_ACCESS_LOG);
        push_str(&mut files, CADDY_ERROR_LOG);
        assert(texts(files@) =~= seq![CADDY_ACCESS_LOG@, CADDY_ERROR_LOG@]);
    } else if *service == *NGINX {
        push_str(&mut files, NGINX_ACCESS_LOG);
        push_str(&mut files, NGINX_ERROR_LOG);
        assert(texts(files@) =~= seq![NGINX_ACCESS_LOG@, NGINX_ERROR_LOG@]);
    } else {
        assert(texts(files@) =~= Seq::<Seq<char>>::empty());
    }
    files
}

/// The log of a service to show.
///
/// Where the journal could be read it is what the command printed. Where
/// it could not, and `fallback` holds the text of the first log file that
/// could be read, it is the last `lines` lines of that file; without such a
/// file it is still what the command printed. Only a command that could not
/// be started is a failure.
pub fn get_service_logs(report: RunReport, fallback: Option<&str>, lines: u32) -> (r: Result<
    String,
    Error,
>)
    ensures
        match report {
            RunReport::NotStarted(cause) => r matches Err(Error::CommandNotStarted(m)) && m@
                == explained(LOGS_CONTEXT@, cause@),
            RunReport::Finished { success, stdout, .. } => r matches Ok(log) && log@ == (
            if success {
                stdout@
            } else {
                match fallback {
                    Some(content) => tail_of(content@, lines as nat),
                    None => stdout@,
                }
            }),
        },
{
    match report {
        RunReport::NotStarted(cause) => Err(
            Error::CommandNotStarted(explain(LOGS_CONTEXT, cause.as_str())),
        ),
        RunReport::Finished { success, stdout, stderr: _ } => {
            if success {
                Ok(stdout)
            } else {
                match fallback {
                    Some(content) => Ok(tail(content, lines as usize)),
                    None => Ok(stdout),
                }
            }
        },
    }
}

// ---------------------------------------------------------------------------
// Databases
// ---------------------------------------------------------------------------
/// The database servers that are known.
#[derive(Debug, Clone, Copy, PartialEq, Eq, Structural)]
pub enum DatabaseKind {
    Mysql,
    Postgresql,
}

pub const SHELL: &'static str = "sh";

pub const DOCKER_EXEC: &'static str = "docker exec ";

pub const MYSQL_IN_CONTAINER: &'static str = " mysql -uroot -psecret -e '";

pub const MYSQL_LOCAL: &'static str = "mysql -uroot -e '";

pub const PSQL_IN_CONTAINER: &'static str = " psql -U postgres -c '";

pub const PSQL_LOCAL: &'static str = "psql -U postgres -c '";

pub const SHOW_DATABASES: &'static str = "SHOW DATABASES;' 2>/dev/null";

pub const LIST_POSTGRESQL: &'static str = "\\l' -t 2>/dev/null";

pub const CREATE_MYSQL_OPEN: &'static str = "CREATE DATABASE IF NOT EXISTS `";

pub const DROP_MYSQL_OPEN: &'static str = "DROP DATABASE IF EXISTS `";

pub const MYSQL_CLOSE: &'static str = "`;'";

pub const CREATE_POSTGRESQL_OPEN: &'static str = "CREATE DATABASE \"";

pub const DROP_POSTGRESQL_OPEN: &'static str = "DROP DATABASE IF EXISTS \"";

pub const POSTGRESQL_CLOSE: &'static str = "\";'";

pub const UNSUPPORTED_DATABASE: &'static str = "Unsupported database type";

pub const INVALID_DATABASE_NAME: &'static str =
    "Database name can only contain letters, numbers, and underscores";

pub const PROTECTED_DATABASE: &'static str = "Cannot drop system database";

pub const LIST_CONTEXT: &'static str = "Failed to list databases";

pub const CREATE_CONTEXT: &'static str = "Failed to create database";

pub const DROP_CONTEXT: &'static str = "Failed to drop database";

pub const ALREADY_EXISTS: &'static str = "already exists";

impl DatabaseKind {
    /// The database server that `name` names, if it names one.
    pub open spec fn named(name: Seq<char>) -> Option<DatabaseKind> {
        if name == MYSQL@ {
            Some(DatabaseKind::Mysql)
        } else if name == POSTGRESQL@ {
            Some(DatabaseKind::Postgresql)
        } else {
            None
        }
    }

    /// The database server that `name` names, if it names one.
    pub fn parse(name: &str) -> (r: Option<DatabaseKind>)
        ensures
            r == DatabaseKind::named(name@),
    {
        if *name == *MYSQL {
            Some(DatabaseKind::Mysql)
        } else if *name == *POSTGRESQL {
            Some(DatabaseKind::Postgresql)
        } else {
            None
        }
    }
}

/// The beginning of a shell command that hands a statement to a database
/// server, in the container `container` or on the machine itself.
pub open spec fn client_line(kind: DatabaseKind, container: Option<Seq<char>>) -> Seq<char> {
    match (kind, container) {
        (DatabaseKind::Mysql, Some(id)) => DOCKER_EXEC@ + id + MYSQL_IN_CONTAINER@,
        (DatabaseKind::Mysql, None) => MYSQL_LOCAL@,
        (DatabaseKind::Postgresql, Some(id)) => DOCKER_EXEC@ + id + PSQL_IN_CONTAINER@,
        (DatabaseKind::Postgresql, None) => PSQL_LOCAL@,
    }
}

/// The shell command that lists the databases of a server.
pub open spec fn list_line(kind: DatabaseKind, container: Option<Seq<char>>) -> Seq<char> {
    client_line(kind, container) + (match kind {
        DatabaseKind::Mysql => SHOW_DATABASES@,
        DatabaseKind::Postgresql => LIST_POSTGRESQL@,
    })
}

/// The shell command that creates the database `name`.
pub open spec fn create_line(kind: DatabaseKind, name: Seq<char>, container: Option<Seq<char>>)
    -> Seq<char> {
    client_line(kind, container) + (match kind {
        DatabaseKind::Mysql => CREATE_MYSQL_OPEN@ + name + MYSQL_CLOSE@,
        DatabaseKind::Postgresql => CREATE_POSTGRESQL_OPEN@ + name + POSTGRESQL_CLOSE@,
    })
}

/// The shell command that drops the database `name`.
pub open spec fn drop_line(kind: DatabaseKind, name: Seq<char>, container: Option<Seq<char>>)
    -> Seq<char> {
    client_line(kind, container) + (match kind {
        DatabaseKind::Mysql => DROP_MYSQL_OPEN@ + name + MYSQL_CLOSE@,
        DatabaseKind::Postgresql => DROP_POSTGRESQL_OPEN@ + name + POSTGRESQL_CLOSE@,
    })
}

fn client_command_line(kind: DatabaseKind, container: Option<&str>) -> (r: String)
    ensures
        r@ == client_line(kind, crate::sites::slice_text_of(container)),
{
    match kind {
        DatabaseKind::Mysql => match container {
            Some(id) => DOCKER_EXEC.to_string().concat(id).concat(MYSQL_IN_CONTAINER),
            None => MYSQL_LOCAL.to_string(),
        },
        DatabaseKind::Postgresql => match container {
            Some(id) => DOCKER_EXEC.to_string().concat(id).concat(PSQL_IN_CONTAINER),
            None => PSQL_LOCAL.to_string(),
        },
    }
}

/// The command that runs `line` in a shell.
pub fn shell_command(line: String) -> (r: Invocation)
    ensures
        r@ == (InvocationView { program: SHELL@, args: seq![ARG_COMMAND@, line@], dir: None }),
{
    let mut args: Vec<String> = Vec::new();
    push_str(&mut args, ARG_COMMAND);
    push_text(&mut args, line);
    assert(texts(args@) =~= seq![ARG_COMMAND@, line@]);
    invoke(SHELL, args)
}

/// The command that lists the databases of the server `db_type`, in the
/// container `container_id` or on the machine itself. A server that is not
/// known is refused.
pub fn list_databases_command(db_type: &str, container_id: Option<&str>) -> (r: Result<
    Invocation,
    Error,
>)
    ensures
        match DatabaseKind::named(db_type@) {
            Some(kind) => r matches Ok(command) && command@ == (InvocationView {
                program: SHELL@,
                args: seq![
                    ARG_COMMAND@,
                    list_line(kind, crate::sites::slice_text_of(container_id)),
                ],
                dir: None,
            }),
            None => r matches Err(Error::Unsupported(m)) && m@ == explained(
                UNSUPPORTED_DATABASE@,
                db_type@,
            ),
        },
{
    match DatabaseKind::parse(db_type) {
        None => Err(Error::Unsupported(explain(UNSUPPORTED_DATABASE, db_type))),
        Some(kind) => {
            let client = client_command_line(kind, container_id);
            let line = match kind {
                DatabaseKind::Mysql => client.concat(SHOW_DATABASES),
                DatabaseKind::Postgresql => client.concat(LIST_POSTGRESQL),
            };
            Ok(shell_command(line))
        },
    }
}

/// Whether a database of MySQL belongs to the server itself.
pub open spec fn is_mysql_system(name: Seq<char>) -> bool {
    name == "information_schema"@ || name == "mysql"@ || name == "performance_schema"@ || name
        == "sys"@
}

/// Whether a database of PostgreSQL belongs to the server itself.
pub open spec fn is_postgresql_system(name: Seq<char>) -> bool {
    name == "postgres"@ || name == "template0"@ || name == "template1"@
}

/// The database that one line of a listing names, if it names one of the
/// user. For MySQL the line is the name. For PostgreSQL the name is what
/// stands before the first `|`, white space aside, and an empty name is
/// none.
#[verifier::opaque]
pub open spec fn database_of(kind: DatabaseKind, line: Seq<char>) -> Option<Seq<char>> {
    match kind {
        DatabaseKind::Mysql => if is_mysql_system(line) {
            None
        } else {
            Some(line)
        },
        DatabaseKind::Postgresql => {
            let name = trimmed(line.take(first_index(line, '|') as int));
            if name.len() == 0 || is_postgresql_system(name) {
                None
            } else {
                Some(name)
            }
        },
    }
}

/// The databases that the lines name, in order.
pub open spec fn databases_of(kind: DatabaseKind, all: Seq<Seq<char>>) -> Seq<DatabaseView>
    decreases all.len(),
{
    if all.len() == 0 {
        Seq::empty()
    } else {
        match database_of(kind, all.last()) {
            Some(name) => databases_of(kind, all.drop_last()).push(
                DatabaseView { name: name, size: None },
            ),
            None => databases_of(kind, all.drop_last()),
        }
    }
}

/// The databases that a listing names: for MySQL its first line is a
/// heading and does not count.
pub open spec fn listed_databases(kind: DatabaseKind, stdout: Seq<char>) -> Seq<DatabaseView> {
    match kind {
        DatabaseKind::Mysql => if lines(stdout).len() == 0 {
            Seq::empty()
        } else {
            databases_of(kind, lines(stdout).skip(1))
        },
        DatabaseKind::Postgresql => databases_of(kind, lines(stdout)),
    }
}

fn parse_database(kind: DatabaseKind, line: &str) -> (r: Option<String>)
    ensures
        text_of(r) == database_of(kind, line@),
{
    reveal(database_of);
    match kind {
        DatabaseKind::Mysql => {
            if *line == *"information_schema" || *line == *"mysql" || *line
                == *"performance_schema" || *line == *"sys" {
                None
            } else {
                Some(line.to_string())
            }
        },
        DatabaseKind::Postgresql => {
            let text = to_chars(line);
            assert(text@.skip(0) =~= text@);
            let bar = index_of(&text, '|', 0);
            let head = string_of(&text, 0, bar);
            assert(text@.subrange(0, bar as int) =~= text@.take(bar as int));
            let name = trim(head.as_str());
            if name.as_str().unicode_len() == 0 || *name.as_str() == *"postgres" || *name.as_str()
                == *"template0" || *name.as_str() == *"template1" {
                None
            } else {
                Some(name)
            }
        },
    }
}

fn parse_databases(kind: DatabaseKind, all: &Vec<String>, from: usize) -> (r: Vec<Database>)
    requires
        from <= all.len(),
    ensures
        database_views(r@) == databases_of(kind, texts(all@).skip(from as int)),
{
    let ghost every = texts(all@).skip(from as int);
    let mut out: Vec<Database> = Vec::new();
    let mut i: usize = from;
    while i < all.len()
        invariant
            from <= i <= all.len(),
            every == texts(all@).skip(from as int),
            database_views(out@) == databases_of(kind, every.take(i - from)),
        decreases all.len() - i,
    {
        proof {
            assert(every.take(i + 1 - from).drop_last() =~= every.take(i - from));
            assert(every.take(i + 1 - from).last() == all@[i as int]@);
        }
        let ghost before = database_views(out@);
        match parse_database(kind, all[i].as_str()) {
            Some(name) => {
                out.push(Database { name, size: None });
                assert(database_views(out@) =~= before.push(
                    DatabaseView { name: name@, size: None },
                ));
            },
            None => {},
        }
        i += 1;
    }
    assert(every.take(all@.len() - from) =~= every);
    out
}

/// The databases of a server, from the report of the listing command for
/// the server `kind`. What the command printed is read whether or not it
/// reported success; only a command that could not be started is a failure.
pub fn list_databases(kind: DatabaseKind, report: RunReport) -> (r: Result<Vec<Database>, Error>)
    ensures
        match report {
            RunReport::NotStarted(cause) => r matches Err(Error::CommandNotStarted(m)) && m@
                == explained(LIST_CONTEXT@, cause@),
            RunReport::Finished { stdout, .. } => r matches Ok(found) && database_views(found@)
                == listed_databases(kind, stdout@),
        },
{
    match report {
        RunReport::NotStarted(cause) => Err(
            Error::CommandNotStarted(explain(LIST_CONTEXT, cause.as_str())),
        ),
        RunReport::Finished { success: _, stdout, stderr: _ } => {
            let all = split_lines(stdout.as_str());
            match kind {
                DatabaseKind::Mysql => {
                    if all.len() == 0 {
                        let none: Vec<Database> = Vec::new();
                        assert(database_views(none@) =~= Seq::<DatabaseView>::empty());
                        Ok(none)
                    } else {
                        Ok(parse_databases(kind, &all, 1))
                    }
                },
                DatabaseKind::Postgresql => {
                    assert(texts(all@).skip(0) =~= texts(all@));
                    Ok(parse_databases(kind, &all, 0))
                },
            }
        },
    }
}

/// Whether a name may be given to a database: it is made of letters,
/// digits and underscores alone.
pub open spec fn is_database_name(name: Seq<char>) -> bool {
    forall|i: int| 0 <= i < name.len() ==> alphanumeric(#[trigger] name[i]) || name[i] == '_'
}

/// Whether a name may be given to a database.
pub fn valid_database_name(name: &str) -> (r: bool)
    ensures
        r == is_database_name(name@),
{
    let text = to_chars(name);
    let mut i: usize = 0;
    while i < text.len()
        invariant
            i <= text.len(),
            text@ == name@,
            forall|j: int| 0 <= j < i ==> alphanumeric(#[trigger] name@[j]) || name@[j] == '_',
        decreases text.len() - i,
    {
        let c = text[i];
        if !(c.is_alphanumeric() || c == '_') {
            assert(!(alphanumeric(name@[i as int]) || name@[i as int] == '_'));
            return false;
        }
        i += 1;
    }
    true
}

/// Whether a database belongs to a server itself and must not be dropped.
pub open spec fn is_protected(name: Seq<char>) -> bool {
    is_mysql_system(name) || is_postgresql_system(name)
}

/// The command that creates the database `name` on the server `db_type`.
/// A name with a character other than letters, digits and underscores is
/// refused, whatever the server; then a server that is not known.
pub fn create_database_command(db_type: &str, name: &str, container_id: Option<&str>) -> (r: Result<
    Invocation,
    Error,
>)
    ensures
        !is_database_name(name@) ==> (r matches Err(Error::Unsupported(m)) && m@
            == INVALID_DATABASE_NAME@),
        is_database_name(name@) ==> match DatabaseKind::named(db_type@) {
            Some(kind) => r matches Ok(command) && command@ == (InvocationView {
                program: SHELL@,
                args: seq![
                    ARG_COMMAND@,
                    create_line(kind, name@, crate::sites::slice_text_of(container_id)),
                ],
                dir: None,
            }),
            None => r matches Err(Error::Unsupported(m)) && m@ == explained(
                UNSUPPORTED_DATABASE@,
                db_type@,
            ),
        },
{
    if !valid_database_name(name) {
        return Err(Error::Unsupported(INVALID_DATABASE_NAME.to_string()));
    }
    match DatabaseKind::parse(db_type) {
        None => Err(Error::Unsupported(explain(UNSUPPORTED_DATABASE, db_type))),
        Some(kind) => {
            let client = client_command_line(kind, container_id);
            let statement = match kind {
                DatabaseKind::Mysql => CREATE_MYSQL_OPEN.to_string().concat(name).concat(
                    MYSQL_CLOSE,
                ),
                DatabaseKind::Postgresql => CREATE_POSTGRESQL_OPEN.to_string().concat(name).concat(
                    POSTGRESQL_CLOSE,
                ),
            };
            Ok(shell_command(client.concat(statement.as_str())))
        },
    }
}

/// What became of creating a database: nothing to tell where the command
/// succeeded, nor where PostgreSQL says that the database already exists;
/// otherwise the failure, under a heading.
pub fn create_database(kind: DatabaseKind, report: RunReport) -> (r: Result<(), Error>)
    ensures
        match report {
            RunReport::NotStarted(cause) => r matches Err(Error::CommandNotStarted(m)) && m@
                == explained(CREATE_CONTEXT@, cause@),
            RunReport::Finished { success, stderr, .. } => if success || (kind
                == DatabaseKind::Postgresql && contains(stderr@, ALREADY_EXISTS@)) {
                r is Ok
            } else {
                r matches Err(Error::CommandFailed(m)) && m@ == explained(
                    CREATE_CONTEXT@,
                    stderr@,
                )
            },
        },
{
    match report {
        RunReport::NotStarted(cause) => Err(
            Error::CommandNotStarted(explain(CREATE_CONTEXT, cause.as_str())),
        ),
        RunReport::Finished { success, stdout: _, stderr } => {
            let tolerated = match kind {
                DatabaseKind::Postgresql => mentions(stderr.as_str(), ALREADY_EXISTS),
                DatabaseKind::Mysql => false,
            };
            if success || tolerated {
                Ok(())
            } else {
                Err(Error::CommandFailed(explain(CREATE_CONTEXT, stderr.as_str())))
            }
        },
    }
}

/// The command that drops the database `name` on the server `db_type`. A
/// database that belongs to a server itself is refused, whatever the
/// server; then a server that is not known.
pub fn drop_database_command(db_type: &str, name: &str, container_id: Option<&str>) -> (r: Result<
    Invocation,
    Error,
>)
    ensures
        is_protected(name@) ==> (r matches Err(Error::Unsupported(m)) && m@
            == PROTECTED_DATABASE@),
        !is_protected(name@) ==> match DatabaseKind::named(db_type@) {
            Some(kind) => r matches Ok(command) && command@ == (InvocationView {
                program: SHELL@,
                args: seq![
                    ARG_COMMAND@,
                    drop_line(kind, name@, crate::sites::slice_text_of(container_id)),
                ],
                dir: None,
            }),
            None => r matches Err(Error::Unsupported(m)) && m@ == explained(
                UNSUPPORTED_DATABASE@,
                db_type@,
            ),
        },
{
    if *name == *"information_schema" || *name == *"mysql" || *name == *"performance_schema"
        || *name == *"sys" || *name == *"postgres" || *name == *"template0" || *name
        == *"template1" {
        return Err(Error::Unsupported(PROTECTED_DATABASE.to_string()));
    }
    match DatabaseKind::parse(db_type) {
        None => Err(Error::Unsupported(explain(UNSUPPORTED_DATABASE, db_type))),
        Some(kind) => {
            let client = client_command_line(kind, container_id);
            let statement = match kind {
                DatabaseKind::Mysql => DROP_MYSQL_OPEN.to_string().concat(name).concat(MYSQL_CLOSE),
                DatabaseKind::Postgresql => DROP_POSTGRESQL_OPEN.to_string().concat(name).concat(
                    POSTGRESQL_CLOSE,
                ),
            };
            Ok(shell_command(client.concat(statement.as_str())))
        },
    }
}

/// What became of dropping a database: nothing to tell where the command
/// succeeded; otherwise the failure, under a heading.
pub fn drop_database(report: RunReport) -> (r: Result<(), Error>)
    ensures
        match outcome(report, DROP_CONTEXT@, true) {
            Ok(_) => r is Ok,
            Err(failure) => r matches Err(e) && is_failure(e, failure),
        },
{
    match require_success(report, DROP_CONTEXT, true) {
        Ok(_) => Ok(()),
        Err(e) => Err(e),
    }
}

} // verus!

use servermark::errors::Error;
use servermark::php::{
    active_version_command, add_php_ppa, candidate_path, check_php_ppa, comes_before,
    compact_version, default_php_version, find_installations, get_active_php_version,
    get_php_extensions, get_php_full_version, get_php_versions, install_php_command,
    install_php_version, install_php_with_extensions, install_with_extensions_step, key_of,
    link_outcome, php_binary, php_packages, ppa_search_command, ppa_step, shorten_version,
    sort_versions, switch_outcome, switch_php_version, uninstall_php_version, uninstall_step,
    version_command, InstallProgress, PhpExtension, PhpVersion, PpaStatus, Step, StepAction,
    StepEnd,
};
use servermark::process::{Invocation, RunReport};
use servermark::projects::{
    after_clone, clone_repository, clone_result, composer_result, create_project,
    get_framework_templates, project_name, project_path, wordpress_needs_archive, wordpress_result,
    AfterClone, CloneFacts, FrameworkTemplate, Scaffold,
};
use servermark::services::{
    get_service_status, main_pid_command, service_status_command, start_command, start_service,
    stop_command, stop_service, ServiceStatus,
};
use servermark::system::PackageManager;

fn ran(success: bool, stdout: &str, stderr: &str) -> RunReport {
    RunReport::Finished { success, stdout: stdout.to_string(), stderr: stderr.to_string() }
}

fn missing() -> RunReport {
    RunReport::NotStarted("gone".to_string())
}

fn command(program: &str, args: &[&str]) -> Invocation {
    Invocation { program: program.to_string(), args: args.iter().map(|a| a.to_string()).collect(), dir: None }
}

fn command_in(dir: &str, program: &str, args: &[&str]) -> Invocation {
    Invocation { program: program.to_string(), args: args.iter().map(|a| a.to_string()).collect(), dir: Some(dir.to_string()) }
}

fn told(step: &str, current: u8, total: u8, status: &str) -> InstallProgress {
    InstallProgress { step: step.to_string(), current_step: current, total_steps: total, status: status.to_string() }
}

fn strings(list: &[&str]) -> Vec<String> {
    list.iter().map(|s| s.to_string()).collect()
}

#[test]
fn extensions_on_offer() {
    let all = get_php_extensions();
    assert_eq!(all.len(), 18);
    let names: Vec<&str> = all.iter().map(|e| e.name.as_str()).collect();
    assert_eq!(
        names,
        vec!["cli", "fpm", "common", "mysql", "curl", "mbstring", "xml", "zip", "bcmath", "gd", "intl", "redis", "pgsql", "sqlite3", "imagick", "soap", "ldap", "xdebug"]
    );
    assert_eq!(
        all[0],
        PhpExtension {
            name: "cli".to_string(),
            display_name: "CLI".to_string(),
            description: "Command-line interface".to_string(),
            category: "required".to_string(),
            default_selected: true,
        }
    );
    assert_eq!(
        all[4],
        PhpExtension {
            name: "curl".to_string(),
            display_name: "cURL".to_string(),
            description: "HTTP client library".to_string(),
            category: "recommended".to_string(),
            default_selected: true,
        }
    );
    assert_eq!(
        all[17],
        PhpExtension {
            name: "xdebug".to_string(),
            display_name: "Xdebug".to_string(),
            description: "Debugging and profiling".to_string(),
            category: "optional".to_string(),
            default_selected: false,
        }
    );
    for (i, e) in all.iter().enumerate() {
        let category = if i < 3 { "required" } else if i < 9 { "recommended" } else { "optional" };
        assert_eq!(e.category, category);
        assert_eq!(e.default_selected, i < 9);
    }
    assert_eq!(all[1].description, "FastCGI Process Manager for web servers");
    assert_eq!(all[12].display_name, "PostgreSQL");
    assert_eq!(all[8].description, "Arbitrary precision mathematics");
}

#[test]
fn installing_a_version() {
    assert_eq!(
        install_php_command("8.3", "apt"),
        Ok(command("pkexec", &["apt-get", "install", "-y", "php8.3", "php8.3-cli", "php8.3-fpm", "php8.3-common", "php8.3-mysql", "php8.3-xml", "php8.3-curl", "php8.3-mbstring"]))
    );
    assert_eq!(install_php_command("8.3", "dnf"), Ok(command("pkexec", &["dnf", "install", "-y", "php83"])));
    assert_eq!(install_php_command("8.3.1", "dnf"), Ok(command("pkexec", &["dnf", "install", "-y", "php831"])));
    assert_eq!(install_php_command("8.3", "pacman"), Ok(command("pkexec", &["pacman", "-S", "--noconfirm", "php"])));
    assert_eq!(install_php_command("8.3", "zypper"), Err(Error::Unsupported("Unsupported package manager: zypper".to_string())));
    assert_eq!(install_php_command("8.3", "brew"), Err(Error::Unsupported("Unsupported package manager: brew".to_string())));
    assert_eq!(compact_version("8.3"), "83");
    assert_eq!(compact_version("..8..3."), "83");
    assert_eq!(install_php_version("8.3", ran(true, "", "")), Ok("PHP 8.3 installed successfully".to_string()));
    assert_eq!(install_php_version("8.3", ran(false, "", "E: broken")), Err(Error::CommandFailed("E: broken".to_string())));
    assert_eq!(install_php_version("8.3", missing()), Err(Error::CommandNotStarted("Failed to install PHP: gone".to_string())));
}

#[test]
fn installing_with_extensions() {
    let extensions = strings(&["cli", "fpm", "redis"]);
    assert_eq!(php_packages(PackageManager::Apt, "8.3", &extensions), Some(strings(&["php8.3", "php8.3-cli", "php8.3-fpm", "php8.3-redis"])));
    assert_eq!(php_packages(PackageManager::Dnf, "8.3", &extensions), Some(strings(&["php83", "php83-php-cli", "php83-php-fpm", "php83-php-redis"])));
    assert_eq!(php_packages(PackageManager::Pacman, "8.3", &extensions), Some(strings(&["php", "php-cli", "php-fpm", "php-redis"])));
    assert_eq!(php_packages(PackageManager::Zypper, "8.3", &extensions), None);
    assert_eq!(php_packages(PackageManager::Apt, "8.3", &Vec::new()), Some(strings(&["php8.3"])));
    assert_eq!(
        install_with_extensions_step("8.3", &extensions, "apt"),
        Step {
            announce: vec![told("Preparing PHP 8.3 installation...", 1, 3, "running"), told("Installing 4 packages...", 2, 3, "running")],
            action: StepAction::Run(command("pkexec", &["apt-get", "install", "-y", "php8.3", "php8.3-cli", "php8.3-fpm", "php8.3-redis"])),
        }
    );
    assert_eq!(
        install_with_extensions_step("8.3", &extensions, "dnf"),
        Step {
            announce: vec![told("Preparing PHP 8.3 installation...", 1, 3, "running"), told("Installing 4 packages...", 2, 3, "running")],
            action: StepAction::Run(command("pkexec", &["dnf", "install", "-y", "php83", "php83-php-cli", "php83-php-fpm", "php83-php-redis"])),
        }
    );
    assert_eq!(
        install_with_extensions_step("8.2", &Vec::new(), "pacman"),
        Step {
            announce: vec![told("Preparing PHP 8.2 installation...", 1, 3, "running"), told("Installing 1 packages...", 2, 3, "running")],
            action: StepAction::Run(command("pkexec", &["pacman", "-S", "--noconfirm", "php"])),
        }
    );
    for manager in ["zypper", "brew", ""] {
        assert_eq!(
            install_with_extensions_step("8.3", &extensions, manager),
            Step {
                announce: vec![told("Preparing PHP 8.3 installation...", 1, 3, "running"), told("Unsupported package manager", 1, 3, "error")],
                action: StepAction::Refuse(Error::Unsupported(format!("Unsupported package manager: {}", manager))),
            }
        );
    }
    assert_eq!(
        install_php_with_extensions("8.3", &extensions, ran(true, "", "")),
        StepEnd {
            announce: Some(told("PHP 8.3 installed successfully!", 3, 3, "complete")),
            result: Ok(Some("PHP 8.3 installed successfully with extensions: cli, fpm, redis".to_string())),
        }
    );
    assert_eq!(
        install_php_with_extensions("8.3", &Vec::new(), ran(true, "", "")),
        StepEnd {
            announce: Some(told("PHP 8.3 installed successfully!", 3, 3, "complete")),
            result: Ok(Some("PHP 8.3 installed successfully with extensions: ".to_string())),
        }
    );
    assert_eq!(
        install_php_with_extensions("8.3", &extensions, ran(false, "", "E: held")),
        StepEnd { announce: Some(told("Installation failed", 3, 3, "error")), result: Err(Error::CommandFailed("E: held".to_string())) }
    );
    assert_eq!(
        install_php_with_extensions("8.3", &extensions, missing()),
        StepEnd {
            announce: Some(told("Installation failed", 2, 3, "error")),
            result: Err(Error::CommandNotStarted("Failed to install PHP: gone".to_string())),
        }
    );
}

#[test]
fn removing_a_version() {
    assert_eq!(
        uninstall_step("8.1", "apt"),
        Step {
            announce: vec![told("Removing PHP 8.1...", 1, 2, "running")],
            action: StepAction::Run(command("pkexec", &["apt-get", "remove", "--purge", "-y", "php8.1*"])),
        }
    );
    assert_eq!(
        uninstall_step("8.1", "dnf"),
        Step {
            announce: vec![told("Removing PHP 8.1...", 1, 2, "running")],
            action: StepAction::Run(command("pkexec", &["dnf", "remove", "-y", "php81*"])),
        }
    );
    assert_eq!(
        uninstall_step("8.1", "pacman"),
        Step {
            announce: vec![told("Removing PHP 8.1...", 1, 2, "running")],
            action: StepAction::Run(command("pkexec", &["pacman", "-Rns", "--noconfirm", "php"])),
        }
    );
    assert_eq!(
        uninstall_step("8.1", "zypper"),
        Step {
            announce: vec![told("Removing PHP 8.1...", 1, 2, "running"), told("Unsupported package manager", 1, 2, "error")],
            action: StepAction::Refuse(Error::Unsupported("Unsupported package manager: zypper".to_string())),
        }
    );
    assert_eq!(
        uninstall_php_version("8.1", ran(true, "", "")),
        StepEnd { announce: Some(told("PHP 8.1 removed successfully!", 2, 2, "complete")), result: Ok(Some("PHP 8.1 uninstalled successfully".to_string())) }
    );
    assert_eq!(
        uninstall_php_version("8.1", ran(false, "", "E: no")),
        StepEnd { announce: Some(told("Uninstall failed", 2, 2, "error")), result: Err(Error::CommandFailed("E: no".to_string())) }
    );
    assert_eq!(
        uninstall_php_version("8.1", missing()),
        StepEnd { announce: Some(told("Uninstall failed", 1, 2, "error")), result: Err(Error::CommandNotStarted("Failed to uninstall PHP: gone".to_string())) }
    );
}

#[test]
fn package_archive() {
    assert_eq!(ppa_search_command(), command("grep", &["-r", "ondrej/php", "/etc/apt/sources.list.d/"]));
    let status = |installed: bool| PpaStatus {
        installed,
        name: "ondrej/php".to_string(),
        add_command: "sudo add-apt-repository ppa:ondrej/php -y && sudo apt update".to_string(),
    };
    assert_eq!(check_php_ppa(&ran(true, "x", ""), &Vec::new()), status(true));
    assert_eq!(check_php_ppa(&ran(false, "", ""), &Vec::new()), status(false));
    assert_eq!(check_php_ppa(&missing(), &strings(&["ubuntu.sources", "docker.list"])), status(false));
    assert_eq!(check_php_ppa(&missing(), &strings(&["ubuntu.sources", "ondrej-ubuntu-php-noble.sources"])), status(true));
    assert_eq!(check_php_ppa(&ran(false, "", ""), &strings(&["ppa_ondrej_php.list", "x"])), status(true));
    assert_eq!(check_php_ppa(&ran(false, "", ""), &strings(&["Ondrej.list"])), status(false));
    assert_eq!(
        ppa_step(1),
        Some(Step {
            announce: vec![told("Installing software-properties-common...", 1, 3, "running")],
            action: StepAction::Run(command("pkexec", &["apt-get", "install", "-y", "software-properties-common"])),
        })
    );
    assert_eq!(
        ppa_step(2),
        Some(Step {
            announce: vec![told("Adding PPA ondrej/php...", 2, 3, "running")],
            action: StepAction::Run(command("pkexec", &["add-apt-repository", "ppa:ondrej/php", "-y"])),
        })
    );
    assert_eq!(
        ppa_step(3),
        Some(Step {
            announce: vec![told("Updating package lists...", 3, 3, "running")],
            action: StepAction::Run(command("pkexec", &["apt-get", "update"])),
        })
    );
    assert_eq!(ppa_step(0), None);
    assert_eq!(ppa_step(4), None);
    assert_eq!(add_php_ppa(1, ran(true, "", "")), StepEnd { announce: None, result: Ok(None) });
    assert_eq!(add_php_ppa(2, ran(true, "", "")), StepEnd { announce: None, result: Ok(None) });
    assert_eq!(
        add_php_ppa(3, ran(true, "", "")),
        StepEnd { announce: Some(told("PPA added successfully", 3, 3, "complete")), result: Ok(Some("PPA ondrej/php added successfully".to_string())) }
    );
    assert_eq!(
        add_php_ppa(1, ran(false, "", "E: x")),
        StepEnd {
            announce: Some(told("Failed to install prerequisites", 1, 3, "error")),
            result: Err(Error::CommandFailed("Failed to install software-properties-common: E: x".to_string())),
        }
    );
    assert_eq!(
        add_php_ppa(2, ran(false, "", "E: y")),
        StepEnd { announce: Some(told("Failed to add PPA", 2, 3, "error")), result: Err(Error::CommandFailed("E: y".to_string())) }
    );
    assert_eq!(
        add_php_ppa(3, ran(false, "", "E: z")),
        StepEnd { announce: Some(told("Failed to update apt", 3, 3, "error")), result: Err(Error::CommandFailed("E: z".to_string())) }
    );
    assert_eq!(
        add_php_ppa(1, missing()),
        StepEnd {
            announce: Some(told("Failed to install prerequisites", 1, 3, "error")),
            result: Err(Error::CommandNotStarted("Failed to install prerequisites: gone".to_string())),
        }
    );
    assert_eq!(
        add_php_ppa(2, missing()),
        StepEnd { announce: Some(told("Failed to add PPA", 2, 3, "error")), result: Err(Error::CommandNotStarted("Failed to add PPA: gone".to_string())) }
    );
    assert_eq!(
        add_php_ppa(3, missing()),
        StepEnd { announce: Some(told("Failed to update apt", 3, 3, "error")), result: Err(Error::CommandNotStarted("Failed to update apt: gone".to_string())) }
    );
}

#[test]
fn switching_versions() {
    assert_eq!(php_binary("8.3"), "/usr/bin/php8.3");
    assert_eq!(switch_php_version("8.3", true), Ok(command("pkexec", &["update-alternatives", "--set", "php", "/usr/bin/php8.3"])));
    assert_eq!(switch_php_version("8.3", false), Err(Error::Unsupported("PHP 8.3 is not installed".to_string())));
    assert_eq!(switch_outcome("8.3", ran(true, "", "")), Ok(None));
    assert_eq!(
        switch_outcome("8.3", ran(false, "", "update-alternatives: error: no alternatives for php\n")),
        Ok(Some(command("pkexec", &["ln", "-sf", "/usr/bin/php8.3", "/usr/bin/php"])))
    );
    assert_eq!(switch_outcome("8.3", ran(false, "no alternatives", "denied")), Err(Error::CommandFailed("denied".to_string())));
    assert_eq!(switch_outcome("8.3", missing()), Err(Error::CommandNotStarted("Failed to switch PHP version: gone".to_string())));
    assert_eq!(link_outcome(ran(true, "", "")), Ok(()));
    assert_eq!(link_outcome(ran(false, "", "ln: denied")), Err(Error::CommandFailed("ln: denied".to_string())));
    assert_eq!(link_outcome(missing()), Err(Error::CommandNotStarted("Failed to create symlink: gone".to_string())));
}

#[test]
fn reading_versions() {
    assert_eq!(version_command("/usr/bin/php8.3"), command("/usr/bin/php8.3", &["-v"]));
    assert_eq!(active_version_command(), command("php", &["-r", "echo PHP_MAJOR_VERSION . '.' . PHP_MINOR_VERSION;"]));
    let banner = "PHP 8.3.6 (cli) (built: Mar 19 2025 10:08:38) (NTS)\nCopyright (c) The PHP Group\n";
    assert_eq!(get_php_full_version(&ran(true, banner, "")), Some("8.3.6".to_string()));
    assert_eq!(get_php_full_version(&ran(false, banner, "")), None);
    assert_eq!(get_php_full_version(&ran(true, "PHP\n8.3.6\n", "")), None);
    assert_eq!(get_php_full_version(&ran(true, "\nPHP 8.3.6\n", "")), None);
    assert_eq!(get_php_full_version(&ran(true, "", "")), None);
    assert_eq!(get_php_full_version(&missing()), None);
    assert_eq!(get_php_full_version(&ran(true, "  PHP\t 8.4.0RC1  x", "")), Some("8.4.0RC1".to_string()));
    assert_eq!(get_active_php_version(&ran(true, banner, "")), Some(("8.3".to_string(), "8.3.6".to_string())));
    assert_eq!(get_active_php_version(&ran(true, "PHP 8 (cli)", "")), Some(("8".to_string(), "8".to_string())));
    assert_eq!(get_active_php_version(&ran(true, "PHP 8.3 (cli)", "")), Some(("8.3".to_string(), "8.3".to_string())));
    assert_eq!(get_active_php_version(&ran(true, "PHP .3.6-1ubuntu (cli)", "")), Some((".3".to_string(), ".3.6-1ubuntu".to_string())));
    assert_eq!(get_active_php_version(&missing()), None);
    assert_eq!(shorten_version("8.3.6"), "8.3");
    assert_eq!(shorten_version("8."), "8.");
    assert_eq!(shorten_version(""), "");
    assert_eq!(default_php_version(&ran(true, "8.3\n", "")), "8.3");
    assert_eq!(default_php_version(&ran(false, " 8.1 ", "")), "8.1");
    assert_eq!(default_php_version(&ran(false, "", "")), "");
    assert_eq!(default_php_version(&missing()), "8.3");
}

fn version(v: &str, full: &str, installed: bool, active: bool, path: &str) -> PhpVersion {
    PhpVersion { version: v.to_string(), full_version: full.to_string(), installed, active, path: path.to_string() }
}

#[test]
fn finding_installations() {
    assert_eq!(candidate_path(0), "/usr/bin/php8.4");
    assert_eq!(candidate_path(1), "/usr/local/bin/php8.4");
    assert_eq!(candidate_path(2), "/opt/php/php8.4");
    assert_eq!(candidate_path(3), "/usr/bin/php8.3");
    assert_eq!(candidate_path(12), "/usr/bin/php8.0");
    assert_eq!(candidate_path(23), "/opt/php/php7.2");
    let mut existing = vec![false; 24];
    existing[4] = true;
    existing[5] = true;
    existing[9] = true;
    let names = strings(&["php", "php8.1", "php8.3", "phpize", "php-fpm8.3", "php5.6", "pear", "php8.1", "php83", "xphp7.0"]);
    assert_eq!(
        find_installations(&existing, &names),
        vec![
            ("8.3".to_string(), "/usr/local/bin/php8.3".to_string()),
            ("8.1".to_string(), "/usr/bin/php8.1".to_string()),
            ("5.6".to_string(), "/usr/bin/php5.6".to_string()),
            ("83".to_string(), "/usr/bin/php83".to_string()),
        ]
    );
    assert_eq!(find_installations(&Vec::new(), &Vec::new()), Vec::new());
    assert_eq!(find_installations(&vec![true], &Vec::new()), vec![("8.4".to_string(), "/usr/bin/php8.4".to_string())]);
    let mut long = vec![false; 30];
    long[24] = true;
    assert_eq!(find_installations(&long, &Vec::new()), Vec::new());
}

#[test]
fn ordering_versions() {
    assert_eq!(key_of("8.3"), vec![8, 3]);
    assert_eq!(key_of("8.3.6-1ubuntu"), vec![8, 3]);
    assert_eq!(key_of("83"), vec![83]);
    assert_eq!(key_of("x"), Vec::<u32>::new());
    assert_eq!(key_of(""), Vec::<u32>::new());
    assert_eq!(key_of("+7.04.4294967295.4294967296"), vec![7, 4, 4294967295]);
    assert!(comes_before(&vec![7, 4], &vec![8, 0]));
    assert!(comes_before(&vec![8], &vec![8, 0]));
    assert!(comes_before(&vec![], &vec![0]));
    assert!(comes_before(&vec![8, 2, 9], &vec![8, 3]));
    assert!(!comes_before(&vec![8, 3], &vec![8, 3]));
    assert!(!comes_before(&vec![8, 3], &vec![8, 2, 9]));
    assert!(!comes_before(&vec![], &vec![]));
    assert!(!comes_before(&vec![1], &vec![]));
    let list = vec![
        version("7.4", "a", true, false, ""),
        version("8.3", "b", true, false, ""),
        version("x", "c", true, false, ""),
        version("8.3", "d", true, false, ""),
        version("8.10", "e", true, false, ""),
        version("8", "f", true, false, ""),
        version("", "g", true, false, ""),
        version("08.3", "h", true, false, ""),
    ];
    let sorted: Vec<String> = sort_versions(list).into_iter().map(|v| v.full_version).collect();
    assert_eq!(sorted, strings(&["e", "b", "d", "h", "f", "a", "c", "g"]));
    assert_eq!(sort_versions(Vec::new()), Vec::new());
}

#[test]
fn listing_versions() {
    let found = vec![
        ("8.3".to_string(), "/usr/bin/php8.3".to_string()),
        ("7.4".to_string(), "/usr/bin/php7.4".to_string()),
        ("5.6".to_string(), "/usr/bin/php5.6".to_string()),
    ];
    let reports = vec![ran(true, "PHP 8.3.6 (cli)\n", ""), ran(false, "PHP 7.4.33 (cli)\n", "")];
    let active = ran(true, "PHP 8.3.6 (cli) (built)\n", "");
    assert_eq!(
        get_php_versions(&found, &reports, &active),
        Ok(vec![
            version("8.4", "", false, false, ""),
            version("8.3", "8.3.6", true, true, "/usr/bin/php8.3"),
            version("8.2", "", false, false, ""),
            version("8.1", "", false, false, ""),
            version("8.0", "", false, false, ""),
            version("7.4", "", true, false, "/usr/bin/php7.4"),
            version("7.3", "", false, false, ""),
            version("7.2", "", false, false, ""),
            version("5.6", "", true, false, "/usr/bin/php5.6"),
        ])
    );
    assert_eq!(
        get_php_versions(&Vec::new(), &Vec::new(), &missing()),
        Ok(vec![
            version("8.4", "", false, false, ""),
            version("8.3", "", false, false, ""),
            version("8.2", "", false, false, ""),
            version("8.1", "", false, false, ""),
            version("8.0", "", false, false, ""),
            version("7.4", "", false, false, ""),
            version("7.3", "", false, false, ""),
            version("7.2", "", false, false, ""),
        ])
    );
}

#[test]
fn service_states() {
    assert_eq!(service_status_command("caddy"), command("systemctl", &["is-active", "caddy"]));
    assert_eq!(main_pid_command("caddy"), command("systemctl", &["show", "caddy", "--property=MainPID", "--value"]));
    assert_eq!(start_command("caddy"), command("pkexec", &["systemctl", "start", "caddy"]));
    assert_eq!(stop_command("caddy"), command("pkexec", &["systemctl", "stop", "caddy"]));
    let status = |state: &str, pid: Option<u32>| ServiceStatus { id: "caddy".to_string(), name: "caddy".to_string(), status: state.to_string(), pid };
    assert_eq!(get_service_status("caddy", &ran(true, "active\n", ""), Some(&ran(true, "1234\n", ""))), Ok(status("running", Some(1234))));
    assert_eq!(get_service_status("caddy", &ran(true, "active\n", ""), Some(&ran(false, " 77 ", ""))), Ok(status("running", Some(77))));
    assert_eq!(get_service_status("caddy", &ran(true, "active\n", ""), Some(&ran(true, "0\n", ""))), Ok(status("running", None)));
    assert_eq!(get_service_status("caddy", &ran(true, "active\n", ""), Some(&ran(true, "4294967295", ""))), Ok(status("running", Some(4294967295))));
    assert_eq!(get_service_status("caddy", &ran(true, "active\n", ""), Some(&ran(true, "4294967296", ""))), Ok(status("running", None)));
    assert_eq!(get_service_status("caddy", &ran(true, "active\n", ""), Some(&ran(true, "-1", ""))), Ok(status("running", None)));
    assert_eq!(get_service_status("caddy", &ran(true, "active\n", ""), Some(&ran(true, "", ""))), Ok(status("running", None)));
    assert_eq!(get_service_status("caddy", &ran(true, "active\n", ""), Some(&missing())), Ok(status("running", None)));
    assert_eq!(get_service_status("caddy", &ran(true, "active\n", ""), None), Ok(status("running", None)));
    assert_eq!(get_service_status("caddy", &ran(false, "inactive\n", ""), Some(&ran(true, "1234\n", ""))), Ok(status("stopped", None)));
    assert_eq!(get_service_status("caddy", &missing(), None), Err(Error::CommandNotStarted("Failed to check service status: gone".to_string())));
    assert_eq!(start_service(ran(true, "", "")), Ok(()));
    assert_eq!(start_service(ran(false, "", "Job failed")), Err(Error::CommandFailed("Job failed".to_string())));
    assert_eq!(start_service(missing()), Err(Error::CommandNotStarted("Failed to start service: gone".to_string())));
    assert_eq!(stop_service(ran(true, "", "")), Ok(()));
    assert_eq!(stop_service(ran(false, "", "Job failed")), Err(Error::CommandFailed("Job failed".to_string())));
    assert_eq!(stop_service(missing()), Err(Error::CommandNotStarted("Failed to stop service: gone".to_string())));
}

#[test]
fn templates_on_offer() {
    let template = |id: &str, name: &str, description: &str, versions: &[&str], default: &str, create: &str| FrameworkTemplate {
        id: id.to_string(),
        name: name.to_string(),
        description: description.to_string(),
        versions: strings(versions),
        default_version: default.to_string(),
        create_command: create.to_string(),
    };
    assert_eq!(
        get_framework_templates(),
        vec![
            template("laravel", "Laravel", "The PHP Framework for Web Artisans", &["12", "11", "10"], "12", "composer create-project laravel/laravel"),
            template("symfony", "Symfony", "High Performance PHP Framework", &["7.0", "6.4", "5.4"], "7.0", "composer create-project symfony/skeleton"),
            template("wordpress", "WordPress", "Open Source Blogging Platform", &["latest"], "latest", "wp core download"),
            template("static", "Static Site", "Simple HTML/CSS/JS site", &["n/a"], "n/a", "mkdir -p"),
        ]
    );
}

#[test]
fn creating_projects() {
    assert_eq!(project_path("/home/dev/Code", "shop"), "/home/dev/Code/shop");
    assert_eq!(
        create_project("shop", "laravel", None, "/home/dev/Code", true),
        Err(Error::Unsupported("Directory /home/dev/Code/shop already exists".to_string()))
    );
    assert_eq!(
        create_project("shop", "nothing", None, "/home/dev/Code", true),
        Err(Error::Unsupported("Directory /home/dev/Code/shop already exists".to_string()))
    );
    assert_eq!(
        create_project("shop", "laravel", None, "/home/dev/Code", false),
        Ok(Scaffold::Composer {
            command: command_in("/home/dev/Code", "composer", &["create-project", "laravel/laravel:^11", "shop"]),
            context: "Failed to create Laravel project".to_string(),
        })
    );
    assert_eq!(
        create_project("shop", "laravel", Some("12"), "/home/dev/Code", false),
        Ok(Scaffold::Composer {
            command: command_in("/home/dev/Code", "composer", &["create-project", "laravel/laravel", "shop"]),
            context: "Failed to create Laravel project".to_string(),
        })
    );
    assert_eq!(
        create_project("shop", "laravel", Some("10"), "/home/dev/Code", false),
        Ok(Scaffold::Composer {
            command: command_in("/home/dev/Code", "composer", &["create-project", "laravel/laravel:^10", "shop"]),
            context: "Failed to create Laravel project".to_string(),
        })
    );
    assert_eq!(
        create_project("api", "symfony", None, "/srv", false),
        Ok(Scaffold::Composer {
            command: command_in("/srv", "composer", &["create-project", "symfony/skeleton:^7.0", "api"]),
            context: "Failed to create Symfony project".to_string(),
        })
    );
    assert_eq!(
        create_project("api", "symfony", Some("6.4"), "/srv", false),
        Ok(Scaffold::Composer {
            command: command_in("/srv", "composer", &["create-project", "symfony/skeleton:^6.4", "api"]),
            context: "Failed to create Symfony project".to_string(),
        })
    );
    assert_eq!(
        create_project("press", "wordpress", Some("latest"), "/srv", false),
        Ok(Scaffold::WordPress {
            directory: "/srv/press".to_string(),
            download: command_in("/srv/press", "wp", &["core", "download"]),
            fetch: command_in("/srv/press", "curl", &["-o", "wordpress.tar.gz", "https://wordpress.org/latest.tar.gz"]),
            unpack: command_in("/srv/press", "tar", &["xzf", "wordpress.tar.gz", "--strip-components=1"]),
            archive: "/srv/press/wordpress.tar.gz".to_string(),
        })
    );
    assert_eq!(
        create_project("My <Site>", "static", None, "/srv", false),
        Ok(Scaffold::Static { directory: "/srv/My <Site>".to_string(), file: "/srv/My <Site>/index.html".to_string(), text: "<!DOCTYPE html>\n<html lang=\"en\">\n<head>\n    <meta charset=\"UTF-8\">\n    <meta name=\"viewport\" content=\"width=device-width, initial-scale=1.0\">\n    <title>My <Site></title>\n</head>\n<body>\n    <h1>Welcome to My <Site></h1>\n    <p>Your static site is ready.</p>\n</body>\n</html>".to_string() })
    );
    assert_eq!(create_project("x", "rails", None, "/srv", false), Err(Error::Unsupported("Unknown framework: rails".to_string())));
    assert_eq!(create_project("x", "Laravel", None, "/srv", false), Err(Error::Unsupported("Unknown framework: Laravel".to_string())));
    assert_eq!(composer_result(ran(true, "", ""), "Failed to create Laravel project"), Ok(()));
    assert_eq!(composer_result(ran(false, "", "boom"), "Failed to create Symfony project"), Err(Error::CommandFailed("Failed to create Symfony project: boom".to_string())));
    assert_eq!(composer_result(missing(), "Failed to create Laravel project"), Err(Error::CommandNotStarted("Failed to run composer: gone".to_string())));
    assert!(!wordpress_needs_archive(&ran(true, "", "")));
    assert!(wordpress_needs_archive(&ran(false, "", "")));
    assert!(!wordpress_needs_archive(&missing()));
    assert_eq!(wordpress_result(&ran(true, "", ""), None), Ok(()));
    assert_eq!(wordpress_result(&ran(false, "", ""), Some(&ran(false, "", "404"))), Ok(()));
    assert_eq!(wordpress_result(&ran(false, "", ""), Some(&ran(true, "", ""))), Ok(()));
    let failed = Err(Error::CommandFailed("Failed to download WordPress. Install wp-cli or check your connection.".to_string()));
    assert_eq!(wordpress_result(&ran(false, "", ""), Some(&missing())), failed);
    assert_eq!(wordpress_result(&ran(false, "", ""), None), failed);
    assert_eq!(wordpress_result(&missing(), Some(&ran(true, "", ""))), Err(Error::CommandNotStarted("Failed to run wp-cli: gone".to_string())));
}

#[test]
fn cloning_repositories() {
    assert_eq!(project_name("https://github.com/acme/shop.git", None), "shop");
    assert_eq!(project_name("https://github.com/acme/shop", None), "shop");
    assert_eq!(project_name("https://github.com/acme/shop.git///", None), "shop");
    assert_eq!(project_name("git@github.com:acme/shop.git.git", None), "shop");
    assert_eq!(project_name("shop.git", None), "shop");
    assert_eq!(project_name("https://github.com/acme/.git", None), "");
    assert_eq!(project_name("", None), "");
    assert_eq!(project_name("///", None), "");
    assert_eq!(project_name("https://github.com/acme/shop.git", Some("store")), "store");
    assert_eq!(
        clone_repository("/home/dev/Code", "https://github.com/acme/shop.git", "shop", false),
        Ok(command_in("/home/dev/Code", "git", &["clone", "https://github.com/acme/shop.git", "shop"]))
    );
    assert_eq!(
        clone_repository("/home/dev/Code", "https://github.com/acme/shop.git", "shop", true),
        Err(Error::Unsupported("Directory /home/dev/Code/shop already exists".to_string()))
    );
    assert_eq!(clone_result(ran(true, "", "")), Ok(()));
    assert_eq!(clone_result(ran(false, "", "fatal: not found")), Err(Error::CommandFailed("Failed to clone repository: fatal: not found".to_string())));
    assert_eq!(clone_result(missing()), Err(Error::CommandNotStarted("Failed to run git: gone".to_string())));
    let nothing = CloneFacts { has_composer_json: false, has_package_json: false, has_env_example: false, has_env: false, has_artisan: false };
    assert_eq!(after_clone("/p", nothing), AfterClone { composer_install: None, npm_install: None, copy_env: None, generate_key: None });
    let all = CloneFacts { has_composer_json: true, has_package_json: true, has_env_example: true, has_env: false, has_artisan: true };
    assert_eq!(
        after_clone("/p", all),
        AfterClone {
            composer_install: Some(command_in("/p", "composer", &["install"])),
            npm_install: Some(command_in("/p", "npm", &["install"])),
            copy_env: Some(("/p/.env.example".to_string(), "/p/.env".to_string())),
            generate_key: Some(command_in("/p", "php", &["artisan", "key:generate"])),
        }
    );
    let kept = CloneFacts { has_env: true, ..all };
    assert_eq!(after_clone("/p", kept).copy_env, None);
    let no_example = CloneFacts { has_env_example: false, ..all };
    assert_eq!(after_clone("/p", no_example).copy_env, None);
}

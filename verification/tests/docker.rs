use servermark::docker::{
    container_command, container_result, create_command, create_container, detect_container_runtime,
    get_container_logs, get_runtime_cmd, list_command, list_containers, logs_command, parse_container,
    parse_containers, parse_port_mapping, parse_ports, remove_command, runtime_probe, start_command,
    stop_command, version_command, Container, CreateContainerParams, PortMapping, RuntimeInfo,
    VolumeMapping,
};
use servermark::errors::{Error, ErrorKind};
use servermark::process::{Invocation, RunReport};

fn port(host: u16, container: u16, protocol: &str) -> PortMapping {
    PortMapping { host, container, protocol: protocol.to_string() }
}

fn ran(success: bool, stdout: &str, stderr: &str) -> RunReport {
    RunReport::Finished { success, stdout: stdout.to_string(), stderr: stderr.to_string() }
}

fn command(program: &str, args: &[&str]) -> Invocation {
    Invocation { program: program.to_string(), args: args.iter().map(|a| a.to_string()).collect(), dir: None }
}

#[test]
fn ports_of_a_docker_listing() {
    assert_eq!(parse_ports("0.0.0.0:3306->3306/tcp"), vec![port(3306, 3306, "tcp")]);
    assert_eq!(
        parse_ports("0.0.0.0:3306->3306/tcp, :::3306->3306/tcp"),
        vec![port(3306, 3306, "tcp"), port(3306, 3306, "tcp")]
    );
    assert_eq!(parse_ports("0.0.0.0:8080->80/tcp,0.0.0.0:5353->53/udp"), vec![port(8080, 80, "tcp"), port(5353, 53, "udp")]);
    assert_eq!(parse_ports(""), Vec::<PortMapping>::new());
    assert_eq!(parse_ports(" , ,"), Vec::<PortMapping>::new());
    assert_eq!(parse_ports("3306/tcp"), Vec::<PortMapping>::new());
    assert_eq!(parse_ports("3306/tcp, 0.0.0.0:6379->6379/tcp"), vec![port(6379, 6379, "tcp")]);
}

#[test]
fn port_entries_edge_cases() {
    assert_eq!(parse_port_mapping("8080->80"), Some(port(8080, 80, "tcp")));
    assert_eq!(parse_port_mapping("  8080->80/udp \t"), Some(port(8080, 80, "udp")));
    assert_eq!(parse_port_mapping("127.0.0.1:+81->0080/sctp/x"), Some(port(81, 80, "sctp/x")));
    assert_eq!(parse_port_mapping("65535->65535/"), Some(port(65535, 65535, "")));
    assert_eq!(parse_port_mapping("65536->80/tcp"), None);
    assert_eq!(parse_port_mapping("80->65536/tcp"), None);
    assert_eq!(parse_port_mapping("99999999999999999999->80/tcp"), None);
    assert_eq!(parse_port_mapping("->80/tcp"), None);
    assert_eq!(parse_port_mapping("80->/tcp"), None);
    assert_eq!(parse_port_mapping("80->"), None);
    assert_eq!(parse_port_mapping("a:80->8x/tcp"), None);
    assert_eq!(parse_port_mapping("-80->80/tcp"), None);
    assert_eq!(parse_port_mapping("+->80"), None);
    assert_eq!(parse_port_mapping("80 ->80"), None);
    assert_eq!(parse_port_mapping("1->2->3/tcp"), None);
    assert_eq!(parse_port_mapping("10:->80"), None);
    assert_eq!(parse_port_mapping(""), None);
    assert_eq!(parse_port_mapping("   "), None);
    assert_eq!(parse_port_mapping("0->0"), Some(port(0, 0, "tcp")));
}

#[test]
fn runtime_is_docker_then_podman_then_none() {
    let docker = ran(true, " 27.3.1\n", "");
    let api = ran(true, "1.47\n", "");
    let podman = ran(true, "5.0.0\n", "");
    assert_eq!(
        detect_container_runtime(&docker, &api, &podman),
        Ok(RuntimeInfo { runtime: "docker".to_string(), version: "27.3.1".to_string(), api_version: "1.47".to_string(), available: true })
    );
    assert_eq!(
        detect_container_runtime(&docker, &RunReport::NotStarted("gone".to_string()), &podman),
        Ok(RuntimeInfo { runtime: "docker".to_string(), version: "27.3.1".to_string(), api_version: "".to_string(), available: true })
    );
    assert_eq!(
        detect_container_runtime(&docker, &ran(false, " partial ", "err"), &podman),
        Ok(RuntimeInfo { runtime: "docker".to_string(), version: "27.3.1".to_string(), api_version: "partial".to_string(), available: true })
    );
    assert_eq!(
        detect_container_runtime(&ran(false, "27", "daemon down"), &api, &podman),
        Ok(RuntimeInfo { runtime: "podman".to_string(), version: "5.0.0".to_string(), api_version: "".to_string(), available: true })
    );
    assert_eq!(
        detect_container_runtime(&RunReport::NotStarted("no docker".to_string()), &api, &ran(false, "", "")),
        Ok(RuntimeInfo { runtime: "none".to_string(), version: "".to_string(), api_version: "".to_string(), available: false })
    );
}

#[test]
fn runtime_command_choice() {
    let ok = ran(true, "Docker version 27", "");
    let bad = ran(false, "", "nope");
    let missing = RunReport::NotStarted("not found".to_string());
    assert_eq!(get_runtime_cmd(&ok, &ok), Ok("docker".to_string()));
    assert_eq!(get_runtime_cmd(&ok, &missing), Ok("docker".to_string()));
    assert_eq!(get_runtime_cmd(&bad, &ok), Ok("podman".to_string()));
    assert_eq!(get_runtime_cmd(&missing, &ok), Ok("podman".to_string()));
    assert_eq!(get_runtime_cmd(&missing, &bad), Err(Error::NoContainerRuntime));
    assert_eq!(Error::NoContainerRuntime.message(), "No container runtime found. Please install Docker or Podman.");
    assert_eq!(Error::NoContainerRuntime.kind(), ErrorKind::NotFound);
}

#[test]
fn runtime_commands() {
    assert_eq!(version_command("docker", "{{.Server.Version}}"), command("docker", &["version", "--format", "{{.Server.Version}}"]));
    assert_eq!(runtime_probe("podman"), command("podman", &["--version"]));
    assert_eq!(
        list_command("docker"),
        command("docker", &["ps", "-a", "--filter", "name=servermark-", "--format", "{{.ID}}|{{.Names}}|{{.Image}}|{{.Status}}|{{.Ports}}|{{.CreatedAt}}"])
    );
    assert_eq!(start_command("docker", "abc"), command("docker", &["start", "abc"]));
    assert_eq!(stop_command("podman", "abc"), command("podman", &["stop", "abc"]));
    assert_eq!(container_command("docker", "pause", "abc"), command("docker", &["pause", "abc"]));
    assert_eq!(remove_command("docker", "abc", false), command("docker", &["rm", "abc"]));
    assert_eq!(remove_command("docker", "abc", true), command("docker", &["rm", "-f", "abc"]));
    assert_eq!(logs_command("docker", "abc", None), command("docker", &["logs", "--tail", "100", "abc"]));
    assert_eq!(logs_command("docker", "abc", Some(0)), command("docker", &["logs", "--tail", "0", "abc"]));
    assert_eq!(logs_command("docker", "abc", Some(4294967295)), command("docker", &["logs", "--tail", "4294967295", "abc"]));
}

#[test]
fn create_command_arguments() {
    let params = CreateContainerParams {
        image: "mysql:8".to_string(),
        name: "servermark-mysql".to_string(),
        ports: vec![port(3306, 3306, "tcp"), port(33060, 33060, "tcp")],
        environment: vec![("MYSQL_ROOT_PASSWORD".to_string(), "secret".to_string()), ("TZ".to_string(), "UTC".to_string())],
        volumes: Some(vec![VolumeMapping { name: "mysql-data".to_string(), container: "/var/lib/mysql".to_string() }]),
    };
    assert_eq!(
        create_command("docker", &params),
        command(
            "docker",
            &[
                "run", "-d", "--name", "servermark-mysql", "-p", "3306:3306/tcp", "-p", "33060:33060/tcp", "-e",
                "MYSQL_ROOT_PASSWORD=secret", "-e", "TZ=UTC", "-v", "mysql-data:/var/lib/mysql", "--restart",
                "unless-stopped", "mysql:8",
            ]
        )
    );
    let bare = CreateContainerParams {
        image: "redis".to_string(),
        name: "servermark-redis".to_string(),
        ports: Vec::new(),
        environment: Vec::new(),
        volumes: None,
    };
    assert_eq!(
        create_command("podman", &bare),
        command("podman", &["run", "-d", "--name", "servermark-redis", "--restart", "unless-stopped", "redis"])
    );
    let empty_volumes = CreateContainerParams { volumes: Some(Vec::new()), ..bare };
    assert_eq!(
        create_command("podman", &empty_volumes),
        command("podman", &["run", "-d", "--name", "servermark-redis", "--restart", "unless-stopped", "redis"])
    );
}

#[test]
fn results_of_container_commands() {
    assert_eq!(create_container(ran(true, "  4f5e6d\n", "warning")), Ok("4f5e6d".to_string()));
    assert_eq!(create_container(ran(false, "x", "name in use\n")), Err(Error::CommandFailed("name in use\n".to_string())));
    assert_eq!(
        create_container(RunReport::NotStarted("No such file".to_string())),
        Err(Error::CommandNotStarted("Failed to create container: No such file".to_string()))
    );
    assert_eq!(container_result(ran(true, "abc", ""), "Failed to start container"), Ok(()));
    assert_eq!(servermark::docker::start_container(ran(true, "abc", "")), Ok(()));
    assert_eq!(
        servermark::docker::start_container(RunReport::NotStarted("denied".to_string())),
        Err(Error::CommandNotStarted("Failed to start container: denied".to_string()))
    );
    assert_eq!(servermark::docker::stop_container(ran(false, "", "no such container")), Err(Error::CommandFailed("no such container".to_string())));
    assert_eq!(
        servermark::docker::stop_container(RunReport::NotStarted("denied".to_string())),
        Err(Error::CommandNotStarted("Failed to stop container: denied".to_string()))
    );
    assert_eq!(servermark::docker::remove_container(ran(true, "", "")), Ok(()));
    assert_eq!(
        servermark::docker::remove_container(RunReport::NotStarted("denied".to_string())),
        Err(Error::CommandNotStarted("Failed to remove container: denied".to_string()))
    );
    assert_eq!(container_result(ran(false, "", "no such container"), "Failed to stop container"), Err(Error::CommandFailed("no such container".to_string())));
    assert_eq!(
        container_result(RunReport::NotStarted("denied".to_string()), "Failed to remove container"),
        Err(Error::CommandNotStarted("Failed to remove container: denied".to_string()))
    );
    assert_eq!(get_container_logs(ran(true, "out\n", "err\n")), Ok("out\nerr\n".to_string()));
    assert_eq!(get_container_logs(ran(false, "out\n", "err\n")), Err(Error::CommandFailed("err\n".to_string())));
    assert_eq!(
        get_container_logs(RunReport::NotStarted("gone".to_string())),
        Err(Error::CommandNotStarted("Failed to get logs: gone".to_string()))
    );
    assert_eq!(Error::CommandFailed("x".to_string()).kind(), ErrorKind::ScriptFailure);
    assert_eq!(Error::CommandNotStarted("x".to_string()).kind(), ErrorKind::ElevationDenied);
    assert_eq!(Error::CommandFailed("boom".to_string()).message(), "boom");
    assert_eq!(Error::CommandNotStarted("Failed: boom".to_string()).message(), "Failed: boom");
}

#[test]
fn containers_of_a_listing() {
    let listing = "abc123|servermark-mysql|mysql:8|Up 2 hours|0.0.0.0:3306->3306/tcp, :::3306->3306/tcp|2024-01-01 10:00:00 +0000 UTC\n\
\n\
def456|servermark-redis|redis:7|Exited (0) 3 days ago||2024-01-02\n\
bad|line\n\
777|servermark-mail|mailpit|Paused|1025/tcp\n\
888|servermark-x|img|Created|\n";
    let found = parse_containers(listing);
    assert_eq!(
        found,
        vec![
            Container {
                id: "abc123".to_string(),
                name: "servermark-mysql".to_string(),
                image: "mysql:8".to_string(),
                status: "running".to_string(),
                ports: vec![port(3306, 3306, "tcp"), port(3306, 3306, "tcp")],
                created: "2024-01-01 10:00:00 +0000 UTC".to_string(),
            },
            Container {
                id: "def456".to_string(),
                name: "servermark-redis".to_string(),
                image: "redis:7".to_string(),
                status: "stopped".to_string(),
                ports: Vec::new(),
                created: "2024-01-02".to_string(),
            },
            Container {
                id: "777".to_string(),
                name: "servermark-mail".to_string(),
                image: "mailpit".to_string(),
                status: "paused".to_string(),
                ports: Vec::new(),
                created: "".to_string(),
            },
            Container {
                id: "888".to_string(),
                name: "servermark-x".to_string(),
                image: "img".to_string(),
                status: "stopped".to_string(),
                ports: Vec::new(),
                created: "".to_string(),
            },
        ]
    );
    assert_eq!(list_containers(ran(true, listing, "")), Ok(found));
    assert_eq!(list_containers(ran(true, "", "")), Ok(Vec::new()));
    assert_eq!(list_containers(ran(false, listing, "daemon down")), Err(Error::CommandFailed("daemon down".to_string())));
    assert_eq!(
        list_containers(RunReport::NotStarted("missing".to_string())),
        Err(Error::CommandNotStarted("Failed to list containers: missing".to_string()))
    );
    assert_eq!(parse_container(""), None);
    assert_eq!(parse_container("a|b|c|d"), None);
    assert_eq!(parse_container("a|b|c|SUPER|e|f|g").unwrap().status, "running");
    assert_eq!(parse_container("a|b|c|Paused but up|e").unwrap().status, "running");
}

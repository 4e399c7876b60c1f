//! Containers: what the listings of a container runtime say, and how the
//! runtime is asked to act.
//!
//! The runtime (Docker or Podman) is run by the caller. The functions here
//! read what it printed and compose the arguments it is run with.

use crate::errors::Error;
use crate::process::{explained, invoke, is_failure, outcome, printed, printed_text,
    require_success, Invocation, InvocationView, RunReport};
use crate::text::{after_last, after_last_index, contains, decimal, decimal_string, find,
    first_index, first_occurrence, has_substring, index_of, lines, lowercased, parse_number,
    parsed_number, extend_texts, push_str, push_text, split, split_lines, split_on, string_of, texts, to_chars,
    trim, trimmed};
use vstd::prelude::*;
use vstd::string::*;

verus! {

/// The container runtime found on the machine.
#[derive(Debug, PartialEq, Eq)]
pub struct RuntimeInfo {
    pub runtime: String,
    pub version: String,
    pub api_version: String,
    pub available: bool,
}

/// One container of a listing.
#[derive(Debug, PartialEq, Eq)]
pub struct Container {
    pub id: String,
    pub name: String,
    pub image: String,
    pub status: String,
    pub ports: Vec<PortMapping>,
    pub created: String,
}

/// A port of the host forwarded to a port of a container.
#[derive(Debug, PartialEq, Eq)]
pub struct PortMapping {
    pub host: u16,
    pub container: u16,
    pub protocol: String,
}

/// What a new container is made of. The environment is a list of settings,
/// each a name and a value; no name stands in it twice.
#[derive(Debug, PartialEq, Eq)]
pub struct CreateContainerParams {
    pub image: String,
    pub name: String,
    pub ports: Vec<PortMapping>,
    pub environment: Vec<(String, String)>,
    pub volumes: Option<Vec<VolumeMapping>>,
}

/// A named volume mounted at a path of a container.
#[derive(Debug, PartialEq, Eq)]
pub struct VolumeMapping {
    pub name: String,
    pub container: String,
}

/// Mathematical model of a [`RuntimeInfo`].
pub struct RuntimeInfoView {
    pub runtime: Seq<char>,
    pub version: Seq<char>,
    pub api_version: Seq<char>,
    pub available: bool,
}

/// Mathematical model of a [`PortMapping`].
pub struct PortMappingView {
    pub host: u16,
    pub container: u16,
    pub protocol: Seq<char>,
}

/// Mathematical model of a [`Container`].
pub struct ContainerView {
    pub id: Seq<char>,
    pub name: Seq<char>,
    pub image: Seq<char>,
    pub status: Seq<char>,
    pub ports: Seq<PortMappingView>,
    pub created: Seq<char>,
}

/// Mathematical model of a [`VolumeMapping`].
pub struct VolumeMappingView {
    pub name: Seq<char>,
    pub container: Seq<char>,
}

/// Mathematical model of a [`CreateContainerParams`].
pub struct CreateContainerParamsView {
    pub image: Seq<char>,
    pub name: Seq<char>,
    pub ports: Seq<PortMappingView>,
    pub environment: Seq<(Seq<char>, Seq<char>)>,
    pub volumes: Option<Seq<VolumeMappingView>>,
}

impl View for RuntimeInfo {
    type V = RuntimeInfoView;

    open spec fn view(&self) -> RuntimeInfoView {
        RuntimeInfoView {
            runtime: self.runtime@,
            version: self.version@,
            api_version: self.api_version@,
            available: self.available,
        }
    }
}

impl View for PortMapping {
    type V = PortMappingView;

    open spec fn view(&self) -> PortMappingView {
        PortMappingView { host: self.host, container: self.container, protocol: self.protocol@ }
    }
}

/// The models of a list of port mappings, in the same order.
pub open spec fn port_views(ports: Seq<PortMapping>) -> Seq<PortMappingView> {
    Seq::new(ports.len(), |i: int| ports[i]@)
}

impl View for Container {
    type V = ContainerView;

    open spec fn view(&self) -> ContainerView {
        ContainerView {
            id: self.id@,
            name: self.name@,
            image: self.image@,
            status: self.status@,
            ports: port_views(self.ports@),
            created: self.created@,
        }
    }
}

/// The models of a list of containers, in the same order.
pub open spec fn container_views(containers: Seq<Container>) -> Seq<ContainerView> {
    Seq::new(containers.len(), |i: int| containers[i]@)
}

impl View for VolumeMapping {
    type V = VolumeMappingView;

    open spec fn view(&self) -> VolumeMappingView {
        VolumeMappingView { name: self.name@, container: self.container@ }
    }
}

/// The models of a list of volume mappings, in the same order.
pub open spec fn volume_views(volumes: Seq<VolumeMapping>) -> Seq<VolumeMappingView> {
    Seq::new(volumes.len(), |i: int| volumes[i]@)
}

/// The texts of a list of settings, in the same order.
pub open spec fn setting_views(settings: Seq<(String, String)>) -> Seq<(Seq<char>, Seq<char>)> {
    Seq::new(settings.len(), |i: int| (settings[i].0@, settings[i].1@))
}

impl View for CreateContainerParams {
    type V = CreateContainerParamsView;

    open spec fn view(&self) -> CreateContainerParamsView {
        CreateContainerParamsView {
            image: self.image@,
            name: self.name@,
            ports: port_views(self.ports@),
            environment: setting_views(self.environment@),
            volumes: match self.volumes {
                Some(volumes) => Some(volume_views(volumes@)),
                None => None,
            },
        }
    }
}

impl CreateContainerParamsView {
    /// No setting of the environment is given twice.
    pub open spec fn well_formed(self) -> bool {
        forall|i: int, j: int|
            0 <= i < j < self.environment.len() ==> (#[trigger] self.environment[i]).0
                != (#[trigger] self.environment[j]).0
    }
}

// ---------------------------------------------------------------------------
// Port listings
// ---------------------------------------------------------------------------
pub const ARROW: &'static str = "->";

pub const DEFAULT_PROTOCOL: &'static str = "tcp";

pub const MAX_PORT: u32 = 65535;

/// The mapping that a trimmed entry spells when its arrow stands at index
/// `arrow` and is `width` characters wide.
pub open spec fn mapping_at(mapping: Seq<char>, arrow: int, width: int) -> Option<
    PortMappingView,
> {
    let host_part = mapping.take(arrow);
    let container_part = mapping.skip(arrow + width);
    let slash = first_index(container_part, '/') as int;
    let host = parsed_number(after_last(host_part, ':'), MAX_PORT as nat);
    let container = parsed_number(container_part.take(slash), MAX_PORT as nat);
    let protocol = if slash < container_part.len() {
        container_part.skip(slash + 1)
    } else {
        DEFAULT_PROTOCOL@
    };
    match (host, container) {
        (Some(h), Some(c)) => Some(
            PortMappingView { host: h as u16, container: c as u16, protocol: protocol },
        ),
        _ => None,
    }
}

/// The mapping that one entry of a port listing spells, such as
/// `0.0.0.0:3306->3306/tcp` or `:::3306->3306/tcp`.
///
/// White space around the entry does not count. The host port is what
/// follows the last `:` before the arrow; the container port is what stands
/// between the arrow and the first `/` after it, and what follows that `/`
/// is the protocol (`tcp` where there is no `/`). An entry without an arrow,
/// or with a port that is no number up to 65535, spells no mapping.
#[verifier::opaque]
pub open spec fn port_mapping_of(entry: Seq<char>) -> Option<PortMappingView> {
    let mapping = trimmed(entry);
    match first_occurrence(mapping, ARROW@) {
        None => None,
        Some(arrow) => mapping_at(mapping, arrow, ARROW@.len() as int),
    }
}

/// The mappings that the entries spell, in order; entries that spell none
/// are passed over.
pub open spec fn port_mappings_of(entries: Seq<Seq<char>>) -> Seq<PortMappingView>
    decreases entries.len(),
{
    if entries.len() == 0 {
        Seq::empty()
    } else {
        match port_mapping_of(entries.last()) {
            Some(mapping) => port_mappings_of(entries.drop_last()).push(mapping),
            None => port_mappings_of(entries.drop_last()),
        }
    }
}

/// The mappings of a port listing: its entries are separated by commas.
pub open spec fn parsed_ports(listing: Seq<char>) -> Seq<PortMappingView> {
    port_mappings_of(split_on(listing, ','))
}

fn parse_mapping_at(mapping: &Vec<char>, arrow: usize, width: usize) -> (r: Option<PortMapping>)
    requires
        arrow + width <= mapping.len(),
    ensures
        match r {
            Some(found) => mapping_at(mapping@, arrow as int, width as int) == Some(found@),
            None => mapping_at(mapping@, arrow as int, width as int) is None,
        },
{
    let rest = arrow + width;
    let ghost host_part = mapping@.take(arrow as int);
    let ghost container_part = mapping@.skip(rest as int);
    assert(mapping@.subrange(0, arrow as int) =~= host_part);
    let host_from = after_last_index(mapping, ':', 0, arrow);
    let host = parse_number(mapping, host_from, arrow, MAX_PORT);
    let slash = index_of(mapping, '/', rest);
    assert(mapping@.subrange(rest as int, slash as int) =~= container_part.take(slash - rest));
    let container = parse_number(mapping, rest, slash, MAX_PORT);
    let protocol = if slash < mapping.len() {
        assert(mapping@.subrange(slash + 1, mapping@.len() as int) =~= container_part.skip(
            slash - rest + 1,
        ));
        string_of(mapping, slash + 1, mapping.len())
    } else {
        DEFAULT_PROTOCOL.to_string()
    };
    match (host, container) {
        (Some(h), Some(c)) => Some(PortMapping { host: h as u16, container: c as u16, protocol }),
        _ => None,
    }
}

/// The mapping that one entry of a port listing spells; see
/// [`port_mapping_of`].
pub fn parse_port_mapping(entry: &str) -> (r: Option<PortMapping>)
    ensures
        match r {
            Some(mapping) => port_mapping_of(entry@) == Some(mapping@),
            None => port_mapping_of(entry@) is None,
        },
{
    reveal(port_mapping_of);
    let stripped = trim(entry);
    let mapping = to_chars(stripped.as_str());
    let arrow_text = to_chars(ARROW);
    match find(&mapping, &arrow_text) {
        None => None,
        Some(arrow) => parse_mapping_at(&mapping, arrow, arrow_text.len()),
    }
}

/// The mappings of a port listing such as
/// `0.0.0.0:3306->3306/tcp, :::3306->3306/tcp`; see [`parsed_ports`].
pub fn parse_ports(port_str: &str) -> (ports: Vec<PortMapping>)
    ensures
        port_views(ports@) == parsed_ports(port_str@),
{
    let entries = split(port_str, ',');
    let ghost all = texts(entries@);
    let mut ports: Vec<PortMapping> = Vec::new();
    let mut i: usize = 0;
    while i < entries.len()
        invariant
            i <= entries.len(),
            all == texts(entries@),
            port_views(ports@) == port_mappings_of(all.take(i as int)),
        decreases entries.len() - i,
    {
        proof {
            assert(all.take(i + 1).drop_last() =~= all.take(i as int));
            assert(all.take(i + 1).last() == entries@[i as int]@);
        }
        let ghost before = port_views(ports@);
        match parse_port_mapping(entries[i].as_str()) {
            Some(mapping) => {
                ports.push(mapping);
                assert(port_views(ports@) =~= before.push(mapping@));
            },
            None => {},
        }
        i += 1;
    }
    assert(all.take(entries@.len() as int) =~= all);
    ports
}

// ---------------------------------------------------------------------------
// The runtime
// ---------------------------------------------------------------------------
pub const DOCKER: &'static str = "docker";

pub const PODMAN: &'static str = "podman";

pub const NO_RUNTIME: &'static str = "none";

pub const ARG_VERSION: &'static str = "version";

pub const ARG_FORMAT: &'static str = "--format";

pub const ARG_VERSION_FLAG: &'static str = "--version";

pub const FORMAT_SERVER_VERSION: &'static str = "{{.Server.Version}}";

pub const FORMAT_API_VERSION: &'static str = "{{.Server.APIVersion}}";

pub const FORMAT_VERSION: &'static str = "{{.Version}}";

/// The command that asks `runtime` for the version given by `format`.
pub fn version_command(runtime: &str, format: &str) -> (r: Invocation)
    ensures
        r@ == (InvocationView {
            program: runtime@,
            args: seq![ARG_VERSION@, ARG_FORMAT@, format@],
            dir: None,
        }),
{
    let mut args: Vec<String> = Vec::new();
    push_str(&mut args, ARG_VERSION);
    push_str(&mut args, ARG_FORMAT);
    push_str(&mut args, format);
    assert(texts(args@) =~= seq![ARG_VERSION@, ARG_FORMAT@, format@]);
    invoke(runtime, args)
}

/// The command that tells whether `runtime` can be run at all.
pub fn runtime_probe(runtime: &str) -> (r: Invocation)
    ensures
        r@ == (InvocationView { program: runtime@, args: seq![ARG_VERSION_FLAG@], dir: None }),
{
    let mut args: Vec<String> = Vec::new();
    push_str(&mut args, ARG_VERSION_FLAG);
    assert(texts(args@) =~= seq![ARG_VERSION_FLAG@]);
    invoke(runtime, args)
}

/// The runtime of the machine, from what the version commands reported:
/// Docker where its server answered, with the version of its interface as
/// far as the second command printed one; else Podman where it answered;
/// else none.
pub open spec fn runtime_found(docker: RunReport, docker_api: RunReport, podman: RunReport)
    -> RuntimeInfoView {
    if docker.succeeded() {
        RuntimeInfoView {
            runtime: DOCKER@,
            version: printed(docker),
            api_version: printed(docker_api),
            available: true,
        }
    } else if podman.succeeded() {
        RuntimeInfoView {
            runtime: PODMAN@,
            version: printed(podman),
            api_version: Seq::empty(),
            available: true,
        }
    } else {
        RuntimeInfoView {
            runtime: NO_RUNTIME@,
            version: Seq::empty(),
            api_version: Seq::empty(),
            available: false,
        }
    }
}

/// The runtime of the machine, from what the version commands reported; see
/// [`runtime_found`]. A machine without a runtime is no failure.
pub fn detect_container_runtime(docker: &RunReport, docker_api: &RunReport, podman: &RunReport) -> (r:
    Result<RuntimeInfo, Error>)
    ensures
        r matches Ok(info) && info@ == runtime_found(*docker, *docker_api, *podman),
{
    if docker.is_success() {
        Ok(
            RuntimeInfo {
                runtime: DOCKER.to_string(),
                version: printed_text(docker),
                api_version: printed_text(docker_api),
                available: true,
            },
        )
    } else if podman.is_success() {
        Ok(
            RuntimeInfo {
                runtime: PODMAN.to_string(),
                version: printed_text(podman),
                api_version: String::new(),
                available: true,
            },
        )
    } else {
        Ok(
            RuntimeInfo {
                runtime: NO_RUNTIME.to_string(),
                version: String::new(),
                api_version: String::new(),
                available: false,
            },
        )
    }
}

/// The runtime to run containers with, from what the probes reported:
/// Docker where it can be run, else Podman where it can, else none.
pub fn get_runtime_cmd(docker: &RunReport, podman: &RunReport) -> (r: Result<String, Error>)
    ensures
        docker.succeeded() ==> (r matches Ok(name) && name@ == DOCKER@),
        !docker.succeeded() && podman.succeeded() ==> (r matches Ok(name) && name@ == PODMAN@),
        !docker.succeeded() && !podman.succeeded() ==> r == Err::<String, Error>(
            Error::NoContainerRuntime,
        ),
{
    if docker.is_success() {
        Ok(DOCKER.to_string())
    } else if podman.is_success() {
        Ok(PODMAN.to_string())
    } else {
        Err(Error::NoContainerRuntime)
    }
}

// ---------------------------------------------------------------------------
// Listing containers
// ---------------------------------------------------------------------------
pub const ARG_PS: &'static str = "ps";

pub const ARG_ALL: &'static str = "-a";

pub const ARG_FILTER: &'static str = "--filter";

pub const NAME_FILTER: &'static str = "name=servermark-";

pub const LIST_FORMAT: &'static str =
    "{{.ID}}|{{.Names}}|{{.Image}}|{{.Status}}|{{.Ports}}|{{.CreatedAt}}";

pub const LIST_CONTEXT: &'static str = "Failed to list containers";

pub const WORD_UP: &'static str = "up";

pub const WORD_EXITED: &'static str = "exited";

pub const WORD_PAUSED: &'static str = "paused";

pub const STATUS_RUNNING: &'static str = "running";

pub const STATUS_STOPPED: &'static str = "stopped";

pub const STATUS_PAUSED: &'static str = "paused";

/// The command that lists the containers this application made, one line
/// for each, the fields separated by `|`.
pub fn list_command(runtime: &str) -> (r: Invocation)
    ensures
        r@ == (InvocationView {
            program: runtime@,
            args: seq![ARG_PS@, ARG_ALL@, ARG_FILTER@, NAME_FILTER@, ARG_FORMAT@, LIST_FORMAT@],
            dir: None,
        }),
{
    let mut args: Vec<String> = Vec::new();
    push_str(&mut args, ARG_PS);
    push_str(&mut args, ARG_ALL);
    push_str(&mut args, ARG_FILTER);
    push_str(&mut args, NAME_FILTER);
    push_str(&mut args, ARG_FORMAT);
    push_str(&mut args, LIST_FORMAT);
    assert(texts(args@) =~= seq![
        ARG_PS@,
        ARG_ALL@,
        ARG_FILTER@,
        NAME_FILTER@,
        ARG_FORMAT@,
        LIST_FORMAT@,
    ]);
    invoke(runtime, args)
}

/// The state that a status text of the runtime stands for: `running` where
/// it mentions `up`, else `stopped` where it mentions `exited`, else
/// `paused` where it mentions `paused`, else `stopped`; upper and lower case
/// are not told apart.
pub open spec fn status_of(text: Seq<char>) -> Seq<char> {
    let lower = lowercased(text);
    if contains(lower, WORD_UP@) {
        STATUS_RUNNING@
    } else if contains(lower, WORD_EXITED@) {
        STATUS_STOPPED@
    } else if contains(lower, WORD_PAUSED@) {
        STATUS_PAUSED@
    } else {
        STATUS_STOPPED@
    }
}

/// The container that one line of a listing describes: none for an empty
/// line or one with fewer than five fields. The sixth field, the time of
/// creation, may be missing.
#[verifier::opaque]
pub open spec fn container_of(line: Seq<char>) -> Option<ContainerView> {
    let parts = split_on(line, '|');
    if line.len() == 0 || parts.len() < 5 {
        None
    } else {
        Some(
            ContainerView {
                id: parts[0],
                name: parts[1],
                image: parts[2],
                status: status_of(parts[3]),
                ports: parsed_ports(parts[4]),
                created: if parts.len() > 5 {
                    parts[5]
                } else {
                    Seq::empty()
                },
            },
        )
    }
}

/// The containers that the lines describe, in order.
pub open spec fn containers_of(all: Seq<Seq<char>>) -> Seq<ContainerView>
    decreases all.len(),
{
    if all.len() == 0 {
        Seq::empty()
    } else {
        match container_of(all.last()) {
            Some(container) => containers_of(all.drop_last()).push(container),
            None => containers_of(all.drop_last()),
        }
    }
}

/// The state that a status text of the runtime stands for.
pub fn container_status(text: &str) -> (r: String)
    ensures
        r@ == status_of(text@),
{
    let lower = to_chars(text.to_lowercase().as_str());
    let up = to_chars(WORD_UP);
    let exited = to_chars(WORD_EXITED);
    let paused = to_chars(WORD_PAUSED);
    if has_substring(&lower, &up) {
        STATUS_RUNNING.to_string()
    } else if has_substring(&lower, &exited) {
        STATUS_STOPPED.to_string()
    } else if has_substring(&lower, &paused) {
        STATUS_PAUSED.to_string()
    } else {
        STATUS_STOPPED.to_string()
    }
}

/// The container that one line of a listing describes.
pub fn parse_container(line: &str) -> (r: Option<Container>)
    ensures
        match r {
            Some(container) => container_of(line@) == Some(container@),
            None => container_of(line@) is None,
        },
{
    reveal(container_of);
    let parts = split(line, '|');
    if line.unicode_len() == 0 || parts.len() < 5 {
        return None;
    }
    assert(texts(parts@)[0] == parts@[0]@);
    assert(texts(parts@)[1] == parts@[1]@);
    assert(texts(parts@)[2] == parts@[2]@);
    assert(texts(parts@)[3] == parts@[3]@);
    assert(texts(parts@)[4] == parts@[4]@);
    let created = if parts.len() > 5 {
        assert(texts(parts@)[5] == parts@[5]@);
        parts[5].clone()
    } else {
        String::new()
    };
    Some(
        Container {
            id: parts[0].clone(),
            name: parts[1].clone(),
            image: parts[2].clone(),
            status: container_status(parts[3].as_str()),
            ports: parse_ports(parts[4].as_str()),
            created,
        },
    )
}

/// The containers that a listing describes, one for each line that
/// describes one.
pub fn parse_containers(stdout: &str) -> (r: Vec<Container>)
    ensures
        container_views(r@) == containers_of(lines(stdout@)),
{
    let all = split_lines(stdout);
    let ghost every = texts(all@);
    let mut out: Vec<Container> = Vec::new();
    let mut i: usize = 0;
    while i < all.len()
        invariant
            i <= all.len(),
            every == texts(all@),
            container_views(out@) == containers_of(every.take(i as int)),
        decreases all.len() - i,
    {
        proof {
            assert(every.take(i + 1).drop_last() =~= every.take(i as int));
            assert(every.take(i + 1).last() == all@[i as int]@);
        }
        let ghost before = container_views(out@);
        match parse_container(all[i].as_str()) {
            Some(container) => {
                out.push(container);
                assert(container_views(out@) =~= before.push(container@));
            },
            None => {},
        }
        i += 1;
    }
    assert(every.take(all@.len() as int) =~= every);
    out
}

/// The containers of the machine, from the report of the listing command.
/// A listing that could not be started or that failed is handed on as the
/// failure it is.
pub fn list_containers(report: RunReport) -> (r: Result<Vec<Container>, Error>)
    ensures
        match outcome(report, LIST_CONTEXT@, false) {
            Ok(stdout) => r matches Ok(found) && container_views(found@) == containers_of(
                lines(stdout),
            ),
            Err(failure) => r matches Err(e) && is_failure(e, failure),
        },
{
    match require_success(report, LIST_CONTEXT, false) {
        Ok(stdout) => Ok(parse_containers(stdout.as_str())),
        Err(e) => Err(e),
    }
}

// ---------------------------------------------------------------------------
// Creating and controlling containers
// ---------------------------------------------------------------------------
pub const ARG_RUN: &'static str = "run";

pub const ARG_DETACHED: &'static str = "-d";

pub const ARG_NAME: &'static str = "--name";

pub const ARG_PORT: &'static str = "-p";

pub const ARG_SETTING: &'static str = "-e";

pub const ARG_VOLUME: &'static str = "-v";

pub const ARG_RESTART: &'static str = "--restart";

pub const RESTART_POLICY: &'static str = "unless-stopped";

pub const ARG_START: &'static str = "start";

pub const ARG_STOP: &'static str = "stop";

pub const ARG_REMOVE: &'static str = "rm";

pub const ARG_FORCE: &'static str = "-f";

pub const ARG_LOGS: &'static str = "logs";

pub const ARG_TAIL: &'static str = "--tail";

pub const COLON: &'static str = ":";

pub const SLASH: &'static str = "/";

pub const EQUALS: &'static str = "=";

pub const DEFAULT_LOG_LINES: u32 = 100;

pub const CREATE_CONTEXT: &'static str = "Failed to create container";

pub const START_CONTEXT: &'static str = "Failed to start container";

pub const STOP_CONTEXT: &'static str = "Failed to stop container";

pub const REMOVE_CONTEXT: &'static str = "Failed to remove container";

pub const LOGS_CONTEXT: &'static str = "Failed to get logs";

/// The argument that publishes one port: host port, container port,
/// protocol.
pub open spec fn port_arg(port: PortMappingView) -> Seq<char> {
    decimal(port.host as nat) + COLON@ + decimal(port.container as nat) + SLASH@ + port.protocol
}

/// The arguments that publish the ports, in order.
pub open spec fn port_args(ports: Seq<PortMappingView>) -> Seq<Seq<char>>
    decreases ports.len(),
{
    if ports.len() == 0 {
        Seq::empty()
    } else {
        port_args(ports.drop_last()) + seq![ARG_PORT@, port_arg(ports.last())]
    }
}

/// The arguments that pass the settings of the environment, in order.
pub open spec fn setting_args(settings: Seq<(Seq<char>, Seq<char>)>) -> Seq<Seq<char>>
    decreases settings.len(),
{
    if settings.len() == 0 {
        Seq::empty()
    } else {
        setting_args(settings.drop_last()) + seq![
            ARG_SETTING@,
            settings.last().0 + EQUALS@ + settings.last().1,
        ]
    }
}

/// The arguments that mount the volumes, in order.
pub open spec fn volume_args(volumes: Seq<VolumeMappingView>) -> Seq<Seq<char>>
    decreases volumes.len(),
{
    if volumes.len() == 0 {
        Seq::empty()
    } else {
        volume_args(volumes.drop_last()) + seq![
            ARG_VOLUME@,
            volumes.last().name + COLON@ + volumes.last().container,
        ]
    }
}

/// The arguments that create and start a container: detached, named, with
/// its ports, settings and volumes, restarted unless it was stopped, from
/// the image.
pub open spec fn create_args(params: CreateContainerParamsView) -> Seq<Seq<char>> {
    seq![ARG_RUN@, ARG_DETACHED@, ARG_NAME@, params.name] + port_args(params.ports) + setting_args(
        params.environment,
    ) + (match params.volumes {
        Some(volumes) => volume_args(volumes),
        None => Seq::empty(),
    }) + seq![ARG_RESTART@, RESTART_POLICY@, params.image]
}

fn port_arg_list(ports: &Vec<PortMapping>) -> (r: Vec<String>)
    ensures
        texts(r@) == port_args(port_views(ports@)),
{
    let ghost all = port_views(ports@);
    let mut out: Vec<String> = Vec::new();
    let mut i: usize = 0;
    while i < ports.len()
        invariant
            i <= ports.len(),
            all == port_views(ports@),
            texts(out@) == port_args(all.take(i as int)),
        decreases ports.len() - i,
    {
        proof {
            assert(all.take(i + 1).drop_last() =~= all.take(i as int));
            assert(all.take(i + 1).last() == ports@[i as int]@);
        }
        let ghost before = texts(out@);
        let port = &ports[i];
        let mut arg = decimal_string(port.host as u64);
        arg.append(COLON);
        let container = decimal_string(port.container as u64);
        arg.append(container.as_str());
        arg.append(SLASH);
        arg.append(port.protocol.as_str());
        push_str(&mut out, ARG_PORT);
        push_text(&mut out, arg);
        assert(texts(out@) =~= before + seq![ARG_PORT@, port_arg(ports@[i as int]@)]);
        i += 1;
    }
    assert(all.take(ports@.len() as int) =~= all);
    out
}

fn setting_arg_list(settings: &Vec<(String, String)>) -> (r: Vec<String>)
    ensures
        texts(r@) == setting_args(setting_views(settings@)),
{
    let ghost all = setting_views(settings@);
    let mut out: Vec<String> = Vec::new();
    let mut i: usize = 0;
    while i < settings.len()
        invariant
            i <= settings.len(),
            all == setting_views(settings@),
            texts(out@) == setting_args(all.take(i as int)),
        decreases settings.len() - i,
    {
        proof {
            assert(all.take(i + 1).drop_last() =~= all.take(i as int));
            assert(all.take(i + 1).last() == (settings@[i as int].0@, settings@[i as int].1@));
        }
        let ghost before = texts(out@);
        let setting = &settings[i];
        let arg = setting.0.clone().concat(EQUALS).concat(setting.1.as_str());
        push_str(&mut out, ARG_SETTING);
        push_text(&mut out, arg);
        assert(texts(out@) =~= before + seq![
            ARG_SETTING@,
            settings@[i as int].0@ + EQUALS@ + settings@[i as int].1@,
        ]);
        i += 1;
    }
    assert(all.take(settings@.len() as int) =~= all);
    out
}

fn volume_arg_list(volumes: &Vec<VolumeMapping>) -> (r: Vec<String>)
    ensures
        texts(r@) == volume_args(volume_views(volumes@)),
{
    let ghost all = volume_views(volumes@);
    let mut out: Vec<String> = Vec::new();
    let mut i: usize = 0;
    while i < volumes.len()
        invariant
            i <= volumes.len(),
            all == volume_views(volumes@),
            texts(out@) == volume_args(all.take(i as int)),
        decreases volumes.len() - i,
    {
        proof {
            assert(all.take(i + 1).drop_last() =~= all.take(i as int));
            assert(all.take(i + 1).last() == volumes@[i as int]@);
        }
        let ghost before = texts(out@);
        let volume = &volumes[i];
        let arg = volume.name.clone().concat(COLON).concat(volume.container.as_str());
        push_str(&mut out, ARG_VOLUME);
        push_text(&mut out, arg);
        assert(texts(out@) =~= before + seq![
            ARG_VOLUME@,
            volumes@[i as int].name@ + COLON@ + volumes@[i as int].container@,
        ]);
        i += 1;
    }
    assert(all.take(volumes@.len() as int) =~= all);
    out
}

/// The command that creates and starts the container `params` describes;
/// see [`create_args`].
pub fn create_command(runtime: &str, params: &CreateContainerParams) -> (r: Invocation)
    ensures
        r@ == (InvocationView { program: runtime@, args: create_args(params@), dir: None }),
{
    let mut args: Vec<String> = Vec::new();
    push_str(&mut args, ARG_RUN);
    push_str(&mut args, ARG_DETACHED);
    push_str(&mut args, ARG_NAME);
    push_str(&mut args, params.name.as_str());
    assert(texts(args@) =~= seq![ARG_RUN@, ARG_DETACHED@, ARG_NAME@, params.name@]);
    let ports = port_arg_list(&params.ports);
    extend_texts(&mut args, &ports);
    let settings = setting_arg_list(&params.environment);
    extend_texts(&mut args, &settings);
    match &params.volumes {
        Some(volumes) => {
            let mounts = volume_arg_list(volumes);
            extend_texts(&mut args, &mounts);
        },
        None => {
            assert(texts(args@) + Seq::<Seq<char>>::empty() =~= texts(args@));
        },
    }
    let ghost before = texts(args@);
    push_str(&mut args, ARG_RESTART);
    push_str(&mut args, RESTART_POLICY);
    push_str(&mut args, params.image.as_str());
    assert(texts(args@) =~= before + seq![ARG_RESTART@, RESTART_POLICY@, params.image@]);
    invoke(runtime, args)
}

/// The identifier of the container that was created: what the runtime
/// printed, without the white space around it. A runtime that could not be
/// started or that failed is handed on as the failure it is.
pub fn create_container(report: RunReport) -> (r: Result<String, Error>)
    ensures
        match outcome(report, CREATE_CONTEXT@, false) {
            Ok(stdout) => r matches Ok(id) && id@ == trimmed(stdout),
            Err(failure) => r matches Err(e) && is_failure(e, failure),
        },
{
    match require_success(report, CREATE_CONTEXT, false) {
        Ok(stdout) => Ok(trim(stdout.as_str())),
        Err(e) => Err(e),
    }
}

/// The command that starts, stops or otherwise acts on the container `id`
/// with the one-word action `action`.
pub fn container_command(runtime: &str, action: &str, id: &str) -> (r: Invocation)
    ensures
        r@ == (InvocationView { program: runtime@, args: seq![action@, id@], dir: None }),
{
    let mut args: Vec<String> = Vec::new();
    push_str(&mut args, action);
    push_str(&mut args, id);
    assert(texts(args@) =~= seq![action@, id@]);
    invoke(runtime, args)
}

/// The command that starts the container `id`.
pub fn start_command(runtime: &str, id: &str) -> (r: Invocation)
    ensures
        r@ == (InvocationView { program: runtime@, args: seq![ARG_START@, id@], dir: None }),
{
    container_command(runtime, ARG_START, id)
}

/// The command that stops the container `id`.
pub fn stop_command(runtime: &str, id: &str) -> (r: Invocation)
    ensures
        r@ == (InvocationView { program: runtime@, args: seq![ARG_STOP@, id@], dir: None }),
{
    container_command(runtime, ARG_STOP, id)
}

/// The arguments that remove the container `id`, by force where asked.
pub open spec fn remove_args(id: Seq<char>, force: bool) -> Seq<Seq<char>> {
    if force {
        seq![ARG_REMOVE@, ARG_FORCE@, id]
    } else {
        seq![ARG_REMOVE@, id]
    }
}

/// The command that removes the container `id`, by force where asked.
pub fn remove_command(runtime: &str, id: &str, force: bool) -> (r: Invocation)
    ensures
        r@ == (InvocationView { program: runtime@, args: remove_args(id@, force), dir: None }),
{
    let mut args: Vec<String> = Vec::new();
    push_str(&mut args, ARG_REMOVE);
    if force {
        push_str(&mut args, ARG_FORCE);
    }
    push_str(&mut args, id);
    assert(texts(args@) =~= remove_args(id@, force));
    invoke(runtime, args)
}

/// How many lines of a log to show: as many as asked for, 100 where nothing
/// was asked.
pub open spec fn log_lines(lines: Option<u32>) -> nat {
    match lines {
        Some(n) => n as nat,
        None => DEFAULT_LOG_LINES as nat,
    }
}

/// The command that shows the last lines of the log of the container `id`.
pub fn logs_command(runtime: &str, id: &str, lines: Option<u32>) -> (r: Invocation)
    ensures
        r@ == (InvocationView {
            program: runtime@,
            args: seq![ARG_LOGS@, ARG_TAIL@, decimal(log_lines(lines)), id@],
            dir: None,
        }),
{
    let count = match lines {
        Some(n) => n,
        None => DEFAULT_LOG_LINES,
    };
    let mut args: Vec<String> = Vec::new();
    push_str(&mut args, ARG_LOGS);
    push_str(&mut args, ARG_TAIL);
    push_text(&mut args, decimal_string(count as u64));
    push_str(&mut args, id);
    assert(texts(args@) =~= seq![ARG_LOGS@, ARG_TAIL@, decimal(log_lines(lines)), id@]);
    invoke(runtime, args)
}

/// The result of starting, stopping or removing a container: nothing to
/// tell where the runtime succeeded, the failure otherwise. `context` says
/// what was tried.
pub fn container_result(report: RunReport, context: &str) -> (r: Result<(), Error>)
    ensures
        match outcome(report, context@, false) {
            Ok(_) => r is Ok,
            Err(failure) => r matches Err(e) && is_failure(e, failure),
        },
{
    match require_success(report, context, false) {
        Ok(_) => Ok(()),
        Err(e) => Err(e),
    }
}

/// What became of starting a container; see [`container_result`].
pub fn start_container(report: RunReport) -> (r: Result<(), Error>)
    ensures
        match outcome(report, START_CONTEXT@, false) {
            Ok(_) => r is Ok,
            Err(failure) => r matches Err(e) && is_failure(e, failure),
        },
{
    container_result(report, START_CONTEXT)
}

/// What became of stopping a container; see [`container_result`].
pub fn stop_container(report: RunReport) -> (r: Result<(), Error>)
    ensures
        match outcome(report, STOP_CONTEXT@, false) {
            Ok(_) => r is Ok,
            Err(failure) => r matches Err(e) && is_failure(e, failure),
        },
{
    container_result(report, STOP_CONTEXT)
}

/// What became of removing a container; see [`container_result`].
pub fn remove_container(report: RunReport) -> (r: Result<(), Error>)
    ensures
        match outcome(report, REMOVE_CONTEXT@, false) {
            Ok(_) => r is Ok,
            Err(failure) => r matches Err(e) && is_failure(e, failure),
        },
{
    container_result(report, REMOVE_CONTEXT)
}

/// The log of a container: what the runtime wrote to its output followed by
/// what it wrote to its error stream, for a log may come on either. A
/// runtime that could not be started or that failed is handed on as the
/// failure it is.
pub fn get_container_logs(report: RunReport) -> (r: Result<String, Error>)
    ensures
        match report {
            RunReport::NotStarted(cause) => r matches Err(Error::CommandNotStarted(m)) && m@
                == explained(LOGS_CONTEXT@, cause@),
            RunReport::Finished { success, stdout, stderr } => if success {
                r matches Ok(log) && log@ == stdout@ + stderr@
            } else {
                r matches Err(Error::CommandFailed(m)) && m@ == stderr@
            },
        },
{
    match report {
        RunReport::NotStarted(cause) => Err(
            Error::CommandNotStarted(crate::process::explain(LOGS_CONTEXT, cause.as_str())),
        ),
        RunReport::Finished { success, stdout, stderr } => if success {
            Ok(stdout.concat(stderr.as_str()))
        } else {
            Err(Error::CommandFailed(stderr))
        },
    }
}

} // verus!

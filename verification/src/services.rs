//! System services: whether they run, and how they are started and
//! stopped.

use crate::errors::Error;
use crate::process::{explain, explained, invoke, is_failure, outcome, require_success,
    Invocation, InvocationView, RunReport};
use crate::system::{elevated_unit_command, is_active_command};
use crate::text::{parse_number_of, parsed_number, push_str, texts, trim, trimmed};
use vstd::prelude::*;
use vstd::string::*;

verus! {

/// Whether a service runs, and as which process.
#[derive(Debug, PartialEq, Eq)]
pub struct ServiceStatus {
    pub id: String,
    pub name: String,
    pub status: String,
    pub pid: Option<u32>,
}

/// Mathematical model of a [`ServiceStatus`].
pub struct ServiceStatusView {
    pub id: Seq<char>,
    pub name: Seq<char>,
    pub status: Seq<char>,
    pub pid: Option<u32>,
}

impl View for ServiceStatus {
    type V = ServiceStatusView;

    open spec fn view(&self) -> ServiceStatusView {
        ServiceStatusView { id: self.id@, name: self.name@, status: self.status@, pid: self.pid }
    }
}

pub const SYSTEMCTL: &'static str = "systemctl";

pub const PKEXEC: &'static str = "pkexec";

pub const ARG_SHOW: &'static str = "show";

pub const ARG_MAIN_PID: &'static str = "--property=MainPID";

pub const ARG_VALUE: &'static str = "--value";

pub const ARG_START: &'static str = "start";

pub const ARG_STOP: &'static str = "stop";

pub const RUNNING: &'static str = "running";

pub const STOPPED: &'static str = "stopped";

pub const STATUS_CONTEXT: &'static str = "Failed to check service status";

pub const START_CONTEXT: &'static str = "Failed to start service";

pub const STOP_CONTEXT: &'static str = "Failed to stop service";

pub const MAX_PID: u32 = 4294967295;

/// The command that tells whether a service runs.
pub fn service_status_command(service_name: &str) -> (r: Invocation)
    ensures
        r@ == (InvocationView {
            program: SYSTEMCTL@,
            args: seq![crate::system::ARG_IS_ACTIVE@, service_name@],
            dir: None,
        }),
{
    is_active_command(service_name)
}

/// The command that prints the main process of a service.
pub fn main_pid_command(service_name: &str) -> (r: Invocation)
    ensures
        r@ == (InvocationView {
            program: SYSTEMCTL@,
            args: seq![ARG_SHOW@, service_name@, ARG_MAIN_PID@, ARG_VALUE@],
            dir: None,
        }),
{
    let mut args: Vec<String> = Vec::new();
    push_str(&mut args, ARG_SHOW);
    push_str(&mut args, service_name);
    push_str(&mut args, ARG_MAIN_PID);
    push_str(&mut args, ARG_VALUE);
    assert(texts(args@) =~= seq![ARG_SHOW@, service_name@, ARG_MAIN_PID@, ARG_VALUE@]);
    invoke(SYSTEMCTL, args)
}

/// The main process that a report names: the number it printed, white
/// space aside, where that is a number above zero.
pub open spec fn main_pid_in(report: RunReport) -> Option<u32> {
    match report {
        RunReport::Finished { stdout, .. } => match parsed_number(
            trimmed(stdout@),
            MAX_PID as nat,
        ) {
            Some(pid) => if pid > 0 {
                Some(pid as u32)
            } else {
                None
            },
            None => None,
        },
        RunReport::NotStarted(_) => None,
    }
}

/// The state of a service, from the report of the `is-active` query and,
/// for a service that runs, of the query for its main process.
pub open spec fn status_found(service_name: Seq<char>, active: bool, pid: Option<RunReport>)
    -> ServiceStatusView {
    ServiceStatusView {
        id: service_name,
        name: service_name,
        status: if active {
            RUNNING@
        } else {
            STOPPED@
        },
        pid: if active {
            match pid {
                Some(report) => main_pid_in(report),
                None => None,
            }
        } else {
            None
        },
    }
}

/// The state of the service `service_name`.
///
/// The service runs where the `is-active` query succeeded. For a service
/// that runs, `pid` is the report of the query for its main process; the
/// process is known where that report names a number above zero. A query
/// that could not be started is a failure.
pub fn get_service_status(service_name: &str, active: &RunReport, pid: Option<&RunReport>) -> (r:
    Result<ServiceStatus, Error>)
    ensures
        match *active {
            RunReport::NotStarted(cause) => r matches Err(Error::CommandNotStarted(m)) && m@
                == explained(STATUS_CONTEXT@, cause@),
            RunReport::Finished { success, .. } => r matches Ok(status) && status@ == status_found(
                service_name@,
                success,
                match pid {
                    Some(report) => Some(*report),
                    None => None,
                },
            ),
        },
{
    match active {
        RunReport::NotStarted(cause) => Err(
            Error::CommandNotStarted(explain(STATUS_CONTEXT, cause.as_str())),
        ),
        RunReport::Finished { success, .. } => {
            let running = *success;
            let main_pid = if running {
                match pid {
                    Some(report) => match report {
                        RunReport::Finished { stdout, .. } => {
                            let text = trim(stdout.as_str());
                            match parse_number_of(text.as_str(), MAX_PID) {
                                Some(n) => if n > 0 {
                                    Some(n)
                                } else {
                                    None
                                },
                                None => None,
                            }
                        },
                        RunReport::NotStarted(_) => None,
                    },
                    None => None,
                }
            } else {
                None
            };
            Ok(
                ServiceStatus {
                    id: service_name.to_string(),
                    name: service_name.to_string(),
                    status: if running {
                        RUNNING.to_string()
                    } else {
                        STOPPED.to_string()
                    },
                    pid: main_pid,
                },
            )
        },
    }
}

/// The command that starts a service with elevated privileges.
pub fn start_command(service_name: &str) -> (r: Invocation)
    ensures
        r@ == (InvocationView {
            program: PKEXEC@,
            args: seq![SYSTEMCTL@, ARG_START@, service_name@],
            dir: None,
        }),
{
    elevated_unit_command(ARG_START, service_name)
}

/// The command that stops a service with elevated privileges.
pub fn stop_command(service_name: &str) -> (r: Invocation)
    ensures
        r@ == (InvocationView {
            program: PKEXEC@,
            args: seq![SYSTEMCTL@, ARG_STOP@, service_name@],
            dir: None,
        }),
{
    elevated_unit_command(ARG_STOP, service_name)
}

/// What became of starting a service: nothing to tell where the command
/// succeeded, the failure otherwise.
pub fn start_service(report: RunReport) -> (r: Result<(), Error>)
    ensures
        match outcome(report, START_CONTEXT@, false) {
            Ok(_) => r is Ok,
            Err(failure) => r matches Err(e) && is_failure(e, failure),
        },
{
    match require_success(report, START_CONTEXT, false) {
        Ok(_) => Ok(()),
        Err(e) => Err(e),
    }
}

/// What became of stopping a service: nothing to tell where the command
/// succeeded, the failure otherwise.
pub fn stop_service(report: RunReport) -> (r: Result<(), Error>)
    ensures
        match outcome(report, STOP_CONTEXT@, false) {
            Ok(_) => r is Ok,
            Err(failure) => r matches Err(e) && is_failure(e, failure),
        },
{
    match require_success(report, STOP_CONTEXT, false) {
        Ok(_) => Ok(()),
        Err(e) => Err(e),
    }
}

} // verus!

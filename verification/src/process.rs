//! Commands and what became of them.
//!
//! The crate starts no process. It says which command is to be run, as an
//! [`Invocation`], and reads what the caller reports of the run, as a
//! [`RunReport`].

use crate::errors::Error;
use crate::sites::text_of;
use crate::text::{texts, trim, trimmed};
use vstd::prelude::*;
use vstd::string::*;

verus! {

/// A command to run: the program, its arguments, and the directory to run
/// it in where that matters.
#[derive(Debug, PartialEq, Eq)]
pub struct Invocation {
    pub program: String,
    pub args: Vec<String>,
    pub dir: Option<String>,
}

/// Mathematical model of an [`Invocation`].
pub struct InvocationView {
    pub program: Seq<char>,
    pub args: Seq<Seq<char>>,
    pub dir: Option<Seq<char>>,
}

impl View for Invocation {
    type V = InvocationView;

    open spec fn view(&self) -> InvocationView {
        InvocationView { program: self.program@, args: texts(self.args@), dir: text_of(self.dir) }
    }
}

/// What became of one run of a command.
#[derive(Debug, PartialEq, Eq)]
pub enum RunReport {
    /// The command could not be started. Holds the reason as the system
    /// gave it.
    NotStarted(String),
    /// The command ran to its end. `success` tells whether it reported
    /// success; `stdout` and `stderr` are what it wrote.
    Finished { success: bool, stdout: String, stderr: String },
}

/// The characters of a report: how it ended and what was written.
pub open spec fn report_view(report: RunReport) -> (bool, bool, Seq<char>, Seq<char>) {
    match report {
        RunReport::NotStarted(cause) => (false, false, cause@, Seq::empty()),
        RunReport::Finished { success, stdout, stderr } => (true, success, stdout@, stderr@),
    }
}

impl Clone for RunReport {
    fn clone(&self) -> (r: Self)
        ensures
            report_view(r) == report_view(*self),
    {
        match self {
            RunReport::NotStarted(cause) => RunReport::NotStarted(cause.clone()),
            RunReport::Finished { success, stdout, stderr } => RunReport::Finished {
                success: *success,
                stdout: stdout.clone(),
                stderr: stderr.clone(),
            },
        }
    }
}

impl Clone for Invocation {
    fn clone(&self) -> (r: Self)
        ensures
            r@ == self@,
    {
        let mut args: Vec<String> = Vec::new();
        let mut i: usize = 0;
        assert(texts(args@) =~= texts(self.args@).take(0));
        while i < self.args.len()
            invariant
                i <= self.args.len(),
                texts(args@) == texts(self.args@).take(i as int),
            decreases self.args.len() - i,
        {
            let ghost before = texts(args@);
            args.push(self.args[i].clone());
            assert(texts(args@) =~= before.push(self.args@[i as int]@));
            assert(texts(args@) =~= texts(self.args@).take(i + 1));
            i += 1;
        }
        assert(texts(self.args@).take(self.args@.len() as int) =~= texts(self.args@));
        Invocation {
            program: self.program.clone(),
            args,
            dir: match &self.dir {
                Some(dir) => Some(dir.clone()),
                None => None,
            },
        }
    }
}

impl RunReport {
    /// Whether the command ran and reported success.
    pub open spec fn succeeded(self) -> bool {
        self matches RunReport::Finished { success, .. } && success
    }

    /// Whether the command ran and reported success.
    pub fn is_success(&self) -> (r: bool)
        ensures
            r == self.succeeded(),
    {
        match self {
            RunReport::Finished { success, .. } => *success,
            RunReport::NotStarted(_) => false,
        }
    }
}

pub const CAUSE_SEPARATOR: &'static str = ": ";

/// `context`, a colon, and `cause`.
pub open spec fn explained(context: Seq<char>, cause: Seq<char>) -> Seq<char> {
    context + CAUSE_SEPARATOR@ + cause
}

/// `context`, a colon, and `cause`.
pub fn explain(context: &str, cause: &str) -> (r: String)
    ensures
        r@ == explained(context@, cause@),
{
    context.to_string().concat(CAUSE_SEPARATOR).concat(cause)
}

/// The command `program` with the arguments `args`, run wherever the caller
/// stands.
pub fn invoke(program: &str, args: Vec<String>) -> (r: Invocation)
    ensures
        r@ == (InvocationView { program: program@, args: texts(args@), dir: None }),
{
    Invocation { program: program.to_string(), args, dir: None }
}

/// The command `program` with the arguments `args`, run in `dir`.
pub fn invoke_in(dir: &str, program: &str, args: Vec<String>) -> (r: Invocation)
    ensures
        r@ == (InvocationView { program: program@, args: texts(args@), dir: Some(dir@) }),
{
    Invocation { program: program.to_string(), args, dir: Some(dir.to_string()) }
}

/// What a command that has to succeed gives: its output where it ran and
/// succeeded; `CommandNotStarted` with `context` and the reason where it
/// could not be started; `CommandFailed` with its error stream where it ran
/// and failed, headed by `context` where `headed` is set.
pub open spec fn outcome(report: RunReport, context: Seq<char>, headed: bool) -> Result<
    Seq<char>,
    (bool, Seq<char>),
> {
    match report {
        RunReport::NotStarted(cause) => Err((false, explained(context, cause@))),
        RunReport::Finished { success, stdout, stderr } => if success {
            Ok(stdout@)
        } else if headed {
            Err((true, explained(context, stderr@)))
        } else {
            Err((true, stderr@))
        },
    }
}

/// Whether `e` is the error for the failure `failure` of [`outcome`]:
/// `CommandFailed` for a command that ran, `CommandNotStarted` for one that
/// did not, each with the message of the failure.
pub open spec fn is_failure(e: Error, failure: (bool, Seq<char>)) -> bool {
    if failure.0 {
        e matches Error::CommandFailed(m) && m@ == failure.1
    } else {
        e matches Error::CommandNotStarted(m) && m@ == failure.1
    }
}

/// Whether `r` is what [`outcome`] describes.
pub open spec fn is_outcome(r: Result<String, Error>, expected: Result<Seq<char>, (bool, Seq<char>)>)
    -> bool {
    match expected {
        Ok(stdout) => r matches Ok(text) && text@ == stdout,
        Err(failure) => r matches Err(e) && is_failure(e, failure),
    }
}

/// The output of a command that has to succeed; see [`outcome`].
pub fn require_success(report: RunReport, context: &str, headed: bool) -> (r: Result<String, Error>)
    ensures
        is_outcome(r, outcome(report, context@, headed)),
{
    match report {
        RunReport::NotStarted(cause) => Err(Error::CommandNotStarted(explain(context, cause.as_str()))),
        RunReport::Finished { success, stdout, stderr } => if success {
            Ok(stdout)
        } else if headed {
            Err(Error::CommandFailed(explain(context, stderr.as_str())))
        } else {
            Err(Error::CommandFailed(stderr))
        },
    }
}

/// What a command wrote to its output, without the white space around it;
/// nothing for a command that could not be started.
pub open spec fn printed(report: RunReport) -> Seq<char> {
    match report {
        RunReport::NotStarted(_) => Seq::empty(),
        RunReport::Finished { stdout, .. } => trimmed(stdout@),
    }
}

/// What a command wrote to its output, without the white space around it.
pub fn printed_text(report: &RunReport) -> (r: String)
    ensures
        r@ == printed(*report),
{
    match report {
        RunReport::NotStarted(_) => String::new(),
        RunReport::Finished { stdout, .. } => trim(stdout.as_str()),
    }
}

} // verus!

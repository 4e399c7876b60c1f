//! The failures that the registry and the reconciliation operations report.

use vstd::prelude::*;
use vstd::string::*;

verus! {

/// The broad class of a failure.
#[derive(Debug, Clone, Copy, PartialEq, Eq, Structural)]
pub enum ErrorKind {
    /// The request itself is not acceptable.
    Validation,
    /// The request names something the registry does not hold.
    NotFound,
    /// The privileged run could not be started.
    ElevationDenied,
    /// The privileged run started and one of its steps failed.
    ScriptFailure,
    /// The registry document could not be read or written.
    Persistence,
}

/// Why an operation was refused or failed.
#[derive(Debug, PartialEq, Eq)]
pub enum Error {
    /// The project directory does not exist.
    PathMissing,
    /// Another site is already registered for the same directory.
    DuplicatePath,
    /// Another site already carries the same name.
    DuplicateName,
    /// Another site already answers on the domain computed for the new one.
    DomainCollision,
    /// Every number of which an identifier could be made is used up.
    IdentifiersExhausted,
    /// The web server is neither `caddy` nor `nginx`.
    InvalidBackend,
    /// The directory holds no `artisan` file.
    NotLaravelProject,
    /// No registered site carries the identifier.
    SiteNotFound,
    /// Neither Docker nor Podman can be run.
    NoContainerRuntime,
    /// The privileged run could not be started; holds the launcher's message.
    ElevationDenied(String),
    /// The privileged run failed; holds its error stream, unchanged.
    ScriptFailure(String),
    /// The registry document could not be read or written; holds the cause.
    Persistence(String),
    /// A command could not be started; holds what was tried and why it
    /// failed.
    CommandNotStarted(String),
    /// A command ran and failed; holds its error stream, with or without a
    /// heading.
    CommandFailed(String),
    /// The request asks for something that is not offered; holds the
    /// complete message.
    Unsupported(String),
}

impl Error {
    /// The class of this failure.
    pub open spec fn spec_kind(&self) -> ErrorKind {
        match self {
            Error::PathMissing => ErrorKind::Validation,
            Error::DuplicatePath => ErrorKind::Validation,
            Error::DuplicateName => ErrorKind::Validation,
            Error::DomainCollision => ErrorKind::Validation,
            Error::IdentifiersExhausted => ErrorKind::Validation,
            Error::InvalidBackend => ErrorKind::Validation,
            Error::NotLaravelProject => ErrorKind::Validation,
            Error::SiteNotFound => ErrorKind::NotFound,
            Error::NoContainerRuntime => ErrorKind::NotFound,
            Error::ElevationDenied(_) => ErrorKind::ElevationDenied,
            Error::ScriptFailure(_) => ErrorKind::ScriptFailure,
            Error::Persistence(_) => ErrorKind::Persistence,
            Error::CommandNotStarted(_) => ErrorKind::ElevationDenied,
            Error::CommandFailed(_) => ErrorKind::ScriptFailure,
            Error::Unsupported(_) => ErrorKind::Validation,
        }
    }

    /// The text shown to the operator for this failure.
    pub open spec fn spec_message(&self) -> Seq<char> {
        match self {
            Error::PathMissing => "Path does not exist"@,
            Error::DuplicatePath => "Site already exists"@,
            Error::DuplicateName => "Site already exists"@,
            Error::DomainCollision => "Domain already in use"@,
            Error::IdentifiersExhausted => "No site identifier is left"@,
            Error::InvalidBackend => "Unknown web server"@,
            Error::NotLaravelProject => "Not a Laravel project"@,
            Error::SiteNotFound => "Site not found"@,
            Error::NoContainerRuntime => "No container runtime found. Please install Docker or Podman."@,
            Error::ElevationDenied(cause) => "Failed to execute: "@ + cause@,
            Error::ScriptFailure(stderr) => "Operation failed: "@ + stderr@,
            Error::Persistence(cause) => cause@,
            Error::CommandNotStarted(message) => message@,
            Error::CommandFailed(message) => message@,
            Error::Unsupported(message) => message@,
        }
    }

    /// The class of this failure.
    #[verifier::when_used_as_spec(spec_kind)]
    pub fn kind(&self) -> (k: ErrorKind)
        ensures
            k == self.spec_kind(),
    {
        match self {
            Error::PathMissing => ErrorKind::Validation,
            Error::DuplicatePath => ErrorKind::Validation,
            Error::DuplicateName => ErrorKind::Validation,
            Error::DomainCollision => ErrorKind::Validation,
            Error::IdentifiersExhausted => ErrorKind::Validation,
            Error::InvalidBackend => ErrorKind::Validation,
            Error::NotLaravelProject => ErrorKind::Validation,
            Error::SiteNotFound => ErrorKind::NotFound,
            Error::NoContainerRuntime => ErrorKind::NotFound,
            Error::ElevationDenied(_) => ErrorKind::ElevationDenied,
            Error::ScriptFailure(_) => ErrorKind::ScriptFailure,
            Error::Persistence(_) => ErrorKind::Persistence,
            Error::CommandNotStarted(_) => ErrorKind::ElevationDenied,
            Error::CommandFailed(_) => ErrorKind::ScriptFailure,
            Error::Unsupported(_) => ErrorKind::Validation,
        }
    }

    /// The text shown to the operator for this failure. A failed run keeps
    /// the whole error stream of the script, so that a refused reload or a
    /// malformed fragment can be diagnosed from the message alone.
    pub fn message(&self) -> (m: String)
        ensures
            m@ == self.spec_message(),
    {
        match self {
            Error::PathMissing => "Path does not exist".to_string(),
            Error::DuplicatePath => "Site already exists".to_string(),
            Error::DuplicateName => "Site already exists".to_string(),
            Error::DomainCollision => "Domain already in use".to_string(),
            Error::IdentifiersExhausted => "No site identifier is left".to_string(),
            Error::InvalidBackend => "Unknown web server".to_string(),
            Error::NotLaravelProject => "Not a Laravel project".to_string(),
            Error::SiteNotFound => "Site not found".to_string(),
            Error::NoContainerRuntime => "No container runtime found. Please install Docker or Podman.".to_string(),
            Error::ElevationDenied(cause) => "Failed to execute: ".to_string().concat(
                cause.as_str(),
            ),
            Error::ScriptFailure(stderr) => "Operation failed: ".to_string().concat(
                stderr.as_str(),
            ),
            Error::Persistence(cause) => cause.clone(),
            Error::CommandNotStarted(message) => message.clone(),
            Error::CommandFailed(message) => message.clone(),
            Error::Unsupported(message) => message.clone(),
        }
    }
}

} // verus!

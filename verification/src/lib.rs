//! Site registry and web-server reconciliation for a local development host.
//!
//! The crate keeps a registry of local sites, gives each a domain, and says
//! what has to be done so that the web server (Caddy or Nginx) and the hosts
//! table of the machine agree with the registry. It touches neither disk nor
//! processes: every function maps values to values. What is to be run comes
//! back as text or as a command; what was run comes in as a report.
//!
//! - [`sites`]: the site model, the registry and the operations on it.
//! - [`webserver`]: the fragment templates, the script builder, the stored
//!   selection of the active backend.
//! - [`laws`]: what holds of registry and scripts whatever they hold.
//! - [`dotenv`], [`permissions`]: the side steps for Laravel projects.
//! - [`docker`], [`laravel`], [`php`], [`projects`], [`services`],
//!   [`system`]: the commands around containers, frameworks, interpreters
//!   and services, and the reading of what they print.
//! - [`text`], [`paths`], [`json`], [`clock`], [`process`], [`errors`]: what
//!   the others are built on.
//!
//! Contracts are stated over sequences of characters. The few calls into
//! other crates stand behind items whose contracts are taken on trust; their
//! doc comments begin with `Trusted:`.

pub mod clock;
pub mod docker;
pub mod dotenv;
pub mod errors;
pub mod json;
pub mod laravel;
pub mod laws;
pub mod paths;
pub mod permissions;
pub mod php;
pub mod process;
pub mod projects;
pub mod services;
pub mod sites;
pub mod system;
pub mod text;
pub mod webserver;

//! Version lifecycle core of a local Node.js version manager.
//!
//! The library resolves version specifiers ([`utils`], [`lifecycle`]), puts
//! installed versions into presentation order ([`ranking`]), and runs
//! install, use, remove and list as state machines ([`commands`]) that ask
//! a host for each piece of I/O and decide by its replies. [`host`] models
//! such a host and states what the operations achieve on it;
//! [`discipline`] states in which order they make their requests on any
//! host.

pub mod commands;
pub mod config;
pub mod discipline;
pub mod error;
pub mod host;
pub mod lifecycle;
pub mod options;
pub mod ranking;
pub mod text;
pub mod utils;

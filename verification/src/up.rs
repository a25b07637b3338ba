//! `dev up`: bringing a project's container up.
use vstd::prelude::*;

pub mod compose;
pub mod container;
pub mod features;
pub mod flow;
pub mod flow_laws;
pub mod gate;
pub mod host;
pub mod mounts;
pub mod notices;
pub mod ports;
pub mod readiness;
pub mod run_args;
pub mod secrets;

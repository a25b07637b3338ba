//! Decisions and rules of a devcontainer command line.
#![allow(unused_imports)]
use vstd::prelude::*;

pub mod assoc;
pub mod cmux;
pub mod exec;
pub mod explain;
pub mod image_build;
pub mod json;
pub mod logs;
pub mod model;
pub mod number;
pub mod order;
pub mod prune;
pub mod session;
pub mod shell;
pub mod status;
pub mod status_runtime;
pub mod text;
pub mod up;

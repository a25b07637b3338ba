//! The runtime section of `dev status`: what daemon answered, what a container
//! on it can reach, and whether what is built on that works right now.
use vstd::prelude::*;

pub mod check_laws;
pub mod checks;
pub mod facts;
pub mod live;
pub mod paths;
pub mod report;

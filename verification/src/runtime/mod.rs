//! Agent runtimes: their profiles, container specifications and health probing.

use vstd::prelude::*;

pub mod adapter;
pub mod command;
pub mod default_image;
pub mod health;
pub mod host_state;
pub mod http;
pub mod kind;
pub mod opencode;
pub mod profile;
pub mod run;
pub mod spec;

verus! {

} // verus!

use vstd::prelude::*;

pub mod api;
pub mod cli;
pub mod config;
pub mod container;
pub mod errors;
pub mod filesystem;
pub mod hostname;
pub mod mounts;
pub mod plan;
pub mod resources;
mod text;

verus! {
}

//! Planning and validation logic for running code snippets with a selected
//! toolchain: command-line rules, package specifications, process plans.

pub mod text;
pub mod cli;
pub mod util;
pub mod process;
pub mod execution;
pub mod plan;
pub mod runner;
pub mod skill;

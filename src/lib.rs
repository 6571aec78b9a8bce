//! Early-boot orchestration for a declaratively built system: the decisions
//! of the boot and activation sequences, proved against their contracts.
//! The program around the library performs the filesystem, mount and process
//! work that these decisions ask for.
use vstd::prelude::*;

pub mod activate;
pub mod boot;
pub mod cmdline;
pub mod config;
pub mod env_generator;
pub mod error;
pub mod helper;
pub mod pointer;
pub mod store;
mod text;

pub use crate::activate::activate;
pub use crate::cmdline::extract_init;
pub use crate::config::{Config, EnvVar};
pub use crate::env_generator::env_generator;
pub use crate::error::InitError;
pub use crate::helper::SYSROOT_PATH;
pub use crate::store::NIX_STORE_PATH;

verus! {

} // verus!

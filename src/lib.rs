//! Locating, fetching and launching the `superhtml` language server for an
//! editor extension.
//!
//! The library holds the decisions: which release asset fits the platform,
//! where it is installed, when to download, unpack, mark executable or sweep
//! old versions. The host's capabilities (lookups, downloads, processes, the
//! file system) are driven from outside through the resolver's actions and
//! events.
use vstd::prelude::*;

pub mod error;
pub mod install;
pub mod laws;
pub mod platform;
pub mod resolver;

verus! {

} // verus!

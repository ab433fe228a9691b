//! Environment fingerprinting: decides, from observations of the host, whether
//! the process runs under a debugger, inside a virtual machine, or on a network
//! configuration typical of a virtualised host.
//!
//! The library asks the host nothing. Its caller reads the state of the host
//! into a snapshot, and a detector decides on the snapshot and on its tables
//! of known values: [`check_debugger`], [`check_vm`], [`check_network`]. Each
//! verdict is the disjunction of the checks of its detector, each check is a
//! function of what it is given, and a query that was not answered counts as
//! no evidence.

pub mod debugger;
pub mod lossy;
pub mod network;
pub mod registry;
pub mod signature;
pub mod text;
pub mod verdict;
pub mod vm;

pub use crate::debugger::check_debugger;
pub use crate::network::check_network;
pub use crate::vm::check_vm;

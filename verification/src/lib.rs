//! Safe, verified modeling layer for a Win32/COM style binding library.
//!
//! The heart of the crate is the COM interface runtime in [`com`]: a
//! reference-counted wrapper around a foreign object that is reached only
//! through a table of function pointers. The foreign side is represented by
//! an explicit in-process model with call counters, so the ownership
//! discipline (acquire, duplicate, release, query) is stated in contracts
//! and proved. Around it stand the mechanical layers of such a binding:
//! packing helpers, message-parameter builders and constant tables.

pub mod co;
pub mod com;
pub mod enums;
pub mod funcs;
pub mod gui;
pub mod handles;
pub mod lvm;
pub mod mf;
pub mod msg;
pub mod shell;
pub mod structs;
pub mod winspool;

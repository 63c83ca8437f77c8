//! An interactive debugger core for WebAssembly modules.
//!
//! The crate decodes a binary module into an offset-annotated instruction
//! sequence, instantiates it in a store together with host-supplied import
//! modules, and executes functions one instruction at a time under the
//! control of a run/step state machine with function-level breakpoints.
//! A message-oriented proxy layer exposes the same control surface to an
//! out-of-process client.

pub mod address;
pub mod commands;
pub mod debugger;
pub mod dwarf;
pub mod executor;
pub mod global;
pub mod host;
pub mod inst;
pub mod inst_decode;
pub mod inst_encode;
pub mod leb;
pub mod memory;
pub mod module;
pub mod module_binary;
pub mod numeric;
pub mod proxy;
pub mod rpc;
pub mod store;
pub mod table;
pub mod trap;
pub mod types;
pub mod value;

pub use address::ModuleIndex;

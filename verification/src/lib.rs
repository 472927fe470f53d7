//! A priority-ordered task queue with a fixed pool of workers, and a host for
//! sandboxed WebAssembly modules with bounds-checked access to their memory.

pub mod execution;
pub mod guest;
pub mod http;
pub mod registry;
pub mod runtime;
pub mod safety;
pub mod wasm;

//! A host for WebAssembly guests: it loads a module, binds the functions the
//! guest imports, runs the guest's entry point and copies the guest's linear
//! memory out for display. The decisions of the command line and of the
//! interactive loop around it are plain functions from what was read to what
//! is to be done.

pub mod cli;
pub mod error;
pub mod example;
pub mod host;
pub mod memory;
pub mod runtime;
pub mod source;
pub mod stdin_runner;
pub mod text;
pub mod wasm_runner;

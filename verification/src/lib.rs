//! Planning and decision logic for a one-shot native-code timing tool.
//!
//! The tool compiles one C++ source file into a shared library, loads it,
//! resolves one exported function, calls it and reports how long the call
//! took. Everything that touches the outside world (spawning the compiler,
//! mapping the library, calling into it, reading the clock) is left to the
//! caller. This crate decides what to do and what to say: it validates the
//! command line, encodes the symbol name, builds the compiler invocation,
//! maps each outcome of the outside steps to a result or an error, and
//! renders every line the tool prints.
pub mod compile;
pub mod error;
pub mod loader;
pub mod plan;
pub mod report;
pub mod symbol;
pub mod text;

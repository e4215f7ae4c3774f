//! Session state of a recursive build tool, carried from each process to the
//! processes it starts through a fixed set of environment variables.
//!
//! The library never touches the process environment itself. A caller reads
//! the variables into an [`environ::Environ`], lets the functions here decode
//! and update it, and writes the result back before it starts a child.

pub mod bootstrap;
pub mod codec;
pub mod decimal;
pub mod environ;
pub mod error;
pub mod paths;
pub mod resolver;
pub mod session;
pub mod tristate;

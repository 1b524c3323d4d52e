//! Connection bootstrap for a remote-editing client: layered configuration
//! resolution (defaults, environment variables, command-line flags, SSH-derived
//! host auto-detection), local path and identity resolution, and planning of
//! the transport dial.

pub mod bootstrap;
pub mod config;
pub mod port;
pub mod target;

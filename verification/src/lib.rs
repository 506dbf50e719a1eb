//! Control plane of a small TLS content server.
//!
//! The library holds the verified core: loading the named configuration
//! documents, building a TLS identity from certificate and key files,
//! the lifecycle state machine of the listener worker, and the control
//! plane that sequences epochs and translates operator selections into
//! worker commands. File and network I/O, the HTTP listener itself and
//! the interactive prompt live outside the library and hand it plain
//! values.

pub mod channel;
pub mod config;
pub mod control;
pub mod pages;
pub mod tls;
pub mod worker;

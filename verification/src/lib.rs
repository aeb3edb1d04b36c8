//! Verified core of a best-effort network reconnaissance tool.
//!
//! The library holds the logic of the scan: how probe outcomes are turned
//! into results, how report entries are merged, which ports get a TLS
//! probe, how target addresses are classified and formatted, and how
//! certificate fields are extracted with their documented fallbacks.
//! The surrounding I/O (sockets, HTTP requests, TLS handshakes, the ping
//! utility) stays outside and hands the library plain values.

pub mod text;

pub mod scanner;

pub mod http_probe;

pub mod tls_probe;

pub mod ping_flash;

pub mod orchestrator;

//! Decisions of a TCP port scanner and of a single-URL inspection, as pure
//! functions with machine-checked contracts. Sockets, DNS, HTTP and the
//! terminal belong to the program around this library.

pub mod page;
pub mod ports;
pub mod probe;
pub mod report;
pub mod scan;
pub mod text;


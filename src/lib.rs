//! TCP connection diagnostics: decoding of the kernel's `tcp_info` record
//! into a display snapshot, and the reply that a request for one gets.
pub mod decode;
pub mod reader;
pub mod snapshot;

//! Userspace backing store for a block-device front end.
//!
//! The library holds the verified core of the service: the wire codec for
//! fixed-size request and response records, the in-memory block store, the
//! per-request service step, and the hexadecimal diagnostic formatter. The
//! surrounding process (opening the control channel, mapping the shared
//! payload buffer, and looping) lives outside the library.

pub mod codec;
pub mod hex;
pub mod service;
pub mod store;

//! Decisions and formats of the transport endpoints.

pub mod tcp;
pub mod tlog;
pub mod udp;

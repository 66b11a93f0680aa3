//! MAVLink router library: learns which endpoint leads to which MAVLink
//! system, filters and de-duplicates traffic, and frames byte streams
//! into MAVLink packets. The decisions are verified; the transports that
//! carry the bytes live in the companion program.

pub mod config;
pub mod dedup;
pub mod endpoint_core;
pub mod endpoints;
pub mod error;
pub mod filter;
pub mod framing;
pub mod mavlink_utils;
pub mod orchestration;
pub mod router;
pub mod routing;
pub mod text;

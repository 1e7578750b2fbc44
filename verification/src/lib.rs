//! Service layer of a star-detection RPC server.
//!
//! The library validates an inbound detection request (image buffer, binning
//! flags, optional background-estimation region), resolves it into an
//! execution plan for the external detection engine, and assembles the
//! engine's report into the outbound result, including the mean-peak-pixel
//! statistic over the leading candidates. The engine itself and the network
//! transport stay outside: the runtime hands this layer plain values and
//! takes plain values back.

pub mod binning;
pub mod candidates;
pub mod errors;
pub mod image_data;
pub mod region;
pub mod response;
pub mod service;

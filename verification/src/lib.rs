//! Shared data types and muxing contracts of a multimedia pipeline.
//!
//! The crate holds the values that encoders, decoders, muxers and demuxers
//! exchange (packets, frames, format descriptors, timing), the sink
//! abstraction that a muxer writes to, and the registry through which a muxer
//! is found by name. Every function carries a contract over a mathematical
//! model of its data.

pub mod error;
pub mod rational;
pub mod timeinfo;
pub mod io;
pub mod packet;
pub mod value;
pub mod text;
pub mod common;
pub mod muxer;
pub mod pixel;
pub mod audiosample;
pub mod frame;

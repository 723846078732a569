//! Sinks: things that can be sent values and answer each one immediately with a result.
//!
//! The `sink` module holds the `Sink` trait and its companions; the other modules hold
//! sinks built from closures and combinators that wrap a target sink.
pub mod sink;
pub mod fnsink;
pub mod nullsink;
pub mod map;
pub mod reduce;
pub mod optionmap;
pub mod resultmap;
pub mod echo;
pub mod reflect;
pub mod sink2;
pub mod isink;
pub mod sinkmap;
pub mod statefulsink;
pub mod echosink;
pub mod vecsink;
pub mod iasyncsink;
pub mod source;
pub mod fallible;
pub mod product;
pub mod logging;
pub mod component;
pub mod stdio;
pub mod runtimes;
pub mod system;
pub mod pure;
pub mod config;
pub mod notices;
pub mod stdlines;
pub mod net;
pub mod http;
pub mod socket_addrs;

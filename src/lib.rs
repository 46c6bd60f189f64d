//! A desktop liveness monitor: it loads a catalog of HTTP endpoints, runs one
//! perpetual probe loop per endpoint, and raises an alert whenever a probe
//! fails at the transport or while the response body is being received.
//!
//! The library holds the decisions; the program around it performs the
//! waiting, the HTTP calls and the notifications that the decisions ask for.
pub mod config;
pub mod catalog;
pub mod prober;
pub mod scheduler;

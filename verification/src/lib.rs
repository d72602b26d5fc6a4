//! Verified core of two small tool servers: a calculator and a weather
//! lookup that proxies a third-party weather HTTP API.
//!
//! The library holds everything that can be decided from plain values:
//! arithmetic handlers and their dispatch, construction of the outbound
//! request URLs, the mapping from HTTP status codes to error categories,
//! and the interpretation of fetched responses. The surrounding process
//! (standard input/output transport, the actual HTTP calls) hands the
//! library plain values and takes plain values back.

pub mod calc;
pub mod digits;
pub mod errors;
pub mod status;
pub mod weather;

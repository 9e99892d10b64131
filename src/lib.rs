//! A coordinate-transform client: the decisions of one request/response
//! exchange that turns a Cartesian point into a polar one through a remote
//! service, over HTTP or CoAP, with a JSON or CBOR body.
//!
//! The library holds the values, the configuration rules and the exchange's
//! state machine; the program around it performs the encoding, the network
//! work and the decoding that each action asks for, and reports the outcome
//! back as an event.
pub mod config;
pub mod coordinate;
pub mod error;
pub mod exchange;

//! Dispatch core of a small home-automation control server.
//!
//! A request names a method, by a header or by its path. The registry
//! ([`server::RpiHomeContext`]) has the handler registered under that name,
//! which binds an endpoint to each verb it serves. The endpoint's adapter
//! ([`server::json_request_handler::JsonMethodHandlerAdapter`]) reads the
//! body as JSON, checks that it stands for the endpoint's input, checks the
//! shared secret, and only then runs the endpoint. What comes of it is a
//! [`server::envelope::Step`]: the answer, or the work of a device that the
//! request has to wait for. The caller does that work and comes back with
//! the event ([`server::RpiHomeContext::resume`]).
//!
//! The library does no input or output of its own. It holds the rules: which
//! request is routed where, which is turned away and how, what an endpoint
//! does to the switches and the climate of the house, and which bytes go to a
//! peer. Each of them is stated as a contract over a model of the data and
//! proved; the laws that relate several functions are public proof
//! functions beside them.
//!
//! What JSON text stands for which tree, and the other way round, is the
//! business of `serde_json`; the library knows the outcome by name only
//! ([`json::parsed`], [`json::printed`]).

pub mod commands;
pub mod config;
pub mod json;
pub mod requests;
pub mod server;
pub mod services;
pub mod text;
pub mod utils;

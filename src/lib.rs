//! Request dispatch and authorization core of a text-to-speech HTTP front end.
//!
//! Everything here is a pure decision over plain values: the server around it
//! reads requests, calls the inference engine and writes responses.
pub mod text;
pub mod routing;
pub mod auth;
pub mod level;
pub mod telemetry;
pub mod server;
pub mod laws;

//! A small static-file HTTP server core: request-line routing, response
//! framing with a fallback page, the read and write loops of a connection,
//! and admission accounting for concurrent connections.
pub mod admission;
pub mod bytes;
pub mod connection;
pub mod guarantees;
pub mod request;
pub mod response;

//! Timing a TLS handshake against a remote host, apart from TCP setup.
//!
//! The library holds the logic of a handshake speed measurement: resolving a
//! URL to a host and port, the measurement's state machine from first contact
//! to a completed or failed handshake, and the semantic-version comparison
//! that a release check uses. Network I/O itself is left to the caller, who
//! drives the state machine with the events it observes.

pub mod hostport;
pub mod measure;
pub mod version;

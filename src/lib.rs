//! Routes a stream of bytes from one endpoint (a file, a TCP connection or a
//! UDP socket) to one or more endpoints of the same kinds.
//!
//! The library holds what can be decided without touching the operating
//! system: the endpoint descriptor grammar, the rules that turn the outcome of
//! a transport read or write into a result, the steps that open an endpoint
//! and the errors they map to, and the router's state machine.
pub mod decimal;
pub mod text;
pub mod settings;
pub mod open;
pub mod buffer;
pub mod stream_read;
pub mod stream_write;
pub mod router;

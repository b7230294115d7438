//! A layered connector framework for HTTP client transports.
//!
//! A connector resolves a destination key into a bidirectional byte
//! stream.  Connectors compose: a TLS layer performs a handshake over
//! the stream its inner connector produced, and a pooling layer reuses
//! idle connections keyed by destination.  A completion-to-readiness
//! bridge adapts completion-style streams to the readiness-style
//! polling contract that HTTP framing code expects.

pub mod alpn;
pub mod bridge;
pub mod compose;
pub mod errors;
pub mod loopback;
pub mod name;
pub mod pool;
pub mod tls;

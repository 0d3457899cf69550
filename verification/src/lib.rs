//! Guest-side client for the Korea Investment & Securities (KIS) Open API.
//!
//! The library never performs I/O itself.  Every operation that needs the
//! network is written as a resumable step function: it either hands back the
//! HTTP request that has to be sent next, or the final result.  The embedding
//! module sends the request through the host and delivers the reply.

pub mod codec;
pub mod headers;
pub mod http;
pub mod json;
pub mod kis;
pub mod plugin;
pub mod text;

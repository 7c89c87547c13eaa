//! A gateway core for a line-oriented, TLS-wrapped request/response protocol
//! (one request line, one status+meta line, then a raw body), together with a
//! transpiler that turns the protocol's lightweight markup into HTML.
//!
//! The crate holds the pure logic of the gateway: the status catalog, the
//! response framing decoder, the redirect-following fetch state machine, and
//! the markup-to-HTML transpiler.  Network transport and the HTTP front end
//! are left to the surrounding application, which drives the state machine.

pub mod escape;
pub mod ext;
pub mod fetch;
pub mod gemtext;
pub mod link;
pub mod response;
pub mod status;

//! A Debug Adapter Protocol front-end for a debuggee that is launched as an
//! opaque subprocess.
//!
//! The crate decodes the protocol's JSON envelope, dispatches each request to
//! the handler of its command and keeps the state of the session: the
//! capabilities the client negotiated, the counter that numbers outgoing
//! messages and the one debuggee the session may own. Spawning, killing and
//! reaping the debuggee are left to the embedding program: the session says
//! what it needs done as a [`session::Step`] and is told how it went.

pub mod capabilities;
pub mod cli;
pub mod dispatch;
pub mod encode;
pub mod envelope;
pub mod guarantees;
pub mod json;
pub mod messages;
pub mod model;
pub mod requests;
pub mod session;
pub mod strings;

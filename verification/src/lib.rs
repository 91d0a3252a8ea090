//! The core of a multi-tenant workflow-execution service: per-identity
//! routing, per-session state, command decoding and the node execution
//! engine, all free of I/O. A host program accepts connections, performs the
//! outside work that the core asks for and feeds the answers back in.

pub mod dispatcher;
pub mod engine;
pub mod hub;
pub mod identity;
pub mod json;
pub mod laws;
pub mod message;
pub mod node;
pub mod object_id;
pub mod registry;
pub mod routing;
pub mod session;
pub mod text;

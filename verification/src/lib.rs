//! Verified core of a tool-dispatch benchmark server.
//!
//! The library models the layer of such a server that carries real logic:
//! a registry of named tools with declared parameter schemas, a codec that
//! validates untyped parameter trees against those schemas, a dispatcher
//! that routes calls and normalizes every outcome into a uniform result
//! envelope, and a session manager that tracks independent client sessions.
//! Transport, networking and timers live outside the library; they hand in
//! plain values and take plain values back.

pub mod codec;
pub mod dispatch;
pub mod info;
pub mod json;
pub mod registry;
pub mod render;
pub mod session;
pub mod text;
pub mod tools;

//! Safe, verified core of a binding to a native real-time communication
//! engine.
//!
//! The crate holds everything that decides or computes on the managed side of
//! the boundary: how text becomes a null-terminated buffer, how configuration
//! builders are laid out for the native side, which number stands for which
//! enumeration value, who owns a connection handle and a session description,
//! and how a one-shot native completion is turned into a single result.
//! Nothing here touches a pointer: addresses are carried as plain numbers and
//! borrowed buffers as references, so lifetimes keep every buffer alive for
//! as long as a layout that points into it.

pub mod config;
pub mod connection;
pub mod error;
pub mod negotiation;
pub mod raw;
pub mod session;
pub mod text;
pub mod wake;

pub use error::RtcError;
pub use text::NativeText;

//! Readiness multiplexing and connection bootstrap for SRT sockets, kept free
//! of any native call: every function here takes what the transport returned
//! as a plain value and decides what follows from it.

pub mod arena;
pub mod bootstrap;
pub mod channel;
pub mod error;
pub mod event;
pub mod ffi;
pub mod handles;
pub mod net;
pub mod poll;
pub mod socket;
pub mod stream;

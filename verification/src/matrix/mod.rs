//! Talking to Matrix: logging in, cross-signing the device, and sending.

pub mod messaging;
pub mod recovery;
pub mod session;

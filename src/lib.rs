//! Core of a hand-held controller: button and axis sampling, the host's
//! command bytes, the emission policy and the wire encodings.

pub mod state;
pub mod sampler;
pub mod session;
pub mod frame;
pub mod laws;

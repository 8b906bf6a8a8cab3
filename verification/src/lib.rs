//! Verified core of an echo-state reservoir computing library.
//!
//! The crate holds the model of an echo-state network: its weight matrices,
//! the reservoir topology, the reservoir state, and the accumulators of the
//! two regression engines. Every value is built and changed through functions
//! whose contracts fix the shapes involved, the parameter domains, and the
//! error that each bad input yields. Real numbers travel through the model as
//! IEEE 754 binary64 bit patterns; the model classifies and orders them but
//! never does arithmetic on them, which is left to the numeric kernels of the
//! embedding program.

pub mod error;
pub mod scalar;
pub mod matrix;
pub mod topology;
pub mod projection;
pub mod reservoir;
pub mod ridge;
pub mod rls;
pub mod network;

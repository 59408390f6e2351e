//! Proof-of-existence claims: a verified claim registry together with the
//! start-up decisions of the node that hosts it.

pub mod claim;
pub mod store;
pub mod pallet;
pub mod laws;
pub mod service;

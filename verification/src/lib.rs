//! Load generation for a data-availability network: random blob batches,
//! namespace selection, gas estimation and the decisions of the submission loop.

pub mod batch;
pub mod blob;
pub mod driver;
pub mod gas;
pub mod namespace;
pub mod random;
pub mod signer;
pub mod submission;

//! Session-change bookkeeping of the parachains initializer and the XCM
//! weighing rules of the Westend relay chain, with their contracts proved.

pub mod initializer;
pub mod primitives;
pub mod xcm_weights;

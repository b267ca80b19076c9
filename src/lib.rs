//! An order book whose insertion, matching, cancellation and depth
//! aggregation run as data-oblivious computations: every operation visits
//! every slot in a fixed order and expresses its decisions as selects.
pub mod book;
pub mod circuits;
pub mod confidential;
pub mod laws;
pub mod order;
pub mod select;

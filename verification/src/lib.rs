//! A two-stage work-item service: a stateless `refine` stage that turns a
//! payload into a fixed-layout result, and an `accumulate` stage that folds a
//! batch of results into a small set of storage entries.

pub mod accumulate;
pub mod hash;
pub mod increment;
pub mod output;
pub mod payload;
pub mod store;
pub mod verify;

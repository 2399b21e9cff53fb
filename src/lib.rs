//! A bloom filter with an insertion counter: the sizing, insert, query and
//! reset rules, verified over a set-valued model of the underlying filter.
pub mod store;
pub mod handle;
pub mod laws;

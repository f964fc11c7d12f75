//! A test-execution engine: discovers test cases inside compiled test
//! binaries, filters and partitions them into a selection, runs each selected
//! case as a subprocess under a bounded worker pool with cancellation, and
//! aggregates the outcomes into run statistics.

pub mod catalog;
pub mod driver;
pub mod filter;
pub mod invoke;
pub mod listing;
pub mod matching;
pub mod model;
pub mod outcome;
pub mod partition;
pub mod runner;
pub mod selection;
pub mod stable_hash;
pub mod stats;

//! Building and signing a single-input, single-output spend transaction, and the
//! bookkeeping of a benchmark that runs that work in repeated waves of workers.
pub mod config;
pub mod encoding;
pub mod explorer;
pub mod harness;
pub mod key;
pub mod signing;
pub mod stats;
pub mod tx;

//! The time-series store that receives the decoded records.

pub mod push;

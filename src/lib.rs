//! Verified configuration and call selection for running a compiled
//! smart-contract project on an in-process EVM test runner.

pub mod lookup;
pub mod paths;
pub mod runner;
pub mod settings;

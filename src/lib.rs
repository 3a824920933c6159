//! Decision logic of a stress harness in which several workers each write an
//! executable script to a path of their own and run it, over and over, until
//! the first failure, which ends the whole run.
//!
//! The library holds what can be decided without touching the system: how the
//! command line is read, which path each worker owns, what is written there,
//! how a worker moves between writing and executing, and what is reported when
//! it stops. The program around it performs the file writes and process starts.
pub mod config;
pub mod decimal;
pub mod paths;
pub mod script;
pub mod worker;

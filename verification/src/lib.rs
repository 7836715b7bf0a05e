//! Decision logic of a concurrent download manager.
//!
//! Every component that waits on the network, the file system, a timer or a
//! channel is written here as a step function: the caller performs the
//! awaited work and reports what happened as an event, and the step function
//! answers with the next state and the action to perform.

pub mod cancel;
pub mod command;
pub mod db;
pub mod manifest;
pub mod paths;
pub mod state;
pub mod transfer;
pub mod worker;

//! Execution unit core: the activity state machine, the batch executor, the
//! process supervisor and the usage counters of a node-local compute agent.
//!
//! Every function here is verified. Outside work (remote calls, timers,
//! starting and stopping the worker process) is left to the driver: the
//! library decides, the driver performs and hands the outcome back.

pub mod activity_loop;
pub mod agreement;
pub mod batch;
pub mod cli;
mod clock;
pub mod counter;
pub mod error;
pub mod executor;
pub mod process;
pub mod requests;
pub mod script;
pub mod state;
pub mod text;
pub mod unit;

//! Backend of a desktop front end for an external text-anonymization engine.
//!
//! The library turns an anonymization request into the engine's argument
//! list, lays out the transient workspace files, and drives one engine run
//! as a state machine whose host performs the actual file and process work.

pub mod text;
pub mod request;
pub mod layout;
pub mod invocation;
pub mod error;
pub mod bridge;
pub mod run;
pub mod presets;
pub mod config;

//! A continuous-integration orchestrator for a fixed set of test suites.
//! Each suite runs as one job, in a disposable virtual machine cloned from a
//! shared base image, and a scheduler lets a bounded number of jobs run at
//! once, in two priority classes.
//!
//! The library decides and never acts. Whatever touches a file, a process
//! or the clock is handed out as an [`effect::Action`]; the embedding
//! program performs it and hands back an [`effect::Reply`]. A whole run is
//! a [`ci::ContinuousIntegration`]: ask it for its `action`, perform that,
//! give the reply to `run`, until there is no action left.

pub mod ci;
pub mod cli_report;
pub mod clock;
pub mod command;
pub mod config;
pub mod container;
pub mod effect;
pub mod email;
pub mod git;
pub mod runner;
pub mod scheduler;
pub mod text;
pub mod util;
pub mod vm;

pub use ci::ContinuousIntegration;
pub use config::Configuration;

//! A deterministic, seed-driven random SQL workload generator with an
//! oracle framework for classifying query outcomes.
//!
//! The pipeline is: seed -> random table schemas and row data -> random
//! SQL queries over those tables -> outcome classification (crash vs.
//! whitelisted error vs. genuine bug).  Every generated artifact is a
//! function of the seed and the configuration alone, so a failing case
//! can be reproduced from its seed.

pub mod rng;
pub mod types;
pub mod numfmt;
pub mod datefmt;
pub mod value;
pub mod config;
pub mod context;
pub mod dataset;
pub mod expr;
pub mod stmt;
pub mod whitelist;
pub mod stats;
pub mod oracle;
pub mod runner;

//! Core of a database migration tool: a registry of database connections,
//! migration tasks with a finite-state lifecycle, migration strategies, and a
//! pipeline that drives tasks through their lifecycle.
//!
//! The opening of real backend handles, the network probes and the
//! serialization of snapshots are performed by the surrounding application;
//! this crate holds the decisions and the data they act on, with their
//! contracts.

pub mod config;
pub mod connection;
pub mod errors;
mod ident;
pub mod pipeline;
pub mod strategy;
pub mod string_map;
pub mod task;
pub mod text;

//! Orchestration logic for migrating data between PostgreSQL-compatible
//! databases, either through logical replication driven locally or through a
//! hosted job service that is polled to completion.
pub mod error;
pub mod models;
pub mod orchestrator;
pub mod remote;
pub mod replication;
pub mod text;

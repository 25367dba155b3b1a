//! Verified core of the VSN local server: validation rules, command planning
//! and the decision logic of the shared control store.
pub mod text;
pub mod digest;
pub mod store;
pub mod store_records;
pub mod store_snapshot;
pub mod store_cluster;
pub mod store_commands;
pub mod store_streams;
pub mod store_identity;
pub mod store_fleet;
pub mod json;
pub mod cloud;
pub mod cloud_cli;
pub mod cloud_images;
pub mod cloud_copy;
pub mod cloud_ssh;
pub mod cloud_release;
pub mod container;
pub mod database_cli;
pub mod database;
pub mod sqlite;
pub mod database_native;
pub mod native_txn;
pub mod native_inspect;
pub mod native_jobs;
pub mod auth;
pub mod config;
pub mod audit;
pub mod ai;

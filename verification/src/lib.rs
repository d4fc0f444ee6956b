//! The decision logic of a multi-tenant SQL server's HTTP platform.

pub mod admin_query;
pub mod auth;
pub mod conn_cache;
pub mod databases;
pub mod db_factory;
pub mod encoding;
pub mod error;
pub mod headers;
pub mod http;
pub mod metrics;
pub mod namespace;
pub mod namespace_config;
pub mod platform;
pub mod queries;
pub mod query_registry;
pub mod records;
pub mod replication;
pub mod routes;
pub mod shell;
pub mod static_files;
pub mod stmt;
pub mod stmt_cache;
pub mod text;
pub mod token;
pub mod user_api;
pub mod value;

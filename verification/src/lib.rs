//! Account and session-authentication library: password-based registration
//! with salted hashing, signed session tokens, a request-time authentication
//! gate, and a transactional email-verification workflow with expiry
//! sweeping.

pub mod digits;
pub mod hasher;
pub mod laws;
pub mod middlewares;
pub mod session;
pub mod store;
pub mod strings;
pub mod tasks;
pub mod users_controller;
pub mod users_service;
pub mod validation;

use vstd::prelude::*;

verus! {

/// Connection settings for the storage backend, built once at process start.
#[derive(Clone)]
pub struct DBConfig {
    pub surrealdb_url: String,
    pub surrealdb_username: String,
    pub surrealdb_password: String,
    pub surrealdb_ns: String,
    pub surrealdb_db: String,
}

/// Process-wide configuration, immutable after startup.
#[derive(Clone)]
pub struct Config {
    pub db: DBConfig,
    pub service_url: String,
    pub http_address: String,
    pub jwt_secret: String,
    pub jwt_maxage: u64,
    pub run_migrations: bool,
    pub smtp_from: String,
    pub smtp_hostname: String,
    pub smtp_port: u64,
    pub smtp_username: String,
    pub smtp_password: String,
}

/// Everything a request handler needs, built once at startup.
pub struct AppState {
    pub users_service: users_service::UsersService,
    pub tasks_service: tasks::TasksService,
    pub jwt_secret: String,
    pub jwt_maxage: u64,
}

} // verus!

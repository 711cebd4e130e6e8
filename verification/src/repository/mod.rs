//! Repository layer: the statements that read and write the database, and
//! what their results mean.

pub mod auth_repo;
pub mod crud;
pub mod ops;
pub mod query;
pub mod repo_transaction;
pub mod token_repo;
pub mod user_repo;

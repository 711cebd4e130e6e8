//! Session and access-control core of the Socky backend.
//!
//! The library holds the decisions of the backend: how access and refresh
//! tokens are issued and checked, how login, refresh and logout proceed step
//! by step, how errors become HTTP answers, and how SQL statements are put
//! together. Database access, HTTP plumbing and hashing live around it.

pub mod model;
pub mod time;
pub mod error;
pub mod token;
pub mod web;
pub mod auth;
pub mod repository;
pub mod text;
pub mod worker;
pub mod log;

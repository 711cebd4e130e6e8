//! Authentication flows: login, refresh and logout, each a machine that
//! decides the next step from what the previous one returned.

pub mod controller;
pub mod laws;
pub mod login_service;
pub mod password;
pub mod service;
pub mod service_laws;
pub mod table_laws;

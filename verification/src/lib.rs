//! Verified core of an inventory service: dialect-aware SQL statements, label
//! allocation, row decoding and the guards of the repository operations.

pub mod config;
pub mod db;
pub mod error;
pub mod handlers;
pub mod json;
pub mod models;
pub mod semantics;
pub mod services;
pub mod text;
pub mod validation;

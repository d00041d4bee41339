//! Qiskit Runtime API client: token handling, models and request building.
pub mod apis;
pub mod auth;
pub mod models;

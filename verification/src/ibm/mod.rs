//! IBM quantum resources.
pub mod direct_access;
pub mod qiskit_runtime_service;

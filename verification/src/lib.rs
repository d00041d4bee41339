//! Quantum Resource Management Interface: the decisions, request shapes and
//! status mappings of the IBM Direct Access, IBM Qiskit Runtime Service and
//! Pasqal Cloud resource back ends.
use vstd::prelude::*;

pub mod models;
pub mod text;
pub mod error;
pub mod cext;
pub mod pasqal;
pub mod json;
pub mod qiskit_runtime_client;
pub mod ibm;
pub mod direct_access_client;
pub mod retry;

verus! {

} // verus!

//! Pasqal Cloud resources.
pub mod client;
pub mod cloud;

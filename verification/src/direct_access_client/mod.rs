//! Direct Access API client: models, requests and object storage listing.
pub mod client;
pub mod models;
pub mod s3;

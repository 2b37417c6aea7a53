//! Terraform Registry logic: errors, response decoding, endpoint plans and the
//! decisions taken on each response.
pub mod batch;
pub mod client;
pub mod decode;
pub mod error;
pub mod fallback;
pub mod policy;

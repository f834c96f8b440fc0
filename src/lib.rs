//! Deduplication of pricing-computation jobs: a request is validated, turned
//! into a content-addressed job identity, and the stored status of that
//! identity is mapped to a response.

pub mod dispatch;
pub mod fingerprint;
pub mod request;
pub mod validate;

//! Objects that the platform's API sends back.
pub mod oauth;
pub mod share;
pub mod v2;

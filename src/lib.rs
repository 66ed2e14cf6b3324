//! Client library for a short-video platform's open API: request and response
//! models for its endpoints, and a chunked upload engine whose chunk plan,
//! byte ranges and stop-on-first-failure bookkeeping are verified.
pub mod decimal;
pub mod endpoints;
pub mod media_transfer;
pub mod objects;
pub mod tokio_fs_util;

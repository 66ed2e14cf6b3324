//! Objects of the share API.
use vstd::prelude::*;

verus! {

/// The state of a shared video upload, as webhook events report it.
#[derive(Debug, Clone, Copy, PartialEq, Eq)]
pub enum VideoUploadState {
    Failed,
    Completed,
}

} // verus!

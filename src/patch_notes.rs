//! Release notes of the launcher's products.
use vstd::prelude::*;

pub mod bedrock;
pub mod dungeons;
pub mod java;
pub mod launcher;

verus! {

/// An image attached to a release note.
pub struct PatchImage {
    pub url: String,
    pub title: String,
}

} // verus!

//! The platform layer of targets without mountable volumes.
use vstd::prelude::*;
use crate::types::{Volume, VolumeError};

verus! {

/// There are never any volumes to list.
pub fn get_volumes() -> (r: Result<Vec<Volume>, VolumeError>)
    ensures
        r matches Ok(v) && v@.len() == 0,
{
    Ok(Vec::new())
}

/// Unmounting is not available.
pub fn unmount_volume(path: &str) -> (r: Result<(), VolumeError>)
    ensures
        r matches Err(VolumeError::Unsupported),
{
    Err(VolumeError::Unsupported)
}

} // verus!

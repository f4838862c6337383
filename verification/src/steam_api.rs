//! What Steam reports of a game's cloud files.
use vstd::prelude::*;
use vstd::string::*;

verus! {

/// One file of a game's Steam Cloud storage. `timestamp` is the time of its
/// last change in seconds since the Unix epoch.
#[derive(Debug, Clone)]
pub struct CloudFile {
    pub name: String,
    pub size: u64,
    pub timestamp: i64,
    pub is_persisted: bool,
    pub exists: bool,
    pub root: u32,
    pub root_description: String,
    pub conflict: bool,
}

/// A copy of a listed file, equal to it.
pub fn copy_cloud_file(f: &CloudFile) -> (r: CloudFile)
    ensures
        r == *f,
{
    CloudFile {
        name: f.name.clone(),
        size: f.size,
        timestamp: f.timestamp,
        is_persisted: f.is_persisted,
        exists: f.exists,
        root: f.root,
        root_description: f.root_description.clone(),
        conflict: f.conflict,
    }
}

} // verus!

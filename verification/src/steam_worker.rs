//! The messages exchanged with the process that talks to Steam.
use vstd::prelude::*;

verus! {

/// A request to the Steam process.
#[derive(Debug, Clone, PartialEq, Eq)]
pub enum WorkerRequest {
    Connect { app_id: u32 },
    Disconnect,
    GetFiles,
    ReadFile { filename: String },
    WriteFile { filename: String, data: Vec<u8> },
    DeleteFile { filename: String },
    ForgetFile { filename: String },
    IsCloudEnabledForAccount,
    IsCloudEnabledForApp,
    SetCloudEnabledForApp { enabled: bool },
    SyncCloudFiles,
    Ping,
    Exit,
}

/// A reply of the Steam process.
#[derive(Debug, Clone, PartialEq, Eq)]
pub enum WorkerResponse {
    Success,
    Error { message: String },
    Connected { app_id: u32 },
    Files { files: Vec<WorkerCloudFile> },
    Quota { total: u64, available: u64 },
    FileData { data: Vec<u8> },
    Bool { value: bool },
    Pong,
}

/// A cloud file as the Steam process reports it (time in seconds since the
/// Unix epoch).
#[derive(Debug, Clone, PartialEq, Eq)]
pub struct WorkerCloudFile {
    pub name: String,
    pub size: u64,
    pub timestamp: i64,
    pub is_persisted: bool,
    pub exists: bool,
    pub root: u32,
    pub root_description: String,
}

impl WorkerCloudFile {
    /// The cloud file this report describes.
    pub fn into_cloud_file(self) -> (r: crate::steam_api::CloudFile)
        ensures
            r.name == self.name,
            r.size == self.size,
            r.timestamp == self.timestamp,
            r.is_persisted == self.is_persisted,
            r.exists == self.exists,
            r.root == self.root,
            r.root_description == self.root_description,
            !r.conflict,
    {
        crate::steam_api::CloudFile {
            name: self.name,
            size: self.size,
            timestamp: self.timestamp,
            is_persisted: self.is_persisted,
            exists: self.exists,
            root: self.root,
            root_description: self.root_description,
            conflict: false,
        }
    }
}

} // verus!

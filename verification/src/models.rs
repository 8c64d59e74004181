//! The records that the pipeline hands to its callers.

use vstd::prelude::*;

verus! {

/// What an archive says of itself: stored in every archive as the entry
/// `backup_meta.json`.
#[derive(Clone, Debug)]
pub struct BackupMetadata {
    pub version: String,
    pub device_id: String,
    pub device_name: String,
    /// Milliseconds since the Unix epoch.
    pub timestamp: i64,
    pub platform: String,
}

/// The mathematical value of a `BackupMetadata`.
pub struct MetadataView {
    pub version: Seq<char>,
    pub device_id: Seq<char>,
    pub device_name: Seq<char>,
    pub timestamp: int,
    pub platform: Seq<char>,
}

impl View for BackupMetadata {
    type V = MetadataView;

    open spec fn view(&self) -> MetadataView {
        MetadataView {
            version: self.version@,
            device_id: self.device_id@,
            device_name: self.device_name@,
            timestamp: self.timestamp as int,
            platform: self.platform@,
        }
    }
}

impl BackupMetadata {
    /// The metadata of a backup made now on the given device: the format
    /// version is `1.0.0`.
    pub fn new(device_id: String, device_name: String, timestamp: i64, platform: String) -> (m:
        BackupMetadata)
        ensures
            m@ == (MetadataView {
                version: "1.0.0"@,
                device_id: device_id@,
                device_name: device_name@,
                timestamp: timestamp as int,
                platform: platform@,
            }),
    {
        BackupMetadata {
            version: "1.0.0".to_owned(),
            device_id,
            device_name,
            timestamp,
            platform,
        }
    }

    /// The metadata of an export to a local file: the device is
    /// `local_export`, named `Local`.
    pub fn local_export(timestamp: i64, platform: String) -> (m: BackupMetadata)
        ensures
            m@ == (MetadataView {
                version: "1.0.0"@,
                device_id: "local_export"@,
                device_name: "Local"@,
                timestamp: timestamp as int,
                platform: platform@,
            }),
    {
        BackupMetadata::new("local_export".to_owned(), "Local".to_owned(), timestamp, platform)
    }
}

/// An archive that was fetched and not yet applied: where it lies, and what
/// it says of itself where that could be read.
#[derive(Clone, Debug)]
pub struct RestorePreview {
    pub temp_file_path: String,
    pub metadata: Option<BackupMetadata>,
}

/// The mathematical value of a `RestorePreview`.
pub struct PreviewView {
    pub temp_file_path: Seq<char>,
    pub metadata: Option<MetadataView>,
}

impl View for RestorePreview {
    type V = PreviewView;

    open spec fn view(&self) -> PreviewView {
        PreviewView {
            temp_file_path: self.temp_file_path@,
            metadata: match self.metadata {
                Some(m) => Some(m@),
                None => None,
            },
        }
    }
}

/// One backup on the server, as a listing shows it.
#[derive(Clone, Debug)]
pub struct CloudBackupFile {
    pub name: String,
    /// The date as the server gave it.
    pub date: String,
    /// The size in megabytes, with two decimals.
    pub size: String,
}

/// The mathematical value of a `CloudBackupFile`.
pub struct FileView {
    pub name: Seq<char>,
    pub date: Seq<char>,
    pub size: Seq<char>,
}

impl View for CloudBackupFile {
    type V = FileView;

    open spec fn view(&self) -> FileView {
        FileView { name: self.name@, date: self.date@, size: self.size@ }
    }
}

} // verus!

//! Plain data carriers of the storage and credentials surface: connection
//! settings, operation results, and the stored document shapes. The clients
//! that fill them live outside the library.

use vstd::prelude::*;
use crate::strings::concat2;

verus! {

/// Connection settings for the object store.
#[derive(Debug, Clone, PartialEq)]
pub struct R2Credentials {
    pub bucket_name: String,
    pub access_key: String,
    pub secret_key: String,
    pub endpoint: String,
}

/// Connection settings for the document store.
#[derive(Debug, Clone, PartialEq)]
pub struct MongoCredentials {
    pub uri: String,
}

/// The outcome of storing or deleting credentials.
#[derive(Debug, Clone, PartialEq)]
pub struct CredentialStoreResult {
    pub success: bool,
    pub message: Option<String>,
}

/// The outcome of an object-store connection test.
#[derive(Debug, Clone, PartialEq)]
pub struct R2ConnectionResult {
    pub success: bool,
    pub message: Option<String>,
}

/// The outcome of an object upload.
#[derive(Debug, Clone, PartialEq)]
pub struct R2UploadResult {
    pub success: bool,
    pub path: Option<String>,
    pub error: Option<String>,
}

/// The outcome of an object download.
#[derive(Debug, Clone, PartialEq)]
pub struct R2DownloadResult {
    pub success: bool,
    pub data: Option<Vec<u8>>,
    pub error: Option<String>,
}

/// The outcome of an object deletion.
#[derive(Debug, Clone, PartialEq)]
pub struct R2DeleteResult {
    pub success: bool,
    pub error: Option<String>,
}

/// An album document of the stored catalog.
#[derive(Debug, Clone, PartialEq)]
pub struct Album {
    pub name: String,
    pub track_ids: Vec<String>,
    pub art_path: Option<String>,
    pub release_date: Option<String>,
    pub publisher: Option<String>,
}

/// The stored object paths of one track.
#[derive(Debug, Clone, PartialEq)]
pub struct PathInfo {
    pub original: String,
    pub medium: String,
}

/// A track document of the stored catalog.
#[derive(Debug, Clone, PartialEq)]
pub struct Track {
    pub title: String,
    pub album_id: String,
    pub track_number: Option<i32>,
    pub filename: String,
    pub duration: i32,
    pub writers: Vec<String>,
    pub publishers: Vec<String>,
    pub composers: Option<Vec<String>>,
    pub genre: Option<String>,
    pub path: String,
    pub waveform_data: Option<Vec<i32>>,
}

/// The outcome of a document-store operation, with the touched document's id
/// and data where the operation yields them.
#[derive(Debug, Clone, PartialEq)]
pub struct DbResponse<T> {
    pub success: bool,
    pub message: Option<String>,
    pub id: Option<String>,
    pub data: Option<T>,
}

/// The outcome of clearing test data.
#[derive(Debug, Clone, PartialEq)]
pub struct ClearTestDataResponse {
    pub success: bool,
    pub message: String,
}

/// Errors of the credential storage surface.
#[derive(Debug, Clone, PartialEq)]
pub enum CredentialsError {
    Validation(String),
    FileSystem(String),
    Database(String),
    Storage(String),
    Configuration(String),
    NotFound(String),
    Unexpected(String),
    Keychain(String),
}

/// The human-readable rendering of a credentials error.
pub open spec fn credentials_error_text(e: CredentialsError) -> Seq<char> {
    match e {
        CredentialsError::Validation(s) => "Validation error: "@ + s@,
        CredentialsError::FileSystem(s) => "File system error: "@ + s@,
        CredentialsError::Database(s) => "Database error: "@ + s@,
        CredentialsError::Storage(s) => "Storage error: "@ + s@,
        CredentialsError::Configuration(s) => "Configuration error: "@ + s@,
        CredentialsError::NotFound(s) => "Not found: "@ + s@,
        CredentialsError::Unexpected(s) => "Unexpected error: "@ + s@,
        CredentialsError::Keychain(s) => "Keychain error: "@ + s@,
    }
}

impl CredentialsError {
    /// The human-readable rendering of this error.
    pub fn message(&self) -> (r: String)
        ensures
            r@ == credentials_error_text(*self),
    {
        match self {
            CredentialsError::Validation(s) => concat2("Validation error: ", s.as_str()),
            CredentialsError::FileSystem(s) => concat2("File system error: ", s.as_str()),
            CredentialsError::Database(s) => concat2("Database error: ", s.as_str()),
            CredentialsError::Storage(s) => concat2("Storage error: ", s.as_str()),
            CredentialsError::Configuration(s) => concat2("Configuration error: ", s.as_str()),
            CredentialsError::NotFound(s) => concat2("Not found: ", s.as_str()),
            CredentialsError::Unexpected(s) => concat2("Unexpected error: ", s.as_str()),
            CredentialsError::Keychain(s) => concat2("Keychain error: ", s.as_str()),
        }
    }
}

/// Errors of the catalog command surface.
#[derive(Debug, Clone, PartialEq)]
pub enum CommandError {
    Validation(String),
    Database(String),
    NotFound(String),
    Configuration(String),
}

/// The human-readable rendering of a command error.
pub open spec fn command_error_text(e: CommandError) -> Seq<char> {
    match e {
        CommandError::Validation(s) => "Validation Error: "@ + s@,
        CommandError::Database(s) => "Database Error: "@ + s@,
        CommandError::NotFound(s) => "Not Found Error: "@ + s@,
        CommandError::Configuration(s) => "Configuration Error: "@ + s@,
    }
}

impl CommandError {
    /// The human-readable rendering of this error.
    pub fn message(&self) -> (r: String)
        ensures
            r@ == command_error_text(*self),
    {
        match self {
            CommandError::Validation(s) => concat2("Validation Error: ", s.as_str()),
            CommandError::Database(s) => concat2("Database Error: ", s.as_str()),
            CommandError::NotFound(s) => concat2("Not Found Error: ", s.as_str()),
            CommandError::Configuration(s) => concat2("Configuration Error: ", s.as_str()),
        }
    }
}

/// The outcome of a bulk upload: which tracks went through and which failed.
#[derive(Debug, Clone, PartialEq)]
pub struct BulkUploadResponse {
    pub success: bool,
    pub message: Option<String>,
    pub uploaded_tracks: Vec<UploadedTrackInfo>,
    pub failed_tracks: Vec<FailedTrackInfo>,
}

/// One successfully uploaded track.
#[derive(Debug, Clone, PartialEq)]
pub struct UploadedTrackInfo {
    pub track_id: String,
    pub title: String,
    pub album_name: String,
    pub original_path: String,
    pub r2_path: String,
    pub medium_quality_path: Option<String>,
}

/// One failed track upload.
#[derive(Debug, Clone, PartialEq)]
pub struct FailedTrackInfo {
    pub original_path: String,
    pub error: String,
}

/// The object-store prefixes for the stored artifact kinds.
#[derive(Debug, Clone, PartialEq)]
pub struct UploadPathConfig {
    pub original_prefix: String,
    pub medium_prefix: String,
    pub album_art_prefix: String,
}

impl Default for UploadPathConfig {
    /// The default prefixes: `tracks/original`, `tracks/medium`,
    /// `albums/artwork`.
    fn default() -> (r: Self)
        ensures
            r.original_prefix@ == "tracks/original"@,
            r.medium_prefix@ == "tracks/medium"@,
            r.album_art_prefix@ == "albums/artwork"@,
    {
        UploadPathConfig {
            original_prefix: "tracks/original".to_owned(),
            medium_prefix: "tracks/medium".to_owned(),
            album_art_prefix: "albums/artwork".to_owned(),
        }
    }
}

} // verus!

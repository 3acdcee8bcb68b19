//! Error types of the ingestion core, with verified message rendering.

use vstd::prelude::*;
use crate::strings::{concat2, concat3, int_str, i32_to_string};

verus! {

/// Errors of the transcoding stage. I/O failures carry their message as
/// plain text.
#[derive(Debug, Clone, PartialEq)]
pub enum TranscodingError {
    FFmpegNotFound,
    InputFileNotFound(String),
    OutputDirectoryCreationFailed { path: String, source_message: String },
    ProcessStartFailed { source_message: String },
    ProcessExecutionFailed { status: Option<i32>, stderr: String },
    StderrReadFailed { source_message: String },
    IoError { source_message: String },
}

/// The rendering of an optional exit code: `None`, or `Some(` code `)`.
pub open spec fn exit_code_text(o: Option<i32>) -> Seq<char> {
    match o {
        None => "None"@,
        Some(n) => "Some("@ + int_str(n as int) + ")"@,
    }
}

/// The short rendering of a transcoding error: the failure kind and its
/// arguments, string arguments quoted.
pub open spec fn transcoding_error_text(e: TranscodingError) -> Seq<char> {
    match e {
        TranscodingError::FFmpegNotFound => "ToolNotFound"@,
        TranscodingError::InputFileNotFound(p) => "InputMissing(\""@ + p@ + "\")"@,
        TranscodingError::OutputDirectoryCreationFailed { path, source_message } =>
            "OutputDirCreate(\""@ + path@ + "\", \""@ + source_message@ + "\")"@,
        TranscodingError::ProcessStartFailed { source_message } => "SpawnFailed(\""@
            + source_message@ + "\")"@,
        TranscodingError::ProcessExecutionFailed { status, stderr } => "ExecFailed("@
            + exit_code_text(status) + ", \""@ + stderr@ + "\")"@,
        TranscodingError::StderrReadFailed { source_message } => "Io(\""@ + source_message@
            + "\")"@,
        TranscodingError::IoError { source_message } => "Io(\""@ + source_message@ + "\")"@,
    }
}

fn exit_code_string(o: &Option<i32>) -> (r: String)
    ensures
        r@ == exit_code_text(*o),
{
    match o {
        None => {
            let r = "None".to_owned();
            proof {
                assert(r@ =~= exit_code_text(None::<i32>));
            }
            r
        },
        Some(n) => {
            let digits = i32_to_string(*n);
            let r = concat3("Some(", digits.as_str(), ")");
            proof {
                assert(r@ =~= exit_code_text(Some(*n)));
            }
            r
        },
    }
}

impl TranscodingError {
    /// A directory for the transcoder output could not be created.
    pub fn output_dir_creation_failed(path: String, message: String) -> (r: Self)
        ensures
            r == (TranscodingError::OutputDirectoryCreationFailed {
                path,
                source_message: message,
            }),
    {
        TranscodingError::OutputDirectoryCreationFailed { path, source_message: message }
    }

    /// The transcoder process could not be started.
    pub fn process_start_failed(message: String) -> (r: Self)
        ensures
            r == (TranscodingError::ProcessStartFailed { source_message: message }),
    {
        TranscodingError::ProcessStartFailed { source_message: message }
    }

    /// The transcoder's standard error could not be read.
    pub fn stderr_read_failed(message: String) -> (r: Self)
        ensures
            r == (TranscodingError::StderrReadFailed { source_message: message }),
    {
        TranscodingError::StderrReadFailed { source_message: message }
    }

    /// The short rendering of this error.
    pub fn message(&self) -> (r: String)
        ensures
            r@ == transcoding_error_text(*self),
    {
        match self {
            TranscodingError::FFmpegNotFound => {
                let r = "ToolNotFound".to_owned();
                proof {
                    assert(r@ =~= transcoding_error_text(*self));
                }
                r
            },
            TranscodingError::InputFileNotFound(p) => {
                let r = concat3("InputMissing(\"", p.as_str(), "\")");
                proof {
                    assert(r@ =~= transcoding_error_text(*self));
                }
                r
            },
            TranscodingError::OutputDirectoryCreationFailed { path, source_message } => {
                let head = concat3("OutputDirCreate(\"", path.as_str(), "\", \"");
                let r = concat3(head.as_str(), source_message.as_str(), "\")");
                proof {
                    assert(r@ =~= transcoding_error_text(*self));
                }
                r
            },
            TranscodingError::ProcessStartFailed { source_message } => {
                let r = concat3("SpawnFailed(\"", source_message.as_str(), "\")");
                proof {
                    assert(r@ =~= transcoding_error_text(*self));
                }
                r
            },
            TranscodingError::ProcessExecutionFailed { status, stderr } => {
                let code = exit_code_string(status);
                let head = concat3("ExecFailed(", code.as_str(), ", \"");
                let r = concat3(head.as_str(), stderr.as_str(), "\")");
                proof {
                    assert(r@ =~= transcoding_error_text(*self));
                }
                r
            },
            TranscodingError::StderrReadFailed { source_message } => {
                let r = concat3("Io(\"", source_message.as_str(), "\")");
                proof {
                    assert(r@ =~= transcoding_error_text(*self));
                }
                r
            },
            TranscodingError::IoError { source_message } => {
                let r = concat3("Io(\"", source_message.as_str(), "\")");
                proof {
                    assert(r@ =~= transcoding_error_text(*self));
                }
                r
            },
        }
    }
}

/// Errors of the upload pipeline as a whole. Admission-time errors are
/// returned to the caller; per-item errors become `Error` progress events.
#[derive(Debug, Clone, PartialEq)]
pub enum UploadError {
    R2ClientNotInitialized,
    MongoDbClientNotInitialized,
    CredentialsError(String),
    IoError(String),
    TranscodingError(TranscodingError),
    R2UploadError(String),
    MongoDbError(String),
    InvalidInput(String),
    Cancelled,
    InternalError(String),
}

/// The human-readable rendering of an upload error.
pub open spec fn upload_error_text(e: UploadError) -> Seq<char> {
    match e {
        UploadError::R2ClientNotInitialized => "R2 client not initialized. Configure credentials."@,
        UploadError::MongoDbClientNotInitialized =>
            "MongoDB client not initialized. Configure credentials."@,
        UploadError::CredentialsError(s) => "Failed to get R2 credentials: "@ + s@,
        UploadError::IoError(s) => "Filesystem error: "@ + s@,
        UploadError::TranscodingError(t) => "Transcoding failed: "@ + transcoding_error_text(t),
        UploadError::R2UploadError(s) => "R2 upload failed: "@ + s@,
        UploadError::MongoDbError(s) => "MongoDB operation failed: "@ + s@,
        UploadError::InvalidInput(s) => "Invalid input: "@ + s@,
        UploadError::Cancelled => "Operation cancelled"@,
        UploadError::InternalError(s) => "Internal error: "@ + s@,
    }
}

impl UploadError {
    /// The human-readable rendering of this error.
    pub fn message(&self) -> (r: String)
        ensures
            r@ == upload_error_text(*self),
    {
        match self {
            UploadError::R2ClientNotInitialized => "R2 client not initialized. Configure credentials.".to_owned(),
            UploadError::MongoDbClientNotInitialized => "MongoDB client not initialized. Configure credentials.".to_owned(),
            UploadError::CredentialsError(s) => concat2("Failed to get R2 credentials: ", s.as_str()),
            UploadError::IoError(s) => concat2("Filesystem error: ", s.as_str()),
            UploadError::TranscodingError(t) => {
                let m = t.message();
                concat2("Transcoding failed: ", m.as_str())
            },
            UploadError::R2UploadError(s) => concat2("R2 upload failed: ", s.as_str()),
            UploadError::MongoDbError(s) => concat2("MongoDB operation failed: ", s.as_str()),
            UploadError::InvalidInput(s) => concat2("Invalid input: ", s.as_str()),
            UploadError::Cancelled => "Operation cancelled".to_owned(),
            UploadError::InternalError(s) => concat2("Internal error: ", s.as_str()),
        }
    }
}

} // verus!

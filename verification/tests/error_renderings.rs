use ingest_core::error::{TranscodingError, UploadError};
use ingest_core::model::{CommandError, CredentialsError};

#[test]
fn transcoding_error_messages() {
    assert_eq!(TranscodingError::FFmpegNotFound.message(), "ToolNotFound");
    assert_eq!(
        TranscodingError::InputFileNotFound("/a/b.wav".to_string()).message(),
        "InputMissing(\"/a/b.wav\")"
    );
    assert_eq!(
        TranscodingError::output_dir_creation_failed("/out".to_string(), "full".to_string())
            .message(),
        "OutputDirCreate(\"/out\", \"full\")"
    );
    assert_eq!(
        TranscodingError::process_start_failed("no exec".to_string()).message(),
        "SpawnFailed(\"no exec\")"
    );
    assert_eq!(
        TranscodingError::ProcessExecutionFailed { status: Some(-11), stderr: "sig".to_string() }
            .message(),
        "ExecFailed(Some(-11), \"sig\")"
    );
    assert_eq!(
        TranscodingError::ProcessExecutionFailed { status: None, stderr: "gone".to_string() }
            .message(),
        "ExecFailed(None, \"gone\")"
    );
    assert_eq!(
        TranscodingError::stderr_read_failed("pipe".to_string()).message(),
        "Io(\"pipe\")"
    );
    assert_eq!(
        TranscodingError::IoError { source_message: "disk".to_string() }.message(),
        "Io(\"disk\")"
    );
}

#[test]
fn upload_error_messages() {
    assert_eq!(
        UploadError::CredentialsError("locked".to_string()).message(),
        "Failed to get R2 credentials: locked"
    );
    assert_eq!(
        UploadError::IoError("enospc".to_string()).message(),
        "Filesystem error: enospc"
    );
    assert_eq!(
        UploadError::TranscodingError(TranscodingError::FFmpegNotFound).message(),
        "Transcoding failed: ToolNotFound"
    );
    assert_eq!(
        UploadError::R2UploadError("403".to_string()).message(),
        "R2 upload failed: 403"
    );
    assert_eq!(
        UploadError::MongoDbError("down".to_string()).message(),
        "MongoDB operation failed: down"
    );
    assert_eq!(
        UploadError::InvalidInput("empty".to_string()).message(),
        "Invalid input: empty"
    );
    assert_eq!(UploadError::Cancelled.message(), "Operation cancelled");
    assert_eq!(
        UploadError::InternalError("bug".to_string()).message(),
        "Internal error: bug"
    );
}

#[test]
fn command_and_credentials_error_messages() {
    assert_eq!(
        CommandError::Validation("bad id".to_string()).message(),
        "Validation Error: bad id"
    );
    assert_eq!(
        CommandError::Database("down".to_string()).message(),
        "Database Error: down"
    );
    assert_eq!(
        CommandError::NotFound("t1".to_string()).message(),
        "Not Found Error: t1"
    );
    assert_eq!(
        CommandError::Configuration("no uri".to_string()).message(),
        "Configuration Error: no uri"
    );
    assert_eq!(
        CredentialsError::Validation("short".to_string()).message(),
        "Validation error: short"
    );
    assert_eq!(
        CredentialsError::Keychain("denied".to_string()).message(),
        "Keychain error: denied"
    );
    assert_eq!(
        CredentialsError::NotFound("r2".to_string()).message(),
        "Not found: r2"
    );
}

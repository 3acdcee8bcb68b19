use ingest_core::paths::{
    aac_key_string, artwork_key_string, basename_string, extension_string, file_stem_string,
    original_key_string, sanitized_basename_string,
};
use ingest_core::transcoding::{check_format, medium_output_name_string, lowercase_ascii,
    TranscodingError, TranscodingOptions};
use ingest_core::metadata::UploadItemMetadata;
use ingest_core::strings::{concat2, concat3, u32_to_string, i32_to_string};
use ingest_core::mime::guess_mime_type;
use ingest_core::model::UploadPathConfig;

#[test]
fn basename_stem_extension() {
    assert_eq!(basename_string("/tmp/in/Track A.wav"), "Track A.wav");
    assert_eq!(basename_string("Track A.wav"), "Track A.wav");
    assert_eq!(basename_string("C:\\music\\Track A.wav"), "Track A.wav");
    assert_eq!(basename_string("/tmp/in/"), "");
    assert_eq!(file_stem_string("/tmp/in/Track A.wav"), "Track A");
    assert_eq!(file_stem_string("/tmp/in/archive.tar.gz"), "archive.tar");
    assert_eq!(file_stem_string("/tmp/in/noext"), "noext");
    assert_eq!(file_stem_string("/tmp/in/.bashrc"), ".bashrc");
    assert_eq!(extension_string("/tmp/in/Track A.wav"), "wav");
    assert_eq!(extension_string("/tmp/in/archive.tar.gz"), "gz");
    assert_eq!(extension_string("/tmp/in/noext"), "");
    assert_eq!(extension_string("/tmp/in/.bashrc"), "");
}

#[test]
fn sanitization_and_keys() {
    assert_eq!(sanitized_basename_string("/tmp/in/Track A.wav"), "Track_A.wav");
    assert_eq!(sanitized_basename_string("/tmp/a.b c.wav"), "a_b_c.wav");
    assert_eq!(sanitized_basename_string("/tmp/in/noext with space"), "noext_with_space");
    assert_eq!(sanitized_basename_string("/tmp/in/tab\there.mp3"), "tab_here.mp3");
    assert_eq!(original_key_string("/tmp/in/Track A.wav"), "tracks/original/Track_A.wav");
    assert_eq!(aac_key_string("/tmp/tx/part1.m4a"), "tracks/aac/part1.m4a");
    assert_eq!(aac_key_string("/tmp/tx/my song.m4a"), "tracks/aac/my_song.m4a");
}

#[test]
fn format_check() {
    assert!(check_format("mp3").is_ok());
    assert!(check_format("FLAC").is_ok());
    assert!(check_format("Wav").is_ok());
    assert!(check_format("aac").is_ok());
    assert!(check_format("m4a").is_ok());
    assert!(check_format("ogg").is_ok());
    let e = check_format("opus").unwrap_err();
    match e {
        TranscodingError::InvalidFormat(m) => assert_eq!(m, "Unsupported format: opus"),
        other => panic!("expected invalid format, got {:?}", other),
    }
    assert_eq!(lowercase_ascii("FfMpEg-4"), "ffmpeg-4");
}

#[test]
fn medium_output_names() {
    assert_eq!(
        medium_output_name_string("/x/My Song.wav", "mp3"),
        "My_Song_medium.mp3"
    );
    assert_eq!(medium_output_name_string("plain", "ogg"), "plain_medium.ogg");
}

#[test]
fn metadata_defaults() {
    let m = UploadItemMetadata {
        title: None,
        artist: None,
        album: None,
        track_number: None,
        duration_sec: None,
        genre: None,
        composer: None,
        year: None,
        comments: None,
    };
    assert_eq!(m.title_for("/tmp/in/Track A.wav"), "Track A");
    assert_eq!(m.artist_name(), "Unknown Artist");
    assert_eq!(m.album_name(), "Unknown Album");
    assert_eq!(m.genre_list(), Vec::<String>::new());

    let m2 = UploadItemMetadata {
        title: Some("Named".to_string()),
        artist: Some("Artist".to_string()),
        album: Some("Album".to_string()),
        genre: Some("Jazz".to_string()),
        ..m
    };
    assert_eq!(m2.title_for("/tmp/in/Track A.wav"), "Named");
    assert_eq!(m2.artist_name(), "Artist");
    assert_eq!(m2.album_name(), "Album");
    assert_eq!(m2.genre_list(), vec!["Jazz".to_string()]);
}

#[test]
fn string_helpers() {
    assert_eq!(concat2("ab", "cd"), "abcd");
    assert_eq!(concat3("a", "b", "c"), "abc");
    assert_eq!(u32_to_string(0), "0");
    assert_eq!(u32_to_string(907), "907");
    assert_eq!(u32_to_string(4294967295), "4294967295");
    assert_eq!(i32_to_string(0), "0");
    assert_eq!(i32_to_string(-1), "-1");
    assert_eq!(i32_to_string(2147483647), "2147483647");
    assert_eq!(i32_to_string(-2147483648), "-2147483648");
}

#[test]
fn mime_detection_by_extension() {
    // Real table lookups: these fail if the guess were the path itself.
    assert_eq!(guess_mime_type("/tmp/in/song.mp3"), "audio/mpeg");
    assert_eq!(guess_mime_type("/tmp/in/song.wav"), "audio/wav");
    assert_eq!(guess_mime_type("/tmp/tx/part.m4a"), "audio/m4a");
    assert_eq!(guess_mime_type("/tmp/in/unknown.zzz"), "application/octet-stream");
    assert_eq!(guess_mime_type("/tmp/in/noext"), "application/octet-stream");
}

#[test]
fn option_and_config_defaults() {
    let o = TranscodingOptions::default();
    assert_eq!(o.medium_bitrate, 128);
    assert_eq!(o.format, "mp3");
    assert_eq!(o.output_dir, "transcoded");
    let c = UploadPathConfig::default();
    assert_eq!(c.original_prefix, "tracks/original");
    assert_eq!(c.medium_prefix, "tracks/medium");
    assert_eq!(c.album_art_prefix, "albums/artwork");
}

#[test]
fn artwork_keys() {
    assert_eq!(
        artwork_key_string("album-1", "/tmp/cover.png"),
        "albums/artwork/album-1.png"
    );
    assert_eq!(
        artwork_key_string("album-2", "/tmp/cover"),
        "albums/artwork/album-2.jpg"
    );
}

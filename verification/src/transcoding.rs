//! Transcoding configuration: options, result reporting, format checking and
//! output-name derivation. The transcoder process itself runs outside the
//! library; these are the parts of its contract that are plain computation.

use vstd::prelude::*;
use vstd::string::StrSliceExecFns;
use crate::strings::{chars_vec, string_from_chars, concat2};
use crate::paths::{basename_of, stem_of, sanitize_seq};
use crate::paths::file_stem_string;

verus! {

/// Errors of the batch transcoding surface. I/O failures carry their
/// message as plain text.
#[derive(Debug, Clone, PartialEq)]
pub enum TranscodingError {
    FFmpegError(String),
    InputFileError(String),
    OutputFileError(String),
    InvalidFormat(String),
    IoError(String),
    Other(String),
}

/// Options for batch transcoding: target bitrate in kbps, output format and
/// output directory.
#[derive(Debug, Clone, PartialEq)]
pub struct TranscodingOptions {
    pub medium_bitrate: u32,
    pub format: String,
    pub output_dir: String,
}

impl Default for TranscodingOptions {
    /// The default options: 128 kbps, `mp3`, directory `transcoded`.
    fn default() -> (r: Self)
        ensures
            r.medium_bitrate == 128,
            r.format@ == "mp3"@,
            r.output_dir@ == "transcoded"@,
    {
        TranscodingOptions {
            medium_bitrate: 128,
            format: "mp3".to_owned(),
            output_dir: "transcoded".to_owned(),
        }
    }
}

/// The outcome of transcoding one file.
#[derive(Debug, Clone, PartialEq)]
pub struct TranscodingResult {
    pub success: bool,
    pub input_path: String,
    pub medium_quality_path: Option<String>,
    pub error_message: Option<String>,
}

/// An ASCII letter lowered; every other character unchanged.
pub open spec fn lower_char(c: char) -> char {
    if c == 'A' {
        'a'
    } else if c == 'B' {
        'b'
    } else if c == 'C' {
        'c'
    } else if c == 'D' {
        'd'
    } else if c == 'E' {
        'e'
    } else if c == 'F' {
        'f'
    } else if c == 'G' {
        'g'
    } else if c == 'H' {
        'h'
    } else if c == 'I' {
        'i'
    } else if c == 'J' {
        'j'
    } else if c == 'K' {
        'k'
    } else if c == 'L' {
        'l'
    } else if c == 'M' {
        'm'
    } else if c == 'N' {
        'n'
    } else if c == 'O' {
        'o'
    } else if c == 'P' {
        'p'
    } else if c == 'Q' {
        'q'
    } else if c == 'R' {
        'r'
    } else if c == 'S' {
        's'
    } else if c == 'T' {
        't'
    } else if c == 'U' {
        'u'
    } else if c == 'V' {
        'v'
    } else if c == 'W' {
        'w'
    } else if c == 'X' {
        'x'
    } else if c == 'Y' {
        'y'
    } else if c == 'Z' {
        'z'
    } else {
        c
    }
}

/// Character-wise ASCII lowering of a string.
pub open spec fn lower_seq(s: Seq<char>) -> Seq<char> {
    s.map_values(|c: char| lower_char(c))
}

fn lower_char_exec(c: char) -> (r: char)
    ensures
        r == lower_char(c),
{
    let n = c as u32;
    if 65 <= n && n <= 90 {
        match c {
            'A' => 'a',
            'B' => 'b',
            'C' => 'c',
            'D' => 'd',
            'E' => 'e',
            'F' => 'f',
            'G' => 'g',
            'H' => 'h',
            'I' => 'i',
            'J' => 'j',
            'K' => 'k',
            'L' => 'l',
            'M' => 'm',
            'N' => 'n',
            'O' => 'o',
            'P' => 'p',
            'Q' => 'q',
            'R' => 'r',
            'S' => 's',
            'T' => 't',
            'U' => 'u',
            'V' => 'v',
            'W' => 'w',
            'X' => 'x',
            'Y' => 'y',
            _ => 'z',
        }
    } else {
        c
    }
}

/// The ASCII-lowered form of a string.
pub fn lowercase_ascii(s: &str) -> (r: String)
    ensures
        r@ == lower_seq(s@),
{
    let v = chars_vec(s);
    let n = v.len();
    let mut w: Vec<char> = Vec::new();
    let mut i: usize = 0;
    while i < n
        invariant
            n == v@.len(),
            v@ == s@,
            i <= n,
            w@ == lower_seq(s@).take(i as int),
        decreases n - i,
    {
        w.push(lower_char_exec(v[i]));
        i = i + 1;
        proof {
            assert(lower_seq(s@).take(i as int) =~= lower_seq(s@).take(i - 1).push(
                lower_char(s@[i - 1])));
        }
    }
    proof {
        assert(w@ =~= lower_seq(s@));
    }
    string_from_chars(&w)
}

/// A format the transcoder accepts, compared case-insensitively.
pub open spec fn is_supported_format(f: Seq<char>) -> bool {
    ||| lower_seq(f) == "mp3"@
    ||| lower_seq(f) == "aac"@
    ||| lower_seq(f) == "m4a"@
    ||| lower_seq(f) == "ogg"@
    ||| lower_seq(f) == "flac"@
    ||| lower_seq(f) == "wav"@
}

/// Check whether the requested output format is one the transcoder
/// supports: `mp3`, `aac`, `m4a`, `ogg`, `flac` or `wav`, in any case.
pub fn check_format(format: &str) -> (r: Result<(), TranscodingError>)
    ensures
        r is Ok <==> is_supported_format(format@),
        r matches Err(e) ==> e matches TranscodingError::InvalidFormat(m) && m@
            == "Unsupported format: "@ + format@,
{
    let lower = lowercase_ascii(format);
    if lower == "mp3".to_owned() || lower == "aac".to_owned() || lower == "m4a".to_owned()
        || lower == "ogg".to_owned() || lower == "flac".to_owned() || lower == "wav".to_owned() {
        Ok(())
    } else {
        Err(TranscodingError::InvalidFormat(concat2("Unsupported format: ", format)))
    }
}

/// The output file name of a medium-quality transcode: the sanitized stem of
/// the input, the suffix `_medium`, and the requested format as extension.
pub open spec fn medium_output_name(path: Seq<char>, format: Seq<char>) -> Seq<char> {
    sanitize_seq(stem_of(basename_of(path))) + "_medium."@ + format
}

/// Derive the output file name for a medium-quality transcode of `path`.
pub fn medium_output_name_string(path: &str, format: &str) -> (r: String)
    ensures
        r@ == medium_output_name(path@, format@),
{
    let stem = file_stem_string(path);
    let n = stem.unicode_len();
    let v = chars_vec(stem.as_str());
    let mut w: Vec<char> = Vec::new();
    let mut i: usize = 0;
    while i < n
        invariant
            n == v@.len(),
            v@ == stem@,
            i <= n,
            w@ == sanitize_seq(stem@).take(i as int),
        decreases n - i,
    {
        w.push(crate::paths::sanitize_char_exec(v[i]));
        i = i + 1;
        proof {
            assert(sanitize_seq(stem@).take(i as int) =~= sanitize_seq(stem@).take(i - 1).push(
                crate::paths::sanitize_char(stem@[i - 1])));
        }
    }
    proof {
        assert(w@ =~= sanitize_seq(stem@));
    }
    let sanitized = string_from_chars(&w);
    let head = concat2(sanitized.as_str(), "_medium.");
    concat2(head.as_str(), format)
}

} // verus!

//! Path-string logic: base names, stems, extensions, sanitization and
//! object-store key derivation.
//!
//! Paths are treated as plain character strings; `/` and `\` are the
//! separators. Keys are derived from the base name: whitespace, dots,
//! separators and control characters in the stem are replaced by `_`, the
//! extension is kept intact.

use vstd::prelude::*;
use crate::strings::{chars_vec, string_from_chars, concat2};

verus! {

/// A path separator character.
pub open spec fn is_sep(c: char) -> bool {
    c == '/' || c == '\\'
}

/// A character that sanitization replaces by `_`: whitespace, a dot, a
/// separator, or a control character.
pub open spec fn is_replaced(c: char) -> bool {
    c == ' ' || c == '.' || is_sep(c) || (c as u32) < 32 || (c as u32) == 127
}

/// One sanitized character.
pub open spec fn sanitize_char(c: char) -> char {
    if is_replaced(c) {
        '_'
    } else {
        c
    }
}

/// Character-wise sanitization of a name.
pub open spec fn sanitize_seq(s: Seq<char>) -> Seq<char> {
    s.map_values(|c: char| sanitize_char(c))
}

/// The part of a path after its last separator (the whole path if it has
/// none).
pub open spec fn basename_of(p: Seq<char>) -> Seq<char>
    decreases p.len(),
{
    if p.len() == 0 {
        Seq::empty()
    } else if is_sep(p.last()) {
        Seq::empty()
    } else {
        basename_of(p.drop_last()).push(p.last())
    }
}

/// The index of the last dot of `b` that is not its first character, if any.
/// A name whose only dot is its leading character has no extension.
pub open spec fn last_dot(b: Seq<char>) -> Option<int> {
    if exists|j: int| 0 < j < b.len() && b[j] == '.' {
        Some(choose|j: int| 0 < j < b.len() && b[j] == '.' && (forall|i: int|
            j < i < b.len() ==> b[i] != '.'))
    } else {
        None
    }
}

/// The stem of a base name: everything before the last dot, or the whole
/// name if it has no extension.
pub open spec fn stem_of(b: Seq<char>) -> Seq<char> {
    match last_dot(b) {
        Some(j) => b.take(j),
        None => b,
    }
}

/// The extension of a base name: everything after the last dot, or empty.
pub open spec fn ext_of(b: Seq<char>) -> Seq<char> {
    match last_dot(b) {
        Some(j) => b.subrange(j + 1, b.len() as int),
        None => Seq::empty(),
    }
}

/// A sanitized base name: the stem sanitized, the extension kept.
pub open spec fn sanitized_name(b: Seq<char>) -> Seq<char> {
    match last_dot(b) {
        Some(j) => sanitize_seq(b.take(j)) + b.subrange(j, b.len() as int),
        None => sanitize_seq(b),
    }
}

/// The object-store key of an original upload: prefix `tracks/original/`
/// plus the sanitized base name of the input path.
pub open spec fn original_key(path: Seq<char>) -> Seq<char> {
    "tracks/original/"@ + sanitized_name(basename_of(path))
}

/// The object-store key of a transcoded upload: prefix `tracks/aac/` plus
/// the sanitized base name of the temporary file path.
pub open spec fn aac_key(temp_path: Seq<char>) -> Seq<char> {
    "tracks/aac/"@ + sanitized_name(basename_of(temp_path))
}

/// The extension an artwork key uses: the image's own, or `jpg` when the
/// image path has none.
pub open spec fn artwork_ext(image_path: Seq<char>) -> Seq<char> {
    if ext_of(basename_of(image_path)).len() == 0 {
        "jpg"@
    } else {
        ext_of(basename_of(image_path))
    }
}

/// The object-store key of an album's artwork: prefix `albums/artwork/`,
/// the album id, a dot, and the image's extension (`jpg` when it has none).
pub open spec fn artwork_key(album_id: Seq<char>, image_path: Seq<char>) -> Seq<char> {
    "albums/artwork/"@ + album_id + "."@ + artwork_ext(image_path)
}

fn is_sep_exec(c: char) -> (r: bool)
    ensures
        r == is_sep(c),
{
    c == '/' || c == '\\'
}

/// One sanitized character.
pub fn sanitize_char_exec(c: char) -> (r: char)
    ensures
        r == sanitize_char(c),
{
    let n = c as u32;
    if c == ' ' || c == '.' || c == '/' || c == '\\' || n < 32 || n == 127 {
        '_'
    } else {
        c
    }
}

/// If no separator occurs at or after position `k`, and `k` is either the
/// start of the path or just after a separator, the base name is the suffix
/// that starts at `k`.
proof fn lemma_basename_suffix(p: Seq<char>, k: int)
    requires
        0 <= k <= p.len(),
        forall|i: int| k <= i < p.len() ==> !is_sep(p[i]),
        k == 0 || is_sep(p[k - 1]),
    ensures
        basename_of(p) == p.subrange(k, p.len() as int),
    decreases p.len(),
{
    if p.len() == 0 {
        assert(basename_of(p) =~= p.subrange(0, 0));
    } else if k == p.len() {
        assert(is_sep(p.last()));
        assert(basename_of(p) =~= p.subrange(k, p.len() as int));
    } else {
        assert(!is_sep(p.last()));
        lemma_basename_suffix(p.drop_last(), k);
        assert(p.drop_last().subrange(k, p.len() - 1) =~= p.subrange(k, p.len() - 1));
        assert(p.subrange(k, p.len() as int) =~= p.subrange(k, p.len() - 1).push(p.last()));
    }
}

/// The base name of a path, as a character vector.
fn basename_chars(p: &Vec<char>) -> (r: Vec<char>)
    ensures
        r@ == basename_of(p@),
{
    let n = p.len();
    let mut k: usize = 0;
    let mut i: usize = 0;
    while i < n
        invariant
            n == p@.len(),
            i <= n,
            k <= i,
            k == 0 || is_sep(p@[k - 1]),
            forall|j: int| k <= j < i ==> !is_sep(p@[j]),
        decreases n - i,
    {
        if is_sep_exec(p[i]) {
            k = i + 1;
        }
        i = i + 1;
    }
    let mut r: Vec<char> = Vec::new();
    let mut j: usize = k;
    while j < n
        invariant
            n == p@.len(),
            k <= j <= n,
            r@ == p@.subrange(k as int, j as int),
        decreases n - j,
    {
        r.push(p[j]);
        j = j + 1;
        proof {
            assert(p@.subrange(k as int, j as int) =~= p@.subrange(k as int, j - 1).push(
                p@[j - 1]));
        }
    }
    proof {
        lemma_basename_suffix(p@, k as int);
    }
    r
}

/// The index of the last dot of `b` after position zero, as `last_dot`
/// describes it.
fn find_last_dot(b: &Vec<char>) -> (r: Option<usize>)
    ensures
        match r {
            Some(j) => 0 < j < b@.len() && b@[j as int] == '.' && last_dot(b@) == Some(
                j as int,
            ),
            None => last_dot(b@) is None,
        },
{
    let n = b.len();
    let mut found: Option<usize> = None;
    let mut i: usize = 0;
    while i < n
        invariant
            n == b@.len(),
            i <= n,
            match found {
                Some(j) => 0 < j < i && b@[j as int] == '.' && forall|t: int|
                    j < t < i ==> b@[t] != '.',
                None => forall|t: int| 0 < t < i ==> b@[t] != '.',
            },
        decreases n - i,
    {
        if i > 0 && b[i] == '.' {
            found = Some(i);
        }
        i = i + 1;
    }
    proof {
        match found {
            Some(j) => {
                assert(0 < j < b@.len() && b@[j as int] == '.');
                let w = choose|t: int| 0 < t < b@.len() && b@[t] == '.' && (forall|s: int|
                    t < s < b@.len() ==> b@[s] != '.');
                assert(w == j as int);
            },
            None => {
                assert(forall|t: int| 0 < t < b@.len() ==> b@[t] != '.');
            },
        }
    }
    found
}

/// The sanitized form of a base name: the stem sanitized character by
/// character, the extension (and its dot) kept.
fn sanitize_name_chars(b: &Vec<char>) -> (r: Vec<char>)
    ensures
        r@ == sanitized_name(b@),
{
    let n = b.len();
    let cut: usize = match find_last_dot(b) {
        Some(j) => j,
        None => n,
    };
    let mut r: Vec<char> = Vec::new();
    let mut i: usize = 0;
    while i < cut
        invariant
            cut <= n,
            n == b@.len(),
            i <= cut,
            r@ == sanitize_seq(b@.take(cut as int)).take(i as int),
        decreases cut - i,
    {
        r.push(sanitize_char_exec(b[i]));
        i = i + 1;
        proof {
            assert(sanitize_seq(b@.take(cut as int)).take(i as int) =~= sanitize_seq(
                b@.take(cut as int)).take(i - 1).push(sanitize_char(b@[i - 1])));
        }
    }
    proof {
        assert(r@ =~= sanitize_seq(b@.take(cut as int)));
    }
    let mut j: usize = cut;
    while j < n
        invariant
            cut <= j <= n,
            n == b@.len(),
            r@ == sanitize_seq(b@.take(cut as int)) + b@.subrange(cut as int, j as int),
        decreases n - j,
    {
        r.push(b[j]);
        j = j + 1;
        proof {
            assert(sanitize_seq(b@.take(cut as int)) + b@.subrange(cut as int, j as int) =~= (
            sanitize_seq(b@.take(cut as int)) + b@.subrange(cut as int, j - 1)).push(
                b@[j - 1]));
        }
    }
    proof {
        if cut < n {
            assert(sanitized_name(b@) == sanitize_seq(b@.take(cut as int)) + b@.subrange(
                cut as int, n as int));
        } else {
            assert(b@.take(n as int) =~= b@);
            assert(b@.subrange(n as int, n as int) =~= Seq::<char>::empty());
            assert(r@ =~= sanitize_seq(b@));
        }
    }
    r
}

/// The base name of a path.
pub fn basename_string(path: &str) -> (r: String)
    ensures
        r@ == basename_of(path@),
{
    let p = chars_vec(path);
    let b = basename_chars(&p);
    string_from_chars(&b)
}

/// The stem of a path's base name; the default title of a track.
pub fn file_stem_string(path: &str) -> (r: String)
    ensures
        r@ == stem_of(basename_of(path@)),
{
    let p = chars_vec(path);
    let b = basename_chars(&p);
    let r = match find_last_dot(&b) {
        Some(j) => {
            let mut v: Vec<char> = Vec::new();
            let mut i: usize = 0;
            while i < j
                invariant
                    j < b@.len(),
                    i <= j,
                    v@ == b@.take(j as int).take(i as int),
                decreases j - i,
            {
                v.push(b[i]);
                i = i + 1;
                proof {
                    assert(b@.take(j as int).take(i as int) =~= b@.take(j as int).take(i - 1).push(
                        b@[i - 1]));
                }
            }
            proof {
                assert(v@ =~= b@.take(j as int));
            }
            v
        },
        None => b,
    };
    string_from_chars(&r)
}

/// The extension of a path's base name, or the empty string.
pub fn extension_string(path: &str) -> (r: String)
    ensures
        r@ == ext_of(basename_of(path@)),
{
    let p = chars_vec(path);
    let b = basename_chars(&p);
    let n = b.len();
    let r = match find_last_dot(&b) {
        Some(j) => {
            let mut v: Vec<char> = Vec::new();
            let mut i: usize = j + 1;
            while i < n
                invariant
                    j < n,
                    n == b@.len(),
                    j + 1 <= i <= n,
                    v@ == b@.subrange(j + 1, i as int),
                decreases n - i,
            {
                v.push(b[i]);
                i = i + 1;
                proof {
                    assert(b@.subrange(j + 1, i as int) =~= b@.subrange(j + 1, i - 1).push(
                        b@[i - 1]));
                }
            }
            v
        },
        None => Vec::new(),
    };
    proof {
        if last_dot(b@) is None {
            assert(r@ =~= ext_of(b@));
        }
    }
    string_from_chars(&r)
}

/// The sanitized base name of a path.
pub fn sanitized_basename_string(path: &str) -> (r: String)
    ensures
        r@ == sanitized_name(basename_of(path@)),
{
    let p = chars_vec(path);
    let b = basename_chars(&p);
    let s = sanitize_name_chars(&b);
    string_from_chars(&s)
}

/// The object-store key of the original upload of `path`.
pub fn original_key_string(path: &str) -> (r: String)
    ensures
        r@ == original_key(path@),
{
    let name = sanitized_basename_string(path);
    concat2("tracks/original/", name.as_str())
}

/// The object-store key of the transcoded upload held at `temp_path`.
pub fn aac_key_string(temp_path: &str) -> (r: String)
    ensures
        r@ == aac_key(temp_path@),
{
    let name = sanitized_basename_string(temp_path);
    concat2("tracks/aac/", name.as_str())
}

/// The object-store key of the artwork of album `album_id`, stored from the
/// image at `image_path`.
pub fn artwork_key_string(album_id: &str, image_path: &str) -> (r: String)
    ensures
        r@ == artwork_key(album_id@, image_path@),
{
    let ext = extension_string(image_path);
    let ext = if ext.as_str().is_empty() {
        "jpg".to_owned()
    } else {
        ext
    };
    let head = concat2("albums/artwork/", album_id);
    let head = concat2(head.as_str(), ".");
    concat2(head.as_str(), ext.as_str())
}

} // verus!

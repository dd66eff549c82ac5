//! The decompression front-end's dispatch: which decoder, if any, an image needs,
//! chosen once from its file name.
use vstd::prelude::*;
use vstd::string::*;

use crate::text::{last_index_of, rfind_char, same_text};

verus! {

/// The encodings an image file may come in.
#[derive(Debug, Clone, Copy, PartialEq, Eq, Structural)]
pub enum ImageFormat {
    /// Raw bytes, used as they are.
    Plain,
    Gzip,
    Xz,
    Zstd,
}

impl ImageFormat {
    /// Whether the image must be decoded to a scratch file before it is written.
    pub fn is_compressed(&self) -> (r: bool)
        ensures
            r == (*self != ImageFormat::Plain),
    {
        !matches!(self, ImageFormat::Plain)
    }
}

/// What `str::to_lowercase` makes of a string.
pub uninterp spec fn lower_of(s: Seq<char>) -> Seq<char>;

/// Relies on `str::to_lowercase`: the lowercase form of `s`, which depends on its
/// characters alone.
#[verifier::external_body]
fn lowercase(s: &str) -> (r: String)
    ensures
        r@ == lower_of(s@),
{
    s.to_lowercase()
}

/// The last component of a path: what follows its last `/`.
pub open spec fn file_name_of(p: Seq<char>) -> Seq<char> {
    match last_index_of(p, '/') {
        Some(i) => p.subrange(i + 1, p.len() as int),
        None => p,
    }
}

/// The extension of a path: what follows the last `.` of its file name, unless that
/// `.` is the name's first character.
pub open spec fn extension_of(p: Seq<char>) -> Option<Seq<char>> {
    let f = file_name_of(p);
    match last_index_of(f, '.') {
        Some(i) => if i > 0 {
            Some(f.subrange(i + 1, f.len() as int))
        } else {
            None
        },
        None => None,
    }
}

/// The format that a lowercase extension names.
pub open spec fn format_of_extension(e: Seq<char>) -> ImageFormat {
    if e == "gz"@ || e == "gzip"@ {
        ImageFormat::Gzip
    } else if e == "xz"@ {
        ImageFormat::Xz
    } else if e == "zst"@ || e == "zstd"@ {
        ImageFormat::Zstd
    } else {
        ImageFormat::Plain
    }
}

/// The format of an image from its path; the extension is compared without regard
/// to case.
pub open spec fn format_of_path(p: Seq<char>) -> ImageFormat {
    match extension_of(p) {
        Some(e) => format_of_extension(lower_of(e)),
        None => ImageFormat::Plain,
    }
}

/// The file name of a path.
pub fn file_name(path: &str) -> (r: &str)
    ensures
        r@ == file_name_of(path@),
{
    let n = path.unicode_len();
    match rfind_char(path, '/') {
        Some(i) => path.substring_char(i + 1, n),
        None => path,
    }
}

/// The extension of a path, if it has one.
pub fn extension(path: &str) -> (r: Option<&str>)
    ensures
        match r {
            Some(e) => extension_of(path@) == Some(e@),
            None => extension_of(path@) is None,
        },
{
    let f = file_name(path);
    let n = f.unicode_len();
    match rfind_char(f, '.') {
        Some(i) => if i > 0 {
            Some(f.substring_char(i + 1, n))
        } else {
            None
        },
        None => None,
    }
}

/// The format that a lowercase extension names: `gz` and `gzip`, `xz`, `zst` and
/// `zstd`; any other is a plain image.
pub fn format_for_extension(lowered: &str) -> (r: ImageFormat)
    ensures
        r == format_of_extension(lowered@),
{
    if same_text(lowered, "gz") || same_text(lowered, "gzip") {
        ImageFormat::Gzip
    } else if same_text(lowered, "xz") {
        ImageFormat::Xz
    } else if same_text(lowered, "zst") || same_text(lowered, "zstd") {
        ImageFormat::Zstd
    } else {
        ImageFormat::Plain
    }
}

/// The format of the image at `path`, by its extension in any case; a path without
/// an extension is a plain image.
pub fn image_format(path: &str) -> (r: ImageFormat)
    ensures
        r == format_of_path(path@),
{
    match extension(path) {
        Some(e) => {
            let lowered = lowercase(e);
            format_for_extension(lowered.as_str())
        },
        None => ImageFormat::Plain,
    }
}

} // verus!

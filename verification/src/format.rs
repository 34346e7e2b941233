//! Target output formats, the file-extension predicate that decides whether
//! an input path names an image this tool will process, and output-file
//! naming.

use vstd::prelude::*;
use vstd::string::StrSliceExecFns;
use vstd::string::StringExecFns;

verus! {

/// Target format for re-encoded images.
#[derive(Clone, Copy, PartialEq, Eq, Structural, Debug)]
pub enum OutputFormat {
    Jpeg,
    Png,
    Webp,
}

impl OutputFormat {
    /// File extension used for output files of this format.
    pub open spec fn spec_extension(self) -> Seq<char> {
        match self {
            OutputFormat::Jpeg => "jpg"@,
            OutputFormat::Png => "png"@,
            OutputFormat::Webp => "webp"@,
        }
    }

    pub fn extension(&self) -> (r: &'static str)
        ensures
            r@ == self.spec_extension(),
    {
        match self {
            OutputFormat::Jpeg => "jpg",
            OutputFormat::Png => "png",
            OutputFormat::Webp => "webp",
        }
    }
}

/// A character folded for ASCII-case-insensitive comparison: the code point,
/// with ASCII upper-case letters mapped onto their lower-case partners.
pub open spec fn spec_fold_char(c: char) -> u32 {
    if 65 <= c as u32 <= 90 {
        (c as u32 + 32) as u32
    } else {
        c as u32
    }
}

/// Two character sequences are equal up to ASCII case.
pub open spec fn spec_eq_ignore_ascii_case(a: Seq<char>, b: Seq<char>) -> bool {
    a.len() == b.len() && (forall|i: int|
        0 <= i < a.len() ==> spec_fold_char(a[i]) == spec_fold_char(b[i]))
}

/// Fold one character for ASCII-case-insensitive comparison.
fn fold_char(c: char) -> (r: u32)
    ensures
        r == spec_fold_char(c),
{
    let v = c as u32;
    if 65 <= v && v <= 90 {
        v + 32
    } else {
        v
    }
}

/// Compare two strings for equality up to ASCII case.
pub fn eq_ignore_ascii_case(a: &str, b: &str) -> (r: bool)
    ensures
        r == spec_eq_ignore_ascii_case(a@, b@),
{
    let n = a.unicode_len();
    if n != b.unicode_len() {
        return false;
    }
    let mut i: usize = 0;
    while i < n
        invariant
            i <= n,
            n == a@.len(),
            n == b@.len(),
            forall|j: int| 0 <= j < i ==> spec_fold_char(a@[j]) == spec_fold_char(b@[j]),
        decreases n - i,
    {
        let ca = a.get_char(i);
        let cb = b.get_char(i);
        if fold_char(ca) != fold_char(cb) {
            return false;
        }
        i = i + 1;
    }
    true
}

/// The file extensions, compared without regard to ASCII case, that this
/// tool accepts as images.
pub open spec fn spec_is_supported_extension(ext: Seq<char>) -> bool {
    ||| spec_eq_ignore_ascii_case(ext, "jpg"@)
    ||| spec_eq_ignore_ascii_case(ext, "jpeg"@)
    ||| spec_eq_ignore_ascii_case(ext, "png"@)
    ||| spec_eq_ignore_ascii_case(ext, "webp"@)
    ||| spec_eq_ignore_ascii_case(ext, "bmp"@)
    ||| spec_eq_ignore_ascii_case(ext, "tiff"@)
    ||| spec_eq_ignore_ascii_case(ext, "gif"@)
}

/// Whether a file extension names an image format this tool processes.
pub fn is_supported_extension(ext: &str) -> (r: bool)
    ensures
        r == spec_is_supported_extension(ext@),
{
    eq_ignore_ascii_case(ext, "jpg") || eq_ignore_ascii_case(ext, "jpeg") || eq_ignore_ascii_case(
        ext,
        "png",
    ) || eq_ignore_ascii_case(ext, "webp") || eq_ignore_ascii_case(ext, "bmp")
        || eq_ignore_ascii_case(ext, "tiff") || eq_ignore_ascii_case(ext, "gif")
}

/// A file extension that names a JPEG, without regard to ASCII case.
pub open spec fn spec_is_jpeg_extension(ext: Seq<char>) -> bool {
    spec_eq_ignore_ascii_case(ext, "jpg"@) || spec_eq_ignore_ascii_case(ext, "jpeg"@)
}

/// Whether a file extension names a JPEG.
pub fn is_jpeg_extension(ext: &str) -> (r: bool)
    ensures
        r == spec_is_jpeg_extension(ext@),
{
    eq_ignore_ascii_case(ext, "jpg") || eq_ignore_ascii_case(ext, "jpeg")
}

/// The output file's name for an input with the given stem: the stem, a dot,
/// and the target format's extension.
pub fn output_filename(stem: &str, format: OutputFormat) -> (r: String)
    ensures
        r@ == stem@ + "."@ + format.spec_extension(),
{
    let mut name = stem.to_owned();
    name.append(".");
    name.append(format.extension());
    name
}

} // verus!

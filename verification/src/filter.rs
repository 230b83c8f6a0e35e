use vstd::prelude::*;
use crate::chars::{ascii_lower, lower_char};
use crate::paths::{spec_extension, extension_start};

verus! {

/// True when `e`, compared ASCII-case-insensitively, is one of the recognized
/// image extensions `jpg` and `jpeg`.
pub open spec fn spec_is_jpeg_ext(e: Seq<char>) -> bool {
    ||| (e.len() == 3 && ascii_lower(e[0]) == 'j' && ascii_lower(e[1]) == 'p' && ascii_lower(
        e[2],
    ) == 'g')
    ||| (e.len() == 4 && ascii_lower(e[0]) == 'j' && ascii_lower(e[1]) == 'p' && ascii_lower(
        e[2],
    ) == 'e' && ascii_lower(e[3]) == 'g')
}

/// The image filter as a predicate over a path: the path has an extension,
/// and that extension names a recognized image type.
pub open spec fn spec_is_image(p: Seq<char>) -> bool {
    match spec_extension(p) {
        Some(e) => spec_is_jpeg_ext(e),
        None => false,
    }
}

/// Whether `e` names a recognized image extension, case-insensitively.
pub fn is_jpeg_ext(e: &str) -> (r: bool)
    ensures
        r == spec_is_jpeg_ext(e@),
{
    let n = e.unicode_len();
    if n == 3 {
        lower_char(e.get_char(0)) == 'j' && lower_char(e.get_char(1)) == 'p' && lower_char(
            e.get_char(2),
        ) == 'g'
    } else if n == 4 {
        lower_char(e.get_char(0)) == 'j' && lower_char(e.get_char(1)) == 'p' && lower_char(
            e.get_char(2),
        ) == 'e' && lower_char(e.get_char(3)) == 'g'
    } else {
        false
    }
}

/// The image filter: true exactly when the path's extension, compared
/// case-insensitively, is `jpg` or `jpeg`.
///
/// A pure predicate with no side effects: its result is a function of the
/// path alone, so filtering the same path twice always answers the same.
/// Whether the path names a regular file is for the caller to check; this
/// predicate looks at the path's text only.
pub fn is_image(path: &str) -> (r: bool)
    ensures
        r == spec_is_image(path@),
{
    let n = path.unicode_len();
    match extension_start(path) {
        Some(start) => {
            let ext = path.substring_char(start, n);
            is_jpeg_ext(ext)
        },
        None => false,
    }
}

/// Idempotence of filtering: the filter's verdict is a pure function of the
/// path, so any two results that [`is_image`]'s contract admits for the same
/// path — in particular, those of applying the filter twice — are the same
/// boolean.
pub proof fn lemma_filter_idempotent(r1: bool, r2: bool, p: Seq<char>)
    requires
        r1 == spec_is_image(p),
        r2 == spec_is_image(p),
    ensures
        r1 == r2,
{
}

} // verus!

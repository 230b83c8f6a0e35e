use vstd::prelude::*;
use vstd::utf8::{valid_utf8, decode_utf8};
use crate::errors::ProcessError;
use crate::format::{count_char, cleaned, format_datetime};
use crate::paths::{spec_renamed, renamed_path};
use crate::metadata::{
    container_parses,
    capture_time_of,
    field_view,
    extract_capture_time,
    decode_field_text,
};

verus! {

/// What the library owes for one candidate file at `path` once the
/// capture-time lookup's verdict `field` is known, and `r` is the answer:
///
/// - no field in the container: the file is skipped (`Ok(None)`);
/// - a field that holds no text value, is not valid UTF-8, or whose text does
///   not have the single-space two-part shape: the format error;
/// - otherwise: the renamed path for `path`, with the formatted stem and the
///   lowercased original extension (`Ok(Some(..))`).
pub open spec fn spec_plan(
    path: Seq<char>,
    field: Option<Option<Seq<u8>>>,
    r: Result<Option<String>, ProcessError>,
) -> bool {
    match field {
        None => r matches Ok(v) && v is None,
        Some(None) => r matches Err(e) && e == ProcessError::Format,
        Some(Some(b)) => if !valid_utf8(b) || count_char(decode_utf8(b), ' ') != 1 {
            r matches Err(e) && e == ProcessError::Format
        } else {
            r matches Ok(v) && v matches Some(q) && q@ == spec_renamed(
                path,
                cleaned(decode_utf8(b)),
            )
        },
    }
}

/// Decides what becomes of one candidate file once the capture-time lookup
/// has been made: `field` is the lookup's verdict, in the shape
/// [`capture_time_of`] names. The answer is exactly what [`spec_plan`] states
/// for each value of the verdict.
pub fn plan_for_field(path: &str, field: Option<Option<Vec<u8>>>) -> (r: Result<
    Option<String>,
    ProcessError,
>)
    ensures
        spec_plan(path@, field_view(field), r),
{
    match field {
        None => Ok(None),
        Some(None) => Err(ProcessError::Format),
        Some(Some(b)) => match decode_field_text(&b) {
            None => Err(ProcessError::Format),
            Some(text) => match format_datetime(text.as_str()) {
                Err(e) => Err(e),
                Ok(stem) => Ok(Some(renamed_path(path, stem.as_str()))),
            },
        },
    }
}

/// Processes one candidate file, given its path and its raw bytes: parses the
/// embedded metadata container, looks the original capture time up, and
/// computes the path the file is to be renamed to.
///
/// The metadata error comes exactly when the container cannot be parsed. When
/// it parses, the answer is pinned by the lookup's verdict on the bytes: a
/// skip exactly when the field is absent, the format error exactly when the
/// field is present without valid single-space text, and otherwise the
/// renamed path for that text — so the result is a function of `path` and
/// `data` alone.
pub fn process_bytes(path: &str, data: &[u8]) -> (r: Result<Option<String>, ProcessError>)
    ensures
        (r matches Err(e) && e == ProcessError::Metadata) <==> !container_parses(data@),
        container_parses(data@) ==> spec_plan(path@, capture_time_of(data@), r),
{
    match extract_capture_time(data) {
        Err(_) => Err(ProcessError::Metadata),
        Ok(field) => {
            let ghost gfield = field;
            let r = plan_for_field(path, field);
            proof {
                assert(capture_time_of(data@) == field_view(gfield));
            }
            r
        },
    }
}

} // verus!

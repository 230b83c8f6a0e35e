use vstd::prelude::*;

verus! {

/// The outside metadata library's error type, opaque to verified code, which
/// only maps it to this crate's own error type.
#[verifier::external_type_specification]
#[verifier::external_body]
pub struct ExExifError(exif::Error);

/// Whether the outside metadata parser accepts `data` as an image with an
/// embedded metadata container. The parser reads nothing but the bytes it is
/// given, so its verdict is a function of them; what that verdict is stays
/// unspecified here.
pub uninterp spec fn container_parses(data: Seq<u8>) -> bool;

/// The capture-time lookup's verdict on `data`, defined when the container
/// parses; like [`container_parses`], a function of the bytes alone.
///
/// - `None`: the parsed container holds no original capture time field in
///   the primary image description;
/// - `Some(None)`: the field is there, but holds no ASCII text value;
/// - `Some(Some(b))`: the field's first ASCII value is the byte string `b`.
pub uninterp spec fn capture_time_of(data: Seq<u8>) -> Option<Option<Seq<u8>>>;

/// The lookup verdict that an executable field value stands for, shape for
/// shape.
pub open spec fn field_view(v: Option<Option<Vec<u8>>>) -> Option<Option<Seq<u8>>> {
    match v {
        None => None,
        Some(None) => Some(None),
        Some(Some(b)) => Some(Some(b@)),
    }
}

/// Relies on `exif::Reader::read_from_container`, called on a freshly made
/// `exif::Reader` over an in-memory cursor, and on `exif::Exif::get_field`
/// for the original capture time tag of the primary image description.
/// Parsing reads only the given bytes and succeeds exactly when the parser
/// accepts them; the looked-up field value is handed back as the verdict
/// [`capture_time_of`] names, with the field's variants told apart as that
/// name's doc comment lays out.
#[verifier::external_body]
pub(crate) fn extract_capture_time(data: &[u8]) -> (r: Result<
    Option<Option<Vec<u8>>>,
    exif::Error,
>)
    ensures
        (r matches Ok(_)) == container_parses(data@),
        r matches Ok(v) ==> capture_time_of(data@) == field_view(v),
{
    let mut cur = std::io::Cursor::new(data);
    let ex = exif::Reader::new().read_from_container(&mut cur)?;
    Ok(match ex.get_field(exif::Tag::DateTimeOriginal, exif::In::PRIMARY) {
        None => None,
        Some(f) => Some(match &f.value {
            exif::Value::Ascii(v) => v.get(0).cloned(),
            _ => None,
        }),
    })
}

/// Relies on `std::str::from_utf8`: it succeeds exactly when the bytes are
/// valid UTF-8, and the resulting text holds the characters they decode to.
#[verifier::external_body]
pub(crate) fn decode_field_text(b: &Vec<u8>) -> (r: Option<String>)
    ensures
        r is Some <==> vstd::utf8::valid_utf8(b@),
        r matches Some(s) ==> s@ == vstd::utf8::decode_utf8(b@),
{
    match std::str::from_utf8(b.as_slice()) {
        Ok(s) => Some(s.to_string()),
        Err(_) => None,
    }
}

} // verus!

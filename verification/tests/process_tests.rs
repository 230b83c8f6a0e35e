use exif::experimental::Writer;
use exif::{Field, In, Tag, Value};
use photo_renamer::errors::ProcessError;
use photo_renamer::process::{plan_for_field, process_bytes};

fn exif_bytes_with(tag: Tag, text: &[u8]) -> Vec<u8> {
    let field = Field { tag, ifd_num: In::PRIMARY, value: Value::Ascii(vec![text.to_vec()]) };
    let mut writer = Writer::new();
    writer.push_field(&field);
    let mut cursor = std::io::Cursor::new(Vec::new());
    writer.write(&mut cursor, false).unwrap();
    cursor.into_inner()
}

#[test]
fn renames_when_capture_time_present() {
    let data = exif_bytes_with(Tag::DateTimeOriginal, b"2024:01:01 19:39:23");
    let got = process_bytes("photo.JPG", &data);
    assert_eq!(got, Ok(Some(String::from("20240101_193923.jpg"))));
}

#[test]
fn skips_when_field_absent() {
    let data = exif_bytes_with(Tag::Make, b"camera");
    assert_eq!(process_bytes("photo.jpg", &data), Ok(None));
}

#[test]
fn reports_unparseable_container() {
    let data = b"this is no image at all".to_vec();
    assert_eq!(process_bytes("broken.jpeg", &data), Err(ProcessError::Metadata));
}

#[test]
fn keeps_subdirectory_in_renamed_path() {
    let data = exif_bytes_with(Tag::DateTimeOriginal, b"2024:01:01 19:39:23");
    assert_eq!(
        process_bytes("root/sub/photo.jpg", &data),
        Ok(Some(String::from("root/sub/20240101_193923.jpg")))
    );
}

#[test]
fn malformed_capture_time_is_a_format_error() {
    let data = exif_bytes_with(Tag::DateTimeOriginal, b"2024-01-01T19:39:23");
    assert_eq!(process_bytes("photo.jpg", &data), Err(ProcessError::Format));
}

#[test]
fn present_but_non_text_field_is_a_format_error() {
    let field = Field {
        tag: Tag::DateTimeOriginal,
        ifd_num: In::PRIMARY,
        value: Value::Long(vec![7]),
    };
    let mut writer = Writer::new();
    writer.push_field(&field);
    let mut cursor = std::io::Cursor::new(Vec::new());
    writer.write(&mut cursor, false).unwrap();
    let data = cursor.into_inner();
    assert_eq!(process_bytes("photo.jpg", &data), Err(ProcessError::Format));
}

#[test]
fn plan_skips_without_field() {
    assert_eq!(plan_for_field("photo.jpg", None), Ok(None));
}

#[test]
fn plan_field_without_text_is_a_format_error() {
    assert_eq!(plan_for_field("photo.jpg", Some(None)), Err(ProcessError::Format));
}

#[test]
fn plan_rejects_non_utf8_field() {
    assert_eq!(
        plan_for_field("photo.jpg", Some(Some(vec![0xff, 0x20, 0xff]))),
        Err(ProcessError::Format)
    );
}

#[test]
fn plan_formats_and_renames() {
    assert_eq!(
        plan_for_field("d/photo.JPEG", Some(Some(b"2024:01:01 19:39:23".to_vec()))),
        Ok(Some(String::from("d/20240101_193923.jpeg")))
    );
}

#[test]
fn error_descriptions() {
    assert_eq!(ProcessError::Metadata.describe(), "no valid metadata container could be read");
    assert_eq!(
        ProcessError::Format.describe(),
        "the capture-time field does not have the expected format"
    );
}

use photo_renamer::errors::ProcessError;
use photo_renamer::format::format_datetime;

#[test]
fn formats_wellformed_datetime() {
    assert_eq!(format_datetime("2024:01:01 19:39:23").unwrap(), "20240101_193923");
}

#[test]
fn does_not_validate_ranges() {
    assert_eq!(format_datetime("9999:13:99 25:61:61").unwrap(), "99991399_256161");
    assert_eq!(format_datetime("ab:c d:e").unwrap(), "abc_de");
}

#[test]
fn rejects_missing_space() {
    assert_eq!(format_datetime("2024-01-01T19:39:23"), Err(ProcessError::Format));
}

#[test]
fn rejects_wrong_space_count() {
    assert_eq!(format_datetime(""), Err(ProcessError::Format));
    assert_eq!(format_datetime("2024:01:01"), Err(ProcessError::Format));
    assert_eq!(format_datetime("2024:01:01 19:39:23 x"), Err(ProcessError::Format));
}

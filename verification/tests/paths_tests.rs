use photo_renamer::paths::renamed_path;

#[test]
fn keeps_parent_directory() {
    assert_eq!(renamed_path("dir/sub/photo.JPG", "20240101_193923"), "dir/sub/20240101_193923.jpg");
}

#[test]
fn lowercases_extension() {
    assert_eq!(renamed_path("a/B.JpEg", "stem"), "a/stem.jpeg");
}

#[test]
fn bare_file_name_stays_bare() {
    assert_eq!(renamed_path("photo.jpg", "stem"), "stem.jpg");
}

#[test]
fn falls_back_to_jpg_without_extension() {
    assert_eq!(renamed_path("dir/photo", "stem"), "dir/stem.jpg");
}

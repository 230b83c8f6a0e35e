use photo_renamer::filter::is_image;

#[test]
fn accepts_jpg_and_jpeg_any_case() {
    assert!(is_image("photo.jpg"));
    assert!(is_image("photo.JPG"));
    assert!(is_image("photo.jpeg"));
    assert!(is_image("photo.JpEg"));
    assert!(is_image("dir/sub/photo.JPEG"));
}

#[test]
fn rejects_other_extensions() {
    assert!(!is_image("photo.png"));
    assert!(!is_image("note.txt"));
    assert!(!is_image("archive.jpg.bak"));
    assert!(!is_image("photo.jpgx"));
}

#[test]
fn rejects_paths_without_extension() {
    assert!(!is_image("noext"));
    assert!(!is_image("dir/noext"));
    assert!(!is_image(".jpg"));
    assert!(!is_image("dir/.jpeg"));
    assert!(!is_image("photo."));
    assert!(!is_image("dir.jpg/file"));
    assert!(!is_image(""));
}

#[test]
fn filter_is_idempotent() {
    let paths = ["photo.jpg", "photo.PNG", "a.JPEG", "noext", ".jpg"];
    for p in paths {
        let first = is_image(p);
        let second = is_image(p);
        assert_eq!(first, second);
    }
}

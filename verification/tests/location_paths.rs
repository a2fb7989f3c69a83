use flute_core::errors::ErrorKind;
use flute_core::location::content_location_relative_path;

#[test]
fn absolute_url_contributes_its_path() {
    let p = content_location_relative_path("http://example.com/dir/file.bin").unwrap();
    assert_eq!(p, b"dir/file.bin".to_vec());
}

#[test]
fn file_url_contributes_its_path() {
    let p = content_location_relative_path("file:///images/logo.png").unwrap();
    assert_eq!(p, b"images/logo.png".to_vec());
}

#[test]
fn relative_reference_is_used_as_it_stands() {
    let p = content_location_relative_path("files/a.bin").unwrap();
    assert_eq!(p, b"files/a.bin".to_vec());
    let p = content_location_relative_path("/rooted/b.bin").unwrap();
    assert_eq!(p, b"rooted/b.bin".to_vec());
}

#[test]
fn malformed_location_is_a_parse_error() {
    let e = content_location_relative_path("http://exa mple.com/x").unwrap_err();
    assert_eq!(e.kind, ErrorKind::Parse);
}

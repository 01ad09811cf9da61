use webp2jpg::paths::{is_webp, jpg_output};

fn v(s: &[u8]) -> Vec<u8> {
    s.to_vec()
}

#[test]
fn webp_lowercase_matches() {
    assert!(is_webp(&v(b"/home/user/pictures/photo.webp")));
}

#[test]
fn webp_mixed_case_matches() {
    assert!(is_webp(&v(b"/home/user/pictures/photo.WebP")));
}

#[test]
fn webp_upper_case_matches() {
    assert!(is_webp(&v(b"/home/user/pictures/photo.WEBP")));
}

#[test]
fn png_does_not_match() {
    assert!(!is_webp(&v(b"/home/user/pictures/photo.png")));
}

#[test]
fn jpeg_does_not_match() {
    assert!(!is_webp(&v(b"/home/user/pictures/photo.jpeg")));
}

#[test]
fn no_extension_does_not_match() {
    assert!(!is_webp(&v(b"/home/user/pictures/photo")));
}

#[test]
fn hidden_file_has_no_extension() {
    assert!(!is_webp(&v(b"/home/user/pictures/.webp")));
}

#[test]
fn trailing_slash_directory_does_not_match() {
    assert!(!is_webp(&v(b"/home/user/pictures.webp/")));
}

#[test]
fn output_path_replaces_webp_extension() {
    assert_eq!(jpg_output(&v(b"/a/b/photo.webp")), v(b"/a/b/photo.jpg"));
}

#[test]
fn output_path_lowercases_replacement() {
    assert_eq!(jpg_output(&v(b"/a/b/photo.WEBP")), v(b"/a/b/photo.jpg"));
    assert_eq!(jpg_output(&v(b"/a/b/photo.WebP")), v(b"/a/b/photo.jpg"));
}

#[test]
fn output_path_replaces_any_extension() {
    assert_eq!(jpg_output(&v(b"photo.jpeg")), v(b"photo.jpg"));
}

#[test]
fn output_path_appends_when_no_extension() {
    assert_eq!(jpg_output(&v(b"/a/b/photo")), v(b"/a/b/photo.jpg"));
}

#[test]
fn output_path_keeps_dotted_directories() {
    assert_eq!(jpg_output(&v(b"/a.d/photo.webp")), v(b"/a.d/photo.jpg"));
}

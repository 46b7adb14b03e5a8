use looply::mime::{mime_of, mime_or_default};

#[test]
fn gif_signature_prefix_is_image_gif() {
    let bytes: Vec<u8> = vec![0x47, 0x49, 0x46, 0x38, 0x39];
    assert_eq!(mime_of(&bytes), "image/gif");
}

#[test]
fn png_signature_is_image_png() {
    let bytes: Vec<u8> = vec![0x89, 0x50, 0x4E, 0x47, 0x0D, 0x0A, 0x1A, 0x0A];
    assert_eq!(mime_of(&bytes), "image/png");
}

#[test]
fn jpeg_signature_is_image_jpeg() {
    assert_eq!(mime_of(&[0xFF, 0xD8, 0xFF, 0xAA]), "image/jpeg");
}

#[test]
fn unrecognised_bytes_are_octet_stream() {
    assert_eq!(mime_of(&[0x01, 0x02, 0x03, 0x04, 0x05]), "application/octet-stream");
}

#[test]
fn empty_buffer_is_octet_stream() {
    assert_eq!(mime_of(&[]), "application/octet-stream");
}

#[test]
fn ebook_marker_wins_over_gif_signature() {
    let mut bytes: Vec<u8> = vec![0; 68];
    bytes[0] = 0x47;
    bytes[1] = 0x49;
    bytes[2] = 0x46;
    bytes[60..68].copy_from_slice(b"BOOKMOBI");
    assert_eq!(mime_of(&bytes), "application/x-mobipocket-ebook");
}

#[test]
fn recognised_type_is_kept() {
    assert_eq!(mime_or_default(Some("image/webp")), "image/webp");
}

#[test]
fn missing_type_falls_back_to_octet_stream() {
    assert_eq!(mime_or_default(None), "application/octet-stream");
}

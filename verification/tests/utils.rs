use anthropic::constants::SUPPORT_MEDIA_TYPE;
use anthropic::models::MessageParam;
use anthropic::utils::{
    accept_media_type, get_image_mimetype_and_base64, is_supported_media_type, ImageTypeError,
};

const PNG: [u8; 8] = [0x89, 0x50, 0x4E, 0x47, 0x0D, 0x0A, 0x1A, 0x0A];
const JPEG: [u8; 4] = [0xFF, 0xD8, 0xFF, 0xE0];
const GIF: [u8; 6] = [0x47, 0x49, 0x46, 0x38, 0x39, 0x61];
const WEBP: [u8; 12] = [0x52, 0x49, 0x46, 0x46, 0, 0, 0, 0, 0x57, 0x45, 0x42, 0x50];
const BMP: [u8; 4] = [0x42, 0x4D, 0, 0];
const PDF: [u8; 5] = [0x25, 0x50, 0x44, 0x46, 0x2D];

fn unsupported(media_type: &str) -> ImageTypeError {
    ImageTypeError::Unsupported { media_type: media_type.to_string() }
}

#[test]
fn four_formats_are_taken() {
    assert_eq!(
        get_image_mimetype_and_base64(&PNG),
        Ok(("image/png".to_string(), "iVBORw0KGgo=".to_string()))
    );
    assert_eq!(
        get_image_mimetype_and_base64(&JPEG),
        Ok(("image/jpeg".to_string(), "/9j/4A==".to_string()))
    );
    assert_eq!(
        get_image_mimetype_and_base64(&GIF),
        Ok(("image/gif".to_string(), "R0lGODlh".to_string()))
    );
    assert_eq!(
        get_image_mimetype_and_base64(&WEBP),
        Ok(("image/webp".to_string(), "UklGRgAAAABXRUJQ".to_string()))
    );
}

#[test]
fn other_formats_are_refused() {
    assert_eq!(get_image_mimetype_and_base64(&BMP), Err(unsupported("image/bmp")));
    assert_eq!(get_image_mimetype_and_base64(&PDF), Err(unsupported("application/pdf")));
}

#[test]
fn bytes_of_no_known_format_are_refused() {
    assert_eq!(get_image_mimetype_and_base64(&[]), Err(ImageTypeError::Unknown));
    assert_eq!(get_image_mimetype_and_base64(b"hello"), Err(ImageTypeError::Unknown));
    assert_eq!(get_image_mimetype_and_base64(&[0xFF, 0xD8]), Err(ImageTypeError::Unknown));
}

#[test]
fn format_is_found_in_the_bytes_whatever_follows() {
    let mut bytes = GIF.to_vec();
    bytes.extend_from_slice(b"not an image at all");
    let (media_type, data) = get_image_mimetype_and_base64(&bytes).unwrap();
    assert_eq!(media_type, "image/gif");
    assert_eq!(data, "R0lGODlhbm90IGFuIGltYWdlIGF0IGFsbA==");
}

#[test]
fn image_block_from_the_bytes_of_a_file() {
    let (media_type, data) = get_image_mimetype_and_base64(&PNG).unwrap();
    let message = MessageParam::new("user").image(&media_type, &data).text("What is this?");
    assert_eq!(
        message,
        MessageParam::new("user").image("image/png", "iVBORw0KGgo=").text("What is this?")
    );
}

#[test]
fn accept_media_type_takes_the_four() {
    for media_type in SUPPORT_MEDIA_TYPE {
        assert_eq!(accept_media_type(Some(media_type)), Ok(media_type.to_string()));
    }
    assert_eq!(accept_media_type(None), Err(ImageTypeError::Unknown));
    assert_eq!(accept_media_type(Some("image/tiff")), Err(unsupported("image/tiff")));
    assert_eq!(accept_media_type(Some("")), Err(unsupported("")));
    assert_eq!(accept_media_type(Some("IMAGE/PNG")), Err(unsupported("IMAGE/PNG")));
}

#[test]
fn supported_media_types_are_the_four() {
    assert_eq!(SUPPORT_MEDIA_TYPE, ["image/jpeg", "image/png", "image/gif", "image/webp"]);
    assert!(is_supported_media_type("image/jpeg"));
    assert!(is_supported_media_type("image/png"));
    assert!(is_supported_media_type("image/gif"));
    assert!(is_supported_media_type("image/webp"));
    assert!(!is_supported_media_type("image/bmp"));
    assert!(!is_supported_media_type("image/jpg"));
    assert!(!is_supported_media_type("text/plain"));
}

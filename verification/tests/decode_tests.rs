use cedar_detect_server::errors::{ServiceError, StatusKind};
use cedar_detect_server::image_data::decode_image;

#[test]
fn decode_matching_buffer_reports_declared_dims() {
    let data = vec![1u8, 2, 3, 4, 5, 6];
    let img = decode_image(3, 2, data.clone()).unwrap();
    assert_eq!(img.width, 3);
    assert_eq!(img.height, 2);
    assert_eq!(img.pixels, data);
}

#[test]
fn decode_large_square_image() {
    let data = vec![7u8; 100 * 100];
    let img = decode_image(100, 100, data).unwrap();
    assert_eq!(img.width, 100);
    assert_eq!(img.height, 100);
    assert_eq!(img.pixels.len(), 10000);
}

#[test]
fn decode_empty_image() {
    let img = decode_image(0, 0, Vec::new()).unwrap();
    assert_eq!(img.width, 0);
    assert_eq!(img.height, 0);
    assert!(img.pixels.is_empty());
}

#[test]
fn decode_zero_width_with_empty_buffer() {
    let img = decode_image(0, 5, Vec::new()).unwrap();
    assert_eq!(img.width, 0);
    assert_eq!(img.height, 5);
}

#[test]
fn decode_short_buffer_fails() {
    let r = decode_image(3, 2, vec![0u8; 5]);
    assert_eq!(r.err(), Some(ServiceError::MalformedImage));
}

#[test]
fn decode_long_buffer_fails() {
    let r = decode_image(3, 2, vec![0u8; 7]);
    assert_eq!(r.err(), Some(ServiceError::MalformedImage));
}

#[test]
fn decode_negative_width_fails() {
    let r = decode_image(-3, 2, vec![0u8; 6]);
    assert_eq!(r.err(), Some(ServiceError::MalformedImage));
}

#[test]
fn decode_negative_height_fails() {
    let r = decode_image(3, -2, vec![0u8; 6]);
    assert_eq!(r.err(), Some(ServiceError::MalformedImage));
}

#[test]
fn decode_error_is_callers_to_correct() {
    let e = decode_image(2, 2, vec![0u8; 3]).unwrap_err();
    assert_eq!(e.status_kind(), StatusKind::InvalidArgument);
}

use cedar_detect_server::errors::{ServiceError, StatusKind};
use cedar_detect_server::region::{validate_region, Region};

fn region(origin_x: i32, origin_y: i32, width: i32, height: i32) -> Region {
    Region {
        origin_x,
        origin_y,
        width,
        height,
    }
}

#[test]
fn region_inside_bounds_passes_unchanged() {
    let r = region(10, 20, 30, 40);
    assert_eq!(validate_region(r, 100, 100), Ok(r));
}

#[test]
fn region_filling_the_image_passes() {
    let r = region(0, 0, 100, 100);
    assert_eq!(validate_region(r, 100, 100), Ok(r));
}

#[test]
fn region_with_negative_origin_x_fails() {
    let r = region(-1, 0, 10, 10);
    assert_eq!(
        validate_region(r, 100, 100),
        Err(ServiceError::InvalidRegion(r))
    );
}

#[test]
fn region_with_negative_origin_y_fails() {
    let r = region(0, -5, 10, 10);
    assert_eq!(
        validate_region(r, 100, 100),
        Err(ServiceError::InvalidRegion(r))
    );
}

#[test]
fn region_past_right_edge_fails() {
    let r = region(90, 0, 20, 10);
    assert_eq!(
        validate_region(r, 100, 100),
        Err(ServiceError::InvalidRegion(r))
    );
}

#[test]
fn region_past_bottom_edge_fails() {
    let r = region(0, 95, 10, 10);
    assert_eq!(
        validate_region(r, 100, 100),
        Err(ServiceError::InvalidRegion(r))
    );
}

#[test]
fn region_error_is_callers_to_correct() {
    let r = region(-1, -1, 5, 5);
    let e = validate_region(r, 10, 10).unwrap_err();
    assert_eq!(e.status_kind(), StatusKind::InvalidArgument);
}

//! The optional background-estimation rectangle and its bounds check.

use vstd::prelude::*;
use crate::errors::ServiceError;

verus! {

/// An axis-aligned rectangle in image pixel coordinates, used to scope a
/// background-level estimate.
#[derive(Clone, Copy, Debug, PartialEq, Eq, Structural)]
pub struct Region {
    pub origin_x: i32,
    pub origin_y: i32,
    pub width: i32,
    pub height: i32,
}

/// Whether `r` lies fully inside an `image_width` by `image_height` image:
/// non-negative origin, and origin plus extent within each image dimension.
pub open spec fn region_in_bounds(r: Region, image_width: int, image_height: int) -> bool {
    &&& r.origin_x >= 0
    &&& r.origin_y >= 0
    &&& r.origin_x + r.width <= image_width
    &&& r.origin_y + r.height <= image_height
}

/// Checks a background-estimation rectangle against the image bounds and
/// returns it unchanged when it fits; a region with a negative origin or one
/// reaching past either image dimension is refused before any analysis runs.
pub fn validate_region(r: Region, image_width: u32, image_height: u32) -> (res: Result<
    Region,
    ServiceError,
>)
    ensures
        region_in_bounds(r, image_width as int, image_height as int) ==> res == Ok::<
            Region,
            ServiceError,
        >(r),
        !region_in_bounds(r, image_width as int, image_height as int) ==> res == Err::<
            Region,
            ServiceError,
        >(ServiceError::InvalidRegion(r)),
{
    if r.origin_x < 0 || r.origin_y < 0 || (r.origin_x as i64) + (r.width as i64) > (
    image_width as i64) || (r.origin_y as i64) + (r.height as i64) > (image_height as i64) {
        Err(ServiceError::InvalidRegion(r))
    } else {
        Ok(r)
    }
}

} // verus!

//! Reconciling the binning flags and the optional explicit factor into one
//! effective binning value.

use vstd::prelude::*;
use crate::errors::ServiceError;

verus! {

/// The binning resolution policy. When neither bin-requiring flag is set the
/// effective factor is 1 and any supplied value is ignored. When either flag
/// is set, an absent factor defaults to 2, an explicit 2 or 4 is taken as
/// given, and any other explicit value (1 included) is refused.
pub open spec fn resolved_binning(
    use_binned_for_star_candidates: bool,
    return_binned: bool,
    binning: Option<i32>,
) -> Result<i32, ServiceError> {
    if !use_binned_for_star_candidates && !return_binned {
        Ok(1)
    } else {
        match binning {
            Option::None => Ok(2),
            Option::Some(v) => if v == 2 {
                Ok(2)
            } else if v == 4 {
                Ok(4)
            } else {
                Err(ServiceError::InvalidBinning(v))
            },
        }
    }
}

/// Resolves the binning-related request fields into a single effective
/// binning factor, or refuses the request. An accepted factor is always one
/// of 1, 2 or 4.
pub fn resolve_binning(
    use_binned_for_star_candidates: bool,
    return_binned: bool,
    binning: Option<i32>,
) -> (r: Result<i32, ServiceError>)
    ensures
        r == resolved_binning(use_binned_for_star_candidates, return_binned, binning),
        r matches Ok(b) ==> b == 1 || b == 2 || b == 4,
{
    if !use_binned_for_star_candidates && !return_binned {
        return Ok(1);
    }
    match binning {
        Option::None => Ok(2),
        Option::Some(v) => {
            if v == 2 {
                Ok(2)
            } else if v == 4 {
                Ok(4)
            } else {
                Err(ServiceError::InvalidBinning(v))
            }
        },
    }
}

} // verus!

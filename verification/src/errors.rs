//! The failure taxonomy of the service layer.

use vstd::prelude::*;
use crate::region::Region;

verus! {

/// Why a request was refused, or why a call could not be completed.
#[derive(Clone, Copy, Debug, PartialEq, Eq, Structural)]
pub enum ServiceError {
    /// The request carried no input image at all.
    MissingImage,
    /// The image was offered through the shared-memory transfer path, which
    /// this build does not support.
    SharedMemoryUnsupported,
    /// The image buffer length does not match the declared dimensions.
    MalformedImage,
    /// An explicit binning factor was supplied that is neither 2 nor 4.
    InvalidBinning(i32),
    /// The background-estimation rectangle reaches outside the image.
    InvalidRegion(Region),
    /// The detection engine could not complete the analysis.
    EngineFailed,
}

/// The status class a caller can recover from by correcting the request,
/// against the one that signals a failure on the service's side.
#[derive(Clone, Copy, Debug, PartialEq, Eq, Structural)]
pub enum StatusKind {
    InvalidArgument,
    Internal,
}

/// Which status class each error is surfaced under: every validation failure
/// is the caller's to correct, while an unsupported transfer path or an
/// engine failure is the service's own.
pub open spec fn status_kind_of(e: ServiceError) -> StatusKind {
    match e {
        ServiceError::MissingImage => StatusKind::InvalidArgument,
        ServiceError::SharedMemoryUnsupported => StatusKind::Internal,
        ServiceError::MalformedImage => StatusKind::InvalidArgument,
        ServiceError::InvalidBinning(_) => StatusKind::InvalidArgument,
        ServiceError::InvalidRegion(_) => StatusKind::InvalidArgument,
        ServiceError::EngineFailed => StatusKind::Internal,
    }
}

impl ServiceError {
    /// The status class this error is reported under to the caller.
    pub fn status_kind(&self) -> (k: StatusKind)
        ensures
            k == status_kind_of(*self),
    {
        match self {
            ServiceError::MissingImage => StatusKind::InvalidArgument,
            ServiceError::SharedMemoryUnsupported => StatusKind::Internal,
            ServiceError::MalformedImage => StatusKind::InvalidArgument,
            ServiceError::InvalidBinning(_) => StatusKind::InvalidArgument,
            ServiceError::InvalidRegion(_) => StatusKind::InvalidArgument,
            ServiceError::EngineFailed => StatusKind::Internal,
        }
    }
}

} // verus!

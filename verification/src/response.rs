//! The detection engine's report, the outbound result, and the assembly of
//! the one from the other.

use vstd::prelude::*;
use crate::candidates::{Candidate, StarCentroid, peak_star_pixel_of, projected};
use crate::candidates::{peak_star_pixel, project_candidates};
use crate::image_data::RawImage;

verus! {

/// Elapsed wall-clock time of the analysis call, as whole seconds plus a
/// nanosecond remainder. A diagnostic: the runtime measures it around the
/// engine call and this layer only records it.
#[derive(Clone, Copy, Debug, PartialEq, Eq, Structural)]
pub struct AlgorithmTime {
    pub seconds: i64,
    pub nanos: i32,
}

/// Everything the detection engine reports back for one call. Scalar
/// estimates are floating-point on the engine's side and are carried here
/// as IEEE-754 bit patterns, never interpreted by this layer.
#[derive(Debug)]
pub struct EngineOutput {
    /// The engine's noise-floor estimate, always present.
    pub noise_estimate_bits: u64,
    /// Detected candidates, in the order the engine chose to return them.
    pub candidates: Vec<Candidate>,
    pub hot_pixel_count: i32,
    /// Present exactly when the request asked for the binned image back.
    pub binned_image: Option<RawImage>,
    /// Present exactly when a validated background region was supplied.
    pub background_estimate_bits: Option<u64>,
}

/// The assembled outbound message of one completed call.
#[derive(Debug)]
pub struct DetectionResult {
    pub noise_estimate_bits: u64,
    pub background_estimate_bits: Option<u64>,
    pub hot_pixel_count: i32,
    /// Integer mean of the leading candidates' peak pixel values, in 0..=255.
    pub peak_star_pixel: i32,
    pub star_candidates: Vec<StarCentroid>,
    pub binned_image: Option<RawImage>,
    pub algorithm_time: AlgorithmTime,
}

/// What assembly promises: every field of the outbound message, written out.
/// The engine's values pass through unchanged, the peak statistic and the
/// record sequence are computed from the candidates, and nothing is
/// validated or re-ordered here.
pub open spec fn assembled(eng: EngineOutput, time: AlgorithmTime, r: DetectionResult) -> bool {
    &&& r.noise_estimate_bits == eng.noise_estimate_bits
    &&& r.background_estimate_bits == eng.background_estimate_bits
    &&& r.hot_pixel_count == eng.hot_pixel_count
    &&& r.peak_star_pixel == peak_star_pixel_of(eng.candidates@)
    &&& r.star_candidates@ == eng.candidates@.map_values(|c: Candidate| projected(c))
    &&& r.binned_image == eng.binned_image
    &&& r.algorithm_time == time
}

/// Packages the engine's report and the measured analysis time into the
/// outbound result. Pure assembly with no side effect: the candidate order
/// is preserved, and the optional fields stay present or absent exactly as
/// the engine handed them over.
pub fn assemble_response(eng: EngineOutput, algorithm_time: AlgorithmTime) -> (r: DetectionResult)
    ensures
        assembled(eng, algorithm_time, r),
        0 <= r.peak_star_pixel <= 255,
{
    let peak = peak_star_pixel(&eng.candidates);
    let records = project_candidates(&eng.candidates);
    DetectionResult {
        noise_estimate_bits: eng.noise_estimate_bits,
        background_estimate_bits: eng.background_estimate_bits,
        hot_pixel_count: eng.hot_pixel_count,
        peak_star_pixel: peak,
        star_candidates: records,
        binned_image: eng.binned_image,
        algorithm_time,
    }
}

/// Two results agree on every field but the elapsed-time diagnostic.
pub open spec fn same_but_time(r1: DetectionResult, r2: DetectionResult) -> bool {
    &&& r1.noise_estimate_bits == r2.noise_estimate_bits
    &&& r1.background_estimate_bits == r2.background_estimate_bits
    &&& r1.hot_pixel_count == r2.hot_pixel_count
    &&& r1.peak_star_pixel == r2.peak_star_pixel
    &&& r1.star_candidates@ == r2.star_candidates@
    &&& r1.binned_image == r2.binned_image
}

/// The result is a function of the engine's report alone: two assemblies of
/// identical engine output, however far apart in time, yield results that
/// agree on everything but the elapsed-time diagnostic.
pub proof fn lemma_response_deterministic(
    eng1: EngineOutput,
    eng2: EngineOutput,
    t1: AlgorithmTime,
    t2: AlgorithmTime,
    r1: DetectionResult,
    r2: DetectionResult,
)
    requires
        eng1 == eng2,
        assembled(eng1, t1, r1),
        assembled(eng2, t2, r2),
    ensures
        same_but_time(r1, r2),
{
}

} // verus!

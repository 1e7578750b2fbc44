//! The per-call pipeline of the service runtime: the inbound request, the
//! validation cascade that turns it into an execution plan, the mapping of
//! the analysis outcome into the terminal status, and the lifecycle state
//! machine the runtime drives for each call.

use vstd::prelude::*;
use crate::binning::{resolve_binning, resolved_binning};
use crate::errors::{ServiceError, StatusKind, status_kind_of};
use crate::image_data::{RawImage, decode_image, dims_match};
use crate::region::{Region, region_in_bounds, validate_region};
use crate::response::{AlgorithmTime, DetectionResult, EngineOutput, assemble_response, assembled};

verus! {

/// The image payload of the inbound request as declared on the wire:
/// dimensions, the flat row-major byte buffer, and the handle fields of the
/// alternate shared-memory transfer path.
#[derive(Debug)]
pub struct ImageInput {
    pub width: i32,
    pub height: i32,
    pub data: Vec<u8>,
    pub shmem_name: Option<String>,
    pub reopen_shmem: bool,
}

/// One inbound detection request. The analysis parameters that this layer
/// never interprets (`sigma`, carried as an IEEE-754 bit pattern, and the
/// two boolean switches) pass through to the engine untouched.
#[derive(Debug)]
pub struct DetectionRequest {
    pub input_image: Option<ImageInput>,
    pub use_binned_for_star_candidates: bool,
    pub return_binned: bool,
    pub binning: Option<i32>,
    pub sigma_bits: u32,
    pub normalize_rows: bool,
    pub detect_hot_pixels: bool,
    pub estimate_background_region: Option<Region>,
}

/// Everything the analysis phase needs, with all validation already done:
/// the decoded image, the effective binning factor, the pass-through
/// parameters, and the background region if a valid one was supplied.
#[derive(Debug)]
pub struct ExecutionPlan {
    pub image: RawImage,
    pub binning: i32,
    pub sigma_bits: u32,
    pub normalize_rows: bool,
    pub detect_hot_pixels: bool,
    pub return_binned: bool,
    pub region: Option<Region>,
}

impl ExecutionPlan {
    /// What validation guarantees of every plan it hands out: a well-formed
    /// image, an effective binning factor of 1, 2 or 4, and a region that
    /// lies inside the image whenever one is present.
    pub open spec fn wf(&self) -> bool {
        &&& self.image.wf()
        &&& (self.binning == 1 || self.binning == 2 || self.binning == 4)
        &&& (self.region matches Some(r) ==> region_in_bounds(
            r,
            self.image.width as int,
            self.image.height as int,
        ))
    }
}

/// The plan that a request resolves to when every check passes: the image
/// decoded from `img`, the effective binning factor `b`, and the request's
/// pass-through fields unchanged.
pub open spec fn plan_of(req: DetectionRequest, img: ImageInput, b: i32) -> ExecutionPlan {
    ExecutionPlan {
        image: RawImage {
            width: img.width as u32,
            height: img.height as u32,
            pixels: img.data,
        },
        binning: b,
        sigma_bits: req.sigma_bits,
        normalize_rows: req.normalize_rows,
        detect_hot_pixels: req.detect_hot_pixels,
        return_binned: req.return_binned,
        region: req.estimate_background_region,
    }
}

/// The whole validation cascade, written out in the order the checks run:
/// a missing image, then the unsupported shared-memory path, then the
/// buffer-length check, then binning resolution, then the region bounds.
/// The first failing check decides the error; when none fails, the request
/// resolves to exactly `plan_of` its image and effective binning.
pub open spec fn prepared(req: DetectionRequest, r: Result<ExecutionPlan, ServiceError>) -> bool {
    match req.input_image {
        Option::None => r == Err::<ExecutionPlan, ServiceError>(ServiceError::MissingImage),
        Option::Some(img) => {
            if img.shmem_name is Some {
                r == Err::<ExecutionPlan, ServiceError>(ServiceError::SharedMemoryUnsupported)
            } else if !dims_match(img.width as int, img.height as int, img.data@.len() as int) {
                r == Err::<ExecutionPlan, ServiceError>(ServiceError::MalformedImage)
            } else {
                match resolved_binning(
                    req.use_binned_for_star_candidates,
                    req.return_binned,
                    req.binning,
                ) {
                    Result::Err(e) => r == Err::<ExecutionPlan, ServiceError>(e),
                    Result::Ok(b) => match req.estimate_background_region {
                        Option::Some(reg) => if !region_in_bounds(
                            reg,
                            img.width as int,
                            img.height as int,
                        ) {
                            r == Err::<ExecutionPlan, ServiceError>(ServiceError::InvalidRegion(reg))
                        } else {
                            r == Ok::<ExecutionPlan, ServiceError>(plan_of(req, img, b))
                        },
                        Option::None => r == Ok::<ExecutionPlan, ServiceError>(plan_of(req, img, b)),
                    },
                }
            }
        },
    }
}

/// Validates one inbound request and resolves it into an execution plan, or
/// refuses it with the first applicable error. No analysis work happens
/// here: a refused request has had no partial work done on its behalf.
pub fn prepare_request(req: DetectionRequest) -> (r: Result<ExecutionPlan, ServiceError>)
    ensures
        prepared(req, r),
        r matches Ok(plan) ==> plan.wf(),
{
    let DetectionRequest {
        input_image,
        use_binned_for_star_candidates,
        return_binned,
        binning,
        sigma_bits,
        normalize_rows,
        detect_hot_pixels,
        estimate_background_region,
    } = req;
    let img = match input_image {
        Option::None => {
            return Err(ServiceError::MissingImage);
        },
        Option::Some(i) => i,
    };
    if img.shmem_name.is_some() {
        return Err(ServiceError::SharedMemoryUnsupported);
    }
    let ImageInput { width, height, data, shmem_name: _, reopen_shmem: _ } = img;
    let image = match decode_image(width, height, data) {
        Result::Err(e) => {
            return Err(e);
        },
        Result::Ok(image) => image,
    };
    let effective_binning = match resolve_binning(
        use_binned_for_star_candidates,
        return_binned,
        binning,
    ) {
        Result::Err(e) => {
            return Err(e);
        },
        Result::Ok(b) => b,
    };
    let region = match estimate_background_region {
        Option::None => Option::None,
        Option::Some(reg) => match validate_region(reg, image.width, image.height) {
            Result::Err(e) => {
                return Err(e);
            },
            Result::Ok(checked) => Option::Some(checked),
        },
    };
    Ok(
        ExecutionPlan {
            image,
            binning: effective_binning,
            sigma_bits,
            normalize_rows,
            detect_hot_pixels,
            return_binned,
            region,
        },
    )
}

/// Maps the outcome of the analysis phase to the call's terminal status:
/// a completed analysis is assembled into the full result, a failed engine
/// surfaces as the engine-failure error with no retry.
pub fn complete_call(outcome: Option<EngineOutput>, algorithm_time: AlgorithmTime) -> (r: Result<
    DetectionResult,
    ServiceError,
>)
    ensures
        outcome is None ==> r == Err::<DetectionResult, ServiceError>(ServiceError::EngineFailed),
        outcome matches Some(eng) ==> (r matches Ok(res) && assembled(eng, algorithm_time, res)),
{
    match outcome {
        Option::None => Err(ServiceError::EngineFailed),
        Option::Some(eng) => Ok(assemble_response(eng, algorithm_time)),
    }
}

/// The lifecycle of one inbound call as the runtime drives it.
#[derive(Clone, Copy, Debug, PartialEq, Eq, Structural)]
pub enum CallPhase {
    Received,
    Validating,
    Analyzing,
    Assembling,
    Responded,
    Rejected,
    Failed,
}

/// The events the runtime reports to the per-call state machine.
#[derive(Clone, Copy, Debug, PartialEq, Eq, Structural)]
pub enum CallEvent {
    ValidationStarted,
    ValidationPassed,
    ValidationFailed,
    AnalysisCompleted,
    AnalysisFailed,
    ResponseBuilt,
}

/// The legal transitions of a call's lifecycle: validation either admits a
/// call to analysis or rejects it, analysis either reaches assembly or
/// fails, and assembly ends in the response. Anything else is refused.
pub open spec fn next_phase(phase: CallPhase, event: CallEvent) -> Option<CallPhase> {
    match (phase, event) {
        (CallPhase::Received, CallEvent::ValidationStarted) => Some(CallPhase::Validating),
        (CallPhase::Validating, CallEvent::ValidationPassed) => Some(CallPhase::Analyzing),
        (CallPhase::Validating, CallEvent::ValidationFailed) => Some(CallPhase::Rejected),
        (CallPhase::Analyzing, CallEvent::AnalysisCompleted) => Some(CallPhase::Assembling),
        (CallPhase::Analyzing, CallEvent::AnalysisFailed) => Some(CallPhase::Failed),
        (CallPhase::Assembling, CallEvent::ResponseBuilt) => Some(CallPhase::Responded),
        _ => None,
    }
}

/// A phase from which the call never moves again: it has been answered,
/// rejected, or has failed.
pub open spec fn is_terminal(phase: CallPhase) -> bool {
    phase == CallPhase::Responded || phase == CallPhase::Rejected || phase == CallPhase::Failed
}

/// Advances the per-call state machine by one reported event, or refuses an
/// event that the current phase does not admit.
pub fn advance_call(phase: CallPhase, event: CallEvent) -> (r: Option<CallPhase>)
    ensures
        r == next_phase(phase, event),
        r matches Some(p) ==> !is_terminal(phase),
{
    match (phase, event) {
        (CallPhase::Received, CallEvent::ValidationStarted) => Some(CallPhase::Validating),
        (CallPhase::Validating, CallEvent::ValidationPassed) => Some(CallPhase::Analyzing),
        (CallPhase::Validating, CallEvent::ValidationFailed) => Some(CallPhase::Rejected),
        (CallPhase::Analyzing, CallEvent::AnalysisCompleted) => Some(CallPhase::Assembling),
        (CallPhase::Analyzing, CallEvent::AnalysisFailed) => Some(CallPhase::Failed),
        (CallPhase::Assembling, CallEvent::ResponseBuilt) => Some(CallPhase::Responded),
        _ => None,
    }
}

/// Once a call has reached a terminal phase, no event moves it anywhere:
/// the state machine of an answered call is over.
pub proof fn lemma_terminal_phase_absorbs(phase: CallPhase, event: CallEvent)
    requires
        is_terminal(phase),
    ensures
        next_phase(phase, event) is None,
{
}

/// The invocation contract with the detection engine: for a given plan the
/// engine hands back a background estimate exactly when the plan carries a
/// validated region, and a binned image exactly when the request asked for
/// the binned image back.
pub open spec fn engine_report_matches_plan(plan: ExecutionPlan, eng: EngineOutput) -> bool {
    &&& (eng.background_estimate_bits is Some <==> plan.region is Some)
    &&& (eng.binned_image is Some <==> plan.return_binned)
}

/// Under the engine's invocation contract, the optional response fields are
/// present exactly as the request determined: a background estimate iff a
/// validated region was supplied, a binned image iff one was requested.
pub proof fn lemma_optional_fields_follow_request(
    plan: ExecutionPlan,
    eng: EngineOutput,
    time: AlgorithmTime,
    r: DetectionResult,
)
    requires
        engine_report_matches_plan(plan, eng),
        assembled(eng, time, r),
    ensures
        r.background_estimate_bits is Some <==> plan.region is Some,
        r.binned_image is Some <==> plan.return_binned,
{
}

/// Validation refusals are decided before any analysis runs: a refused
/// request never reports an engine failure, and every refusal apart from
/// the unsupported shared-memory path is the caller's to correct.
pub proof fn lemma_rejection_taxonomy(req: DetectionRequest, e: ServiceError)
    requires
        prepared(req, Err(e)),
    ensures
        e != ServiceError::EngineFailed,
        e != ServiceError::SharedMemoryUnsupported ==> status_kind_of(e)
            == StatusKind::InvalidArgument,
{
}

/// Validation is a function of the request alone: two outcomes that both
/// satisfy the validation cascade for the same request are the same
/// outcome. Together with the response-assembly law, a repeated identical
/// request against a deterministic engine yields an identical result apart
/// from the elapsed-time diagnostic.
pub proof fn lemma_prepare_deterministic(
    req: DetectionRequest,
    r1: Result<ExecutionPlan, ServiceError>,
    r2: Result<ExecutionPlan, ServiceError>,
)
    requires
        prepared(req, r1),
        prepared(req, r2),
    ensures
        r1 == r2,
{
}

} // verus!

//! Quality tiers, feature flags, and the result codes of NGX.

use crate::config::{DlssFeatureFlags, DlssPerfQualityMode, PerfQualityValue};
use crate::laws::upscaling::is_tier_of;
use crate::nvsdk_ngx::{check_ngx_result, DlssError};
use crate::vector::UVec2;
use vstd::prelude::*;

verus! {

/// A fixed mode is its tier whatever the output is; the automatic one goes by the number of pixels.
pub proof fn modes_have_their_tiers(
    mode: DlssPerfQualityMode,
    upscaled: UVec2,
    tier: PerfQualityValue,
)
    requires
        call_ensures(DlssPerfQualityMode::as_perf_quality_value, (&mode, upscaled), tier),
    ensures
        is_tier_of(mode, upscaled.x * upscaled.y, tier),
{
}

/// NGX gets every flag but the output subrect, a set contains another exactly when no flag of the
/// other is missing from it, and a union has the flags of both sides and no others.
pub proof fn flags_reach_ngx_but_for_the_subrect(
    flags: DlssFeatureFlags,
    other: DlssFeatureFlags,
    ngx: i32,
    contained: bool,
    both: DlssFeatureFlags,
)
    requires
        call_ensures(DlssFeatureFlags::as_flags, (&flags,), ngx),
        call_ensures(DlssFeatureFlags::contains, (&flags, other), contained),
        call_ensures(DlssFeatureFlags::union, (&flags, other), both),
    ensures
        ngx & 256 == 0,
        ngx | (flags.bits & 256) == flags.bits,
        contained <==> other.bits & !flags.bits == 0,
        both.bits & !(flags.bits | other.bits) == 0,
        flags.bits & !both.bits == 0,
        other.bits & !both.bits == 0,
{
    crate::config::output_subrect_never_reaches_ngx(flags);
    let a = flags.bits;
    let b = other.bits;
    assert((a & b == b) == (b & !a == 0)) by (bit_vector);
    assert({
        &&& (a | b) & !(a | b) == 0
        &&& a & !(a | b) == 0
        &&& b & !(a | b) == 0
    }) by (bit_vector);
}

/// NGX reports success as one and its named failures as the codes that follow `0xBAD00000`. Each
/// becomes the error of its name, and any other code is carried along.
pub proof fn result_codes_become_their_errors(result: i32, outcome: Result<(), DlssError>)
    requires
        call_ensures(check_ngx_result, (result,), outcome),
    ensures
        outcome is Ok <==> result == 1,
        outcome matches Err(e) ==> {
            let n = result - (-1160773632);
            &&& e == DlssError::FeatureNotSupported <==> n == 1
            &&& e == DlssError::PlatformError <==> n == 2
            &&& e == DlssError::FeatureAlreadyExists <==> n == 3
            &&& e == DlssError::FeatureNotFound <==> n == 4
            &&& e == DlssError::InvalidParameters <==> n == 5
            &&& e == DlssError::ScratchBufferTooSmall <==> n == 6
            &&& e == DlssError::NotInitialized <==> n == 7
            &&& e == DlssError::UnsupportedInputFormat <==> n == 8
            &&& e == DlssError::RWFlagMissing <==> n == 9
            &&& e == DlssError::MissingInput <==> n == 10
            &&& e == DlssError::UnableToInitializeFeature <==> n == 11
            &&& e == DlssError::OutOfDate <==> n == 12
            &&& e == DlssError::OutOfGPUMemory <==> n == 13
            &&& e == DlssError::UnsupportedFormat <==> n == 14
            &&& e == DlssError::UnableToWriteToAppDataPath <==> n == 15
            &&& e == DlssError::UnsupportedParameter <==> n == 16
            &&& e == DlssError::Denied <==> n == 17
            &&& e == DlssError::NotImplemented <==> n == 18
            &&& e is Other <==> !(1 <= n <= 18)
            &&& e matches DlssError::Other(code) ==> code == result
        },
{
}

/// Where NGX fails, the caller is told why: every operation reports a failing code as the error that
/// the code stands for.
pub proof fn operations_report_why_ngx_failed(
    result: i32,
    error: DlssError,
    context: crate::context::DlssContext,
    evaluated: Result<Vec<crate::ngx_feature::EvaluationEncoder>, DlssError>,
    reconstruction: crate::ray_reconstruction::DlssRayReconstructionContext,
    reconstructed: Result<Vec<crate::ngx_feature::EvaluationEncoder>, DlssError>,
    handle: u64,
    call: crate::context::DlssCreateCall,
    created: Result<crate::context::DlssContext, DlssError>,
    reconstruction_call: crate::ray_reconstruction::RayReconstructionCreateCall,
    reconstruction_created: Result<
        crate::ray_reconstruction::DlssRayReconstructionContext,
        DlssError,
    >,
    resolutions: crate::ngx_feature::Resolutions,
    feature: Result<crate::ngx_feature::NgxFeature, DlssError>,
    sdk: crate::sdk::DlssSdk,
    bytes: u64,
    memory: Result<u64, DlssError>,
)
    requires
        call_ensures(check_ngx_result, (result,), Err(error)),
        call_ensures(
            crate::ngx_feature::NgxFeature::create,
            (resolutions, Some(crate::ngx_feature::FeatureReply { result, handle })),
            feature,
        ),
        call_ensures(crate::sdk::DlssSdk::vram_allocated_bytes, (&sdk, result, bytes), memory),
        call_ensures(
            crate::context::DlssContext::evaluated,
            (&context, Some(result)),
            evaluated,
        ),
        call_ensures(
            crate::ray_reconstruction::DlssRayReconstructionContext::evaluated,
            (&reconstruction, Some(result)),
            reconstructed,
        ),
        call_ensures(
            crate::context::DlssContext::created,
            (&call, Some(crate::ngx_feature::FeatureReply { result, handle })),
            created,
        ),
        call_ensures(
            crate::ray_reconstruction::DlssRayReconstructionContext::created,
            (&reconstruction_call, Some(crate::ngx_feature::FeatureReply { result, handle })),
            reconstruction_created,
        ),
    ensures
        feature == Err::<crate::ngx_feature::NgxFeature, DlssError>(error),
        memory == Err::<u64, DlssError>(error),
        evaluated == Err::<Vec<crate::ngx_feature::EvaluationEncoder>, DlssError>(error),
        reconstructed == Err::<Vec<crate::ngx_feature::EvaluationEncoder>, DlssError>(error),
        created == Err::<crate::context::DlssContext, DlssError>(error),
        reconstruction_created == Err::<
            crate::ray_reconstruction::DlssRayReconstructionContext,
            DlssError,
        >(error),
{
}

/// A settings query that NGX refuses ends a creation with the error that the code stands for.
pub proof fn creations_report_why_ngx_refused(
    settings: crate::ngx_feature::OptimalSettings,
    error: DlssError,
    creation: crate::context::DlssContextCreation,
    call: Result<crate::context::DlssCreateCall, DlssError>,
    reconstruction: crate::ray_reconstruction::RayReconstructionCreation,
    reconstruction_call: Result<crate::ray_reconstruction::RayReconstructionCreateCall, DlssError>,
    upscaled: UVec2,
    mode: DlssPerfQualityMode,
    settled: Result<crate::ngx_feature::Resolutions, DlssError>,
)
    requires
        call_ensures(check_ngx_result, (settings.result,), Err(error)),
        call_ensures(
            crate::context::DlssContextCreation::create_call,
            (&creation, settings),
            call,
        ),
        call_ensures(
            crate::ray_reconstruction::RayReconstructionCreation::create_call,
            (&reconstruction, settings),
            reconstruction_call,
        ),
        call_ensures(
            crate::ngx_feature::Resolutions::settle,
            (upscaled, mode, settings),
            settled,
        ),
    ensures
        call == Err::<crate::context::DlssCreateCall, DlssError>(error),
        reconstruction_call == Err::<
            crate::ray_reconstruction::RayReconstructionCreateCall,
            DlssError,
        >(error),
        settled == Err::<crate::ngx_feature::Resolutions, DlssError>(error),
{
}

} // verus!

//! Ray Reconstruction.

use crate::config::{DepthType, DlssFeatureFlags, DlssPerfQualityMode, RoughnessMode};
use crate::jitter::Jitter;
use crate::laws::upscaling::{are_resolutions_for, is_tier_of};
use crate::ngx_feature::{
    EvaluationEncoder, FeatureReply, OptimalSettings, ReleaseStep, ResolutionRange, SettingsQuery,
};
use crate::nvsdk_ngx::{DlssError, NgxResult};
use crate::ray_reconstruction::{
    DlssRayReconstructionContext, DlssRayReconstructionParameters, PresetHint,
    RayReconstructionCreateCall, RayReconstructionCreation, RayReconstructionEvaluation,
    RenderPreset,
};
use crate::render_parameters::{TextureTransition, TextureUses};
use crate::vector::UVec2;
use vstd::prelude::*;

verus! {

/// Whether every resource that NGX requires is there: all but the roughness.
pub open spec fn has_required_resources<T>(p: DlssRayReconstructionParameters<T>) -> bool {
    &&& p.color.resource is Some && p.color.resource != Some(0u64)
    &&& p.diffuse_albedo.resource is Some && p.diffuse_albedo.resource != Some(0u64)
    &&& p.specular_albedo.resource is Some && p.specular_albedo.resource != Some(0u64)
    &&& p.normals.resource is Some && p.normals.resource != Some(0u64)
    &&& p.depth.resource is Some && p.depth.resource != Some(0u64)
    &&& p.motion_vectors.resource is Some && p.motion_vectors.resource != Some(0u64)
    &&& p.output.resource is Some && p.output.resource != Some(0u64)
}

/// A frame is reconstructed exactly when every required resource is there. NGX is then handed each
/// of them, and each of the other parameters, for what it is and whatever the others are.
pub proof fn reconstruction_hands_each_input_to_ngx<T: Copy>(
    context: DlssRayReconstructionContext,
    p: DlssRayReconstructionParameters<T>,
    outcome: Result<RayReconstructionEvaluation<T>, DlssError>,
)
    requires
        call_ensures(DlssRayReconstructionContext::render::<T>, (&context, p), outcome),
    ensures
        outcome is Ok <==> has_required_resources(p),
        outcome matches Err(e) ==> e == DlssError::MissingInput,
        outcome matches Ok(evaluation) ==> {
            let eval = evaluation.eval;
            &&& p.color.resource == Some(eval.color)
            &&& p.diffuse_albedo.resource == Some(eval.diffuse_albedo)
            &&& p.specular_albedo.resource == Some(eval.specular_albedo)
            &&& p.normals.resource == Some(eval.normals)
            &&& p.roughness.resource is Some ==> p.roughness.resource == Some(eval.roughness)
            &&& p.roughness.resource is None ==> eval.roughness == 0
            &&& p.depth.resource == Some(eval.depth)
            &&& p.motion_vectors.resource == Some(eval.motion_vectors)
            &&& p.output.resource == Some(eval.output)
            &&& eval.jitter_offset.x == p.jitter_offset.x
            &&& eval.jitter_offset.y == p.jitter_offset.y
            &&& p.reset ==> eval.reset == 1
            &&& !p.reset ==> eval.reset == 0
            &&& p.partial_texture_size is Some ==> p.partial_texture_size == Some(
                eval.render_subrect,
            )
            &&& p.partial_texture_size is None ==> eval.render_subrect
                == context.feature.resolutions.max
            &&& p.motion_vector_scale is Some ==> p.motion_vector_scale == Some(
                eval.motion_vector_scale,
            )
            &&& p.motion_vector_scale is None ==> eval.motion_vector_scale.x.bits == 0x3f80_0000
                && eval.motion_vector_scale.y.bits == 0x3f80_0000
        },
{
}

/// Whether these are the transitions of a reconstruction: the seven inputs, and then the output.
pub open spec fn are_reconstruction_transitions<T>(
    p: DlssRayReconstructionParameters<T>,
    list: Seq<TextureTransition<T>>,
) -> bool {
    &&& list.len() == 8
    &&& list[0].texture == p.color.texture
    &&& list[1].texture == p.diffuse_albedo.texture
    &&& list[2].texture == p.specular_albedo.texture
    &&& list[3].texture == p.normals.texture
    &&& list[4].texture == p.roughness.texture
    &&& list[5].texture == p.depth.texture
    &&& list[6].texture == p.motion_vectors.texture
    &&& list[7].texture == p.output.texture
    &&& list[7].state == TextureUses::StorageReadWrite
    &&& forall|i: int| 0 <= i < 7 ==> (#[trigger] list[i]).state == TextureUses::Resource
}

/// Before a reconstruction every input is made readable and the output writable, in that order.
pub proof fn reconstruction_brings_its_textures_into_state<T: Copy>(
    context: DlssRayReconstructionContext,
    p: DlssRayReconstructionParameters<T>,
    evaluation: RayReconstructionEvaluation<T>,
    list: Vec<TextureTransition<T>>,
    valid: Result<(), DlssError>,
)
    requires
        call_ensures(DlssRayReconstructionContext::render::<T>, (&context, p), Ok(evaluation)),
        call_ensures(DlssRayReconstructionParameters::<T>::barrier_list, (&p,), list),
        call_ensures(DlssRayReconstructionParameters::<T>::validate, (&p,), valid),
    ensures
        are_reconstruction_transitions(p, evaluation.transitions@),
        are_reconstruction_transitions(p, list@),
        valid is Ok <==> has_required_resources(p),
        valid matches Err(e) ==> e == DlssError::MissingInput,
{
}

/// A context is created as its caller asked: NGX is told how roughness and depth are supplied, is
/// queried and created for that output and tier, at the resolution that it recommended, and always
/// has HDR color and low-resolution motion vectors beside the caller's flags.
pub proof fn reconstruction_is_created_as_asked(
    upscaled: UVec2,
    mode: DlssPerfQualityMode,
    roughness_mode: RoughnessMode,
    depth_type: DepthType,
    flags: DlssFeatureFlags,
    creation: RayReconstructionCreation,
    query: SettingsQuery,
    settings: OptimalSettings,
    outcome: Result<RayReconstructionCreateCall, DlssError>,
)
    requires
        call_ensures(
            DlssRayReconstructionContext::new,
            (upscaled, mode, roughness_mode, depth_type, flags),
            creation,
        ),
        call_ensures(RayReconstructionCreation::settings_query, (&creation,), query),
        call_ensures(RayReconstructionCreation::create_call, (&creation, settings), outcome),
    ensures
        query.upscaled == upscaled,
        is_tier_of(mode, upscaled.x * upscaled.y, query.perf_quality),
        outcome is Ok <==> settings.result == 1,
        outcome matches Ok(call) ==> {
            &&& call.params.roughness_mode == roughness_mode
            &&& call.params.depth_type == depth_type
            &&& are_resolutions_for(upscaled, mode, settings, call.resolutions)
            &&& call.params.render == call.resolutions.optimal
            &&& call.params.target == upscaled
            &&& is_tier_of(mode, upscaled.x * upscaled.y, call.params.perf_quality)
            &&& call.params.feature_create_flags & 3 == 3
            &&& call.params.feature_create_flags & 256 == 0
            &&& call.params.feature_create_flags | (flags.bits & 256) == flags.bits | 3
            &&& call.params.enable_output_subrects <==> flags.bits & 256 != 0
        },
{
    let b = flags.bits;
    assert({
        let all = (b | 1i32) | 2i32;
        &&& (all & !256i32) & 3i32 == 3i32
        &&& (all & !256i32) & 256i32 == 0
        &&& (all & !256i32) | (b & 256i32) == b | 3i32
        &&& (all & 256i32 == 256i32 <==> b & 256i32 != 0)
    }) by (bit_vector);
}

/// Whatever is created, each creation parameter follows its own part of the creation.
pub proof fn creation_parameters_follow_the_creation(
    creation: RayReconstructionCreation,
    settings: OptimalSettings,
    call: RayReconstructionCreateCall,
)
    requires
        call_ensures(RayReconstructionCreation::create_call, (&creation, settings), Ok(call)),
    ensures
        call.params.roughness_mode == creation.roughness_mode,
        call.params.depth_type == creation.depth_type,
        call.params.target == creation.upscaled_resolution,
        call.params.render == call.resolutions.optimal,
        is_tier_of(
            creation.perf_quality_mode,
            creation.upscaled_resolution.x * creation.upscaled_resolution.y,
            call.params.perf_quality,
        ),
        are_resolutions_for(
            creation.upscaled_resolution,
            creation.perf_quality_mode,
            settings,
            call.resolutions,
        ),
        call.params.feature_create_flags & 256 == 0,
        call.params.feature_create_flags | (creation.feature_flags.bits & 256)
            == creation.feature_flags.bits,
        call.params.enable_output_subrects <==> creation.feature_flags.bits & 256 != 0,
{
    crate::config::output_subrect_never_reaches_ngx(creation.feature_flags);
    let b = creation.feature_flags.bits;
    assert(b & 256i32 == 256i32 <==> b & 256i32 != 0) by (bit_vector);
}

/// The caller's roughness mode, depth type, output, mode and flags are all kept by the creation, and
/// two flags are added.
pub proof fn a_creation_keeps_what_the_caller_chose(
    upscaled: UVec2,
    mode: DlssPerfQualityMode,
    roughness_mode: RoughnessMode,
    depth_type: DepthType,
    flags: DlssFeatureFlags,
    creation: RayReconstructionCreation,
)
    requires
        call_ensures(
            DlssRayReconstructionContext::new,
            (upscaled, mode, roughness_mode, depth_type, flags),
            creation,
        ),
    ensures
        creation.upscaled_resolution == upscaled,
        creation.perf_quality_mode == mode,
        creation.roughness_mode == roughness_mode,
        creation.depth_type == depth_type,
        creation.feature_flags.bits == flags.bits | 3,
{
    let b = flags.bits;
    assert((b | 1i32) | 2i32 == b | 3i32) by (bit_vector);
}

/// A preset is hinted for every quality mode, once, and always the same one.
pub proof fn every_mode_is_hinted_once(
    creation: RayReconstructionCreation,
    settings: OptimalSettings,
    call: RayReconstructionCreateCall,
    hint: PresetHint,
)
    requires
        call_ensures(RayReconstructionCreation::create_call, (&creation, settings), Ok(call)),
    ensures
        call.preset_hints@.contains((hint, RenderPreset::D)),
        call.preset_hints.len() == 6,
        call.preset_hints[0] == (PresetHint::Dlaa, RenderPreset::D),
        call.preset_hints[1] == (PresetHint::Quality, RenderPreset::D),
        call.preset_hints[2] == (PresetHint::Balanced, RenderPreset::D),
        call.preset_hints[3] == (PresetHint::Performance, RenderPreset::D),
        call.preset_hints[4] == (PresetHint::UltraPerformance, RenderPreset::D),
        call.preset_hints[5] == (PresetHint::UltraQuality, RenderPreset::D),
        forall|i: int, j: int|
            0 <= i < j < 6 ==> (#[trigger] call.preset_hints[i]).0 != (
            #[trigger] call.preset_hints[j]).0,
{
    crate::ray_reconstruction::every_quality_mode_is_pinned(hint);
}

/// A context exists exactly when NGX created its feature. It then has NGX's handle, and tells its
/// caller the resolutions that NGX was created with.
pub proof fn a_reconstruction_context_reports_what_it_was_created_with(
    call: RayReconstructionCreateCall,
    reply: Option<FeatureReply>,
    outcome: Result<DlssRayReconstructionContext, DlssError>,
    upscaled: UVec2,
    render: UVec2,
    range: ResolutionRange,
    steps: Vec<ReleaseStep>,
)
    requires
        call_ensures(DlssRayReconstructionContext::created, (&call, reply), outcome),
        outcome matches Ok(context) ==> {
            &&& call_ensures(
                DlssRayReconstructionContext::upscaled_resolution,
                (&context,),
                upscaled,
            )
            &&& call_ensures(DlssRayReconstructionContext::render_resolution, (&context,), render)
            &&& call_ensures(
                DlssRayReconstructionContext::render_resolution_range,
                (&context,),
                range,
            )
            &&& call_ensures(DlssRayReconstructionContext::release, (&context,), steps)
        },
    ensures
        outcome is Ok <==> reply is Some && reply->0.result == 1,
        reply is None ==> outcome == Err::<DlssRayReconstructionContext, DlssError>(
            DlssError::FeatureNotSupported,
        ),
        outcome matches Ok(context) ==> {
            &&& context.feature.feature == reply->0.handle
            &&& context.feature.resolutions == call.resolutions
            &&& upscaled == call.resolutions.upscaled
            &&& render == call.resolutions.optimal
            &&& range.min == call.resolutions.min
            &&& range.max == call.resolutions.max
            &&& steps.len() == 2
            &&& steps[0] == ReleaseStep::WaitForGpu
            &&& steps[1] == ReleaseStep::ReleaseFeature(reply->0.handle)
        },
{
}

/// The transitions are submitted before the evaluation, and nothing is submitted unless NGX accepted
/// the evaluation. The jitter is the one that Super Resolution suggests.
pub proof fn reconstructions_are_submitted_after_their_transitions(
    context: DlssRayReconstructionContext,
    reply: Option<NgxResult>,
    outcome: Result<Vec<EvaluationEncoder>, DlssError>,
    frame_number: u32,
    resolution: UVec2,
    suggested: Jitter,
    bare: Jitter,
)
    requires
        call_ensures(DlssRayReconstructionContext::evaluated, (&context, reply), outcome),
        call_ensures(
            DlssRayReconstructionContext::suggested_jitter,
            (&context, frame_number, resolution),
            suggested,
        ),
        call_ensures(
            crate::jitter::suggested_jitter,
            (frame_number, context.feature.resolutions.upscaled.x, resolution.x),
            bare,
        ),
    ensures
        outcome is Ok <==> reply == Some(1i32),
        outcome matches Ok(order) ==> order.len() == 2 && order[0] == EvaluationEncoder::Transitions
            && order[1] == EvaluationEncoder::Evaluate,
        reply is None ==> outcome == Err::<Vec<EvaluationEncoder>, DlssError>(
            DlssError::FeatureNotSupported,
        ),
        suggested == bare,
{
}

} // verus!

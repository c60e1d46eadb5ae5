//! Super Resolution.

use crate::config::{DlssFeatureFlags, DlssPerfQualityMode, PerfQualityValue};
use crate::context::{DlssContext, DlssContextCreation, DlssCreateCall, DlssEvaluation};
use crate::jitter::{halton_sequence, Fraction, Jitter};
use crate::ngx_feature::{
    EvaluationEncoder, FeatureReply, NgxFeature, OptimalSettings, ReleaseStep, ResolutionRange,
    Resolutions, SettingsQuery,
};
use crate::nvsdk_ngx::{DlssError, NgxResult};
use crate::render_parameters::{
    barrier_slots, BarrierSlot, DlssExposure, DlssRenderParameters, DlssTexture, TextureTransition,
    TextureUses,
};
use crate::vector::UVec2;
use vstd::prelude::*;

verus! {

/// A frame is upscaled exactly when color, depth, motion vectors and output each have a resource.
/// NGX is then handed each of them, and each of the other parameters, for what it is and whatever
/// the others are: the jitter by its axes, the history reset exactly when asked, the subrect or else
/// the largest render resolution, the motion-vector scale or else one.
pub proof fn upscaling_hands_each_input_to_ngx<T: Copy>(
    context: DlssContext,
    p: DlssRenderParameters<T>,
    outcome: Result<DlssEvaluation<T>, DlssError>,
)
    requires
        call_ensures(DlssContext::render::<T>, (&context, p), outcome),
    ensures
        outcome is Ok <==> {
            &&& p.color.resource is Some && p.color.resource != Some(0u64)
            &&& p.depth.resource is Some && p.depth.resource != Some(0u64)
            &&& p.motion_vectors.resource is Some && p.motion_vectors.resource != Some(0u64)
            &&& p.dlss_output.resource is Some && p.dlss_output.resource != Some(0u64)
        },
        outcome matches Err(e) ==> e == DlssError::MissingInput,
        outcome matches Ok(evaluation) ==> {
            let eval = evaluation.eval;
            &&& p.color.resource == Some(eval.color)
            &&& p.depth.resource == Some(eval.depth)
            &&& p.motion_vectors.resource == Some(eval.motion_vectors)
            &&& p.dlss_output.resource == Some(eval.output)
            &&& eval.jitter_offset.x == p.jitter_offset.x
            &&& eval.jitter_offset.y == p.jitter_offset.y
            &&& p.reset ==> eval.reset == 1
            &&& !p.reset ==> eval.reset == 0
            &&& p.partial_texture_size is Some ==> p.partial_texture_size == Some(
                eval.render_subrect,
            )
            &&& p.partial_texture_size is None ==> eval.render_subrect
                == context.feature.resolutions.max
            &&& p.motion_vector_scale is Some ==> p.motion_vector_scale == Some(
                eval.motion_vector_scale,
            )
            &&& p.motion_vector_scale is None ==> eval.motion_vector_scale.x.bits == 0x3f80_0000
                && eval.motion_vector_scale.y.bits == 0x3f80_0000
        },
{
}

/// NGX is handed the exposure of the application where it is manual, with a scale of one and no
/// pre-exposure unless it says otherwise, and no exposure at all where it is automatic. The bias mask
/// is handed on where there is one. Neither depends on the other.
pub proof fn upscaling_hands_exposure_and_bias_to_ngx<T: Copy>(
    context: DlssContext,
    p: DlssRenderParameters<T>,
    evaluation: DlssEvaluation<T>,
)
    requires
        call_ensures(DlssContext::render::<T>, (&context, p), Ok(evaluation)),
    ensures
        ({
            let eval = evaluation.eval;
            &&& p.exposure matches DlssExposure::Manual { exposure, exposure_scale, pre_exposure }
                ==> {
                &&& exposure.resource is Some ==> exposure.resource == Some(eval.exposure_texture)
                &&& exposure.resource is None ==> eval.exposure_texture == 0
                &&& exposure_scale is Some ==> exposure_scale == Some(eval.exposure_scale)
                &&& exposure_scale is None ==> eval.exposure_scale.bits == 0x3f80_0000
                &&& pre_exposure is Some ==> pre_exposure == Some(eval.pre_exposure)
                &&& pre_exposure is None ==> eval.pre_exposure.bits == 0
            }
            &&& p.exposure is Automatic ==> {
                &&& eval.exposure_texture == 0
                &&& eval.exposure_scale.bits == 0
                &&& eval.pre_exposure.bits == 0
            }
            &&& p.bias matches Some(bias) ==> {
                &&& bias.resource is Some ==> bias.resource == Some(eval.bias_mask)
                &&& bias.resource is None ==> eval.bias_mask == 0
            }
            &&& p.bias is None ==> eval.bias_mask == 0
        }),
{
}

/// Before an upscaling every texture that NGX reads is made readable and the output writable, in
/// that order, and no other texture is touched.
pub proof fn upscaling_brings_its_textures_into_state<T: Copy>(
    context: DlssContext,
    p: DlssRenderParameters<T>,
    evaluation: DlssEvaluation<T>,
)
    requires
        call_ensures(DlssContext::render::<T>, (&context, p), Ok(evaluation)),
    ensures
        are_upscaling_transitions(p, evaluation.transitions@),
{
    broadcast use vstd::seq_lib::group_seq_properties;

    assert(are_upscaling_transitions(p, evaluation.transitions@));
}

/// Whether these are the transitions of an upscaling: color, depth and motion vectors, the manual
/// exposure and the bias mask where there are any, and the output.
pub open spec fn are_upscaling_transitions<T: Copy>(
    p: DlssRenderParameters<T>,
    list: Seq<TextureTransition<T>>,
) -> bool {
    let extra: int = if p.exposure is Manual {
        1
    } else {
        0
    };
    let masks: int = if p.bias is Some {
        1
    } else {
        0
    };
    &&& list.len() == 4 + extra + masks
    &&& list[0].texture == p.color.texture
    &&& list[1].texture == p.depth.texture
    &&& list[2].texture == p.motion_vectors.texture
    &&& p.exposure matches DlssExposure::Manual { exposure, .. } ==> list[3].texture
        == exposure.texture
    &&& p.bias matches Some(bias) ==> list[3 + extra].texture == bias.texture
    &&& list[3 + extra + masks].texture == p.dlss_output.texture
    &&& list[3 + extra + masks].state == TextureUses::StorageReadWrite
    &&& list[0].state == TextureUses::Resource
    &&& list[1].state == TextureUses::Resource
    &&& list[2].state == TextureUses::Resource
    &&& extra == 1 ==> list[3].state == TextureUses::Resource
    &&& masks == 1 ==> list[3 + extra].state == TextureUses::Resource
}

/// Parameters are accepted, and bring their textures into state, on their own as they do within an
/// upscaling.
pub proof fn parameters_are_validated_as_in_an_upscaling<T: Copy>(
    p: DlssRenderParameters<T>,
    valid: Result<(), DlssError>,
    list: Vec<TextureTransition<T>>,
    texture: DlssTexture<T>,
    raw: u64,
)
    requires
        call_ensures(DlssRenderParameters::<T>::validate, (&p,), valid),
        call_ensures(DlssRenderParameters::<T>::barrier_list, (&p,), list),
        call_ensures(DlssTexture::<T>::raw, (&texture,), raw),
    ensures
        valid is Ok <==> {
            &&& p.color.resource is Some && p.color.resource != Some(0u64)
            &&& p.depth.resource is Some && p.depth.resource != Some(0u64)
            &&& p.motion_vectors.resource is Some && p.motion_vectors.resource != Some(0u64)
            &&& p.dlss_output.resource is Some && p.dlss_output.resource != Some(0u64)
        },
        valid matches Err(e) ==> e == DlssError::MissingInput,
        are_upscaling_transitions(p, list@),
        texture.resource is Some ==> texture.resource == Some(raw),
        texture.resource is None ==> raw == 0,
{
}

/// The slots of the transitions: three inputs, exposure and bias where there are any, the output
/// last and alone writable.
pub proof fn slots_are_the_inputs_and_then_the_output(
    manual_exposure: bool,
    has_bias: bool,
    slots: Vec<(BarrierSlot, TextureUses)>,
)
    requires
        call_ensures(barrier_slots, (manual_exposure, has_bias), slots),
    ensures
        ({
            let extra: int = if manual_exposure {
                1
            } else {
                0
            };
            let masks: int = if has_bias {
                1
            } else {
                0
            };
            &&& slots.len() == 4 + extra + masks
            &&& slots[0] == (BarrierSlot::Color, TextureUses::Resource)
            &&& slots[1] == (BarrierSlot::Depth, TextureUses::Resource)
            &&& slots[2] == (BarrierSlot::MotionVectors, TextureUses::Resource)
            &&& manual_exposure ==> slots[3] == (BarrierSlot::Exposure, TextureUses::Resource)
            &&& has_bias ==> slots[3 + extra] == (BarrierSlot::Bias, TextureUses::Resource)
            &&& slots[3 + extra + masks] == (BarrierSlot::Output, TextureUses::StorageReadWrite)
        }),
{
}

/// The tier that stands for a mode, for an output of so many pixels.
pub open spec fn is_tier_of(
    mode: DlssPerfQualityMode,
    pixels: int,
    tier: PerfQualityValue,
) -> bool {
    &&& mode == DlssPerfQualityMode::Dlaa ==> tier == PerfQualityValue::Dlaa
    &&& mode == DlssPerfQualityMode::Quality ==> tier == PerfQualityValue::MaxQuality
    &&& mode == DlssPerfQualityMode::Balanced ==> tier == PerfQualityValue::Balanced
    &&& mode == DlssPerfQualityMode::Performance ==> tier == PerfQualityValue::MaxPerf
    &&& mode == DlssPerfQualityMode::UltraPerformance ==> tier == PerfQualityValue::UltraPerformance
    &&& mode == DlssPerfQualityMode::Auto ==> {
        &&& tier == PerfQualityValue::Dlaa <==> pixels < 2_030_000
        &&& tier == PerfQualityValue::MaxQuality <==> 2_030_000 <= pixels < 3_680_000
        &&& tier == PerfQualityValue::MaxPerf <==> 3_680_000 <= pixels < 8_290_000
        &&& tier == PerfQualityValue::UltraPerformance <==> 8_290_000 <= pixels
    }
}

/// Whether these are the resolutions of a feature for an output: the output in anti-aliasing mode,
/// and what NGX recommended otherwise.
pub open spec fn are_resolutions_for(
    upscaled: UVec2,
    mode: DlssPerfQualityMode,
    settings: OptimalSettings,
    resolutions: Resolutions,
) -> bool {
    &&& resolutions.upscaled == upscaled
    &&& mode == DlssPerfQualityMode::Dlaa ==> resolutions.optimal == upscaled && resolutions.min
        == upscaled && resolutions.max == upscaled
    &&& mode != DlssPerfQualityMode::Dlaa ==> resolutions.optimal == settings.optimal
        && resolutions.min == settings.min && resolutions.max == settings.max
}

/// A context is created as its caller asked: NGX is queried and created for that output and tier, at
/// the resolution that it recommended, with the caller's flags and with the output subrect exactly
/// when its flag is set, which NGX itself never sees.
pub proof fn upscaling_is_created_as_asked(
    upscaled: UVec2,
    mode: DlssPerfQualityMode,
    flags: DlssFeatureFlags,
    creation: DlssContextCreation,
    query: SettingsQuery,
    settings: OptimalSettings,
    outcome: Result<DlssCreateCall, DlssError>,
)
    requires
        call_ensures(DlssContext::new, (upscaled, mode, flags), creation),
        call_ensures(DlssContextCreation::settings_query, (&creation,), query),
        call_ensures(DlssContextCreation::create_call, (&creation, settings), outcome),
    ensures
        query.upscaled == upscaled,
        is_tier_of(mode, upscaled.x * upscaled.y, query.perf_quality),
        outcome is Ok <==> settings.result == 1,
        outcome matches Ok(call) ==> {
            &&& are_resolutions_for(upscaled, mode, settings, call.resolutions)
            &&& call.params.render == call.resolutions.optimal
            &&& call.params.target == upscaled
            &&& is_tier_of(mode, upscaled.x * upscaled.y, call.params.perf_quality)
            &&& call.params.feature_create_flags & 256 == 0
            &&& call.params.feature_create_flags | (flags.bits & 256) == flags.bits
            &&& call.params.enable_output_subrects <==> flags.bits & 256 != 0
        },
{
    crate::config::output_subrect_never_reaches_ngx(flags);
    let b = flags.bits;
    assert(b & 256i32 == 256i32 <==> b & 256i32 != 0) by (bit_vector);
}

/// Whatever is created, each creation parameter follows its own part of the creation.
pub proof fn upscaling_parameters_follow_the_creation(
    creation: DlssContextCreation,
    query: SettingsQuery,
    settings: OptimalSettings,
    call: DlssCreateCall,
)
    requires
        call_ensures(DlssContextCreation::settings_query, (&creation,), query),
        call_ensures(DlssContextCreation::create_call, (&creation, settings), Ok(call)),
    ensures
        ({
            let upscaled = creation.upscaled_resolution;
            let mode = creation.perf_quality_mode;
            &&& query.upscaled == upscaled
            &&& is_tier_of(mode, upscaled.x * upscaled.y, query.perf_quality)
            &&& are_resolutions_for(upscaled, mode, settings, call.resolutions)
            &&& call.params.render == call.resolutions.optimal
            &&& call.params.target == upscaled
            &&& is_tier_of(mode, upscaled.x * upscaled.y, call.params.perf_quality)
        }),
        call.params.feature_create_flags & 256 == 0,
        call.params.feature_create_flags | (creation.feature_flags.bits & 256)
            == creation.feature_flags.bits,
        call.params.enable_output_subrects <==> creation.feature_flags.bits & 256 != 0,
{
    crate::config::output_subrect_never_reaches_ngx(creation.feature_flags);
    let b = creation.feature_flags.bits;
    assert(b & 256i32 == 256i32 <==> b & 256i32 != 0) by (bit_vector);
}

/// A context exists exactly when NGX created its feature. It then has NGX's handle, and tells its
/// caller the resolutions that NGX was created with.
pub proof fn a_context_reports_what_it_was_created_with(
    call: DlssCreateCall,
    reply: Option<FeatureReply>,
    outcome: Result<DlssContext, DlssError>,
    upscaled: UVec2,
    render: UVec2,
    range: ResolutionRange,
    steps: Vec<ReleaseStep>,
)
    requires
        call_ensures(DlssContext::created, (&call, reply), outcome),
        outcome matches Ok(context) ==> {
            &&& call_ensures(DlssContext::upscaled_resolution, (&context,), upscaled)
            &&& call_ensures(DlssContext::render_resolution, (&context,), render)
            &&& call_ensures(DlssContext::render_resolution_range, (&context,), range)
            &&& call_ensures(DlssContext::release, (&context,), steps)
        },
    ensures
        outcome is Ok <==> reply is Some && reply->0.result == 1,
        reply is None ==> outcome == Err::<DlssContext, DlssError>(DlssError::FeatureNotSupported),
        outcome matches Ok(context) ==> {
            &&& context.feature.feature == reply->0.handle
            &&& context.feature.resolutions == call.resolutions
            &&& upscaled == call.resolutions.upscaled
            &&& render == call.resolutions.optimal
            &&& range.min == call.resolutions.min
            &&& range.max == call.resolutions.max
            &&& steps.len() == 2
            &&& steps[0] == ReleaseStep::WaitForGpu
            &&& steps[1] == ReleaseStep::ReleaseFeature(reply->0.handle)
        },
{
}

/// The transitions are submitted before the evaluation, and nothing is submitted unless NGX accepted
/// the evaluation.
pub proof fn evaluations_are_submitted_after_their_transitions(
    context: DlssContext,
    feature: NgxFeature,
    reply: Option<NgxResult>,
    outcome: Result<Vec<EvaluationEncoder>, DlssError>,
    shared: Result<Vec<EvaluationEncoder>, DlssError>,
)
    requires
        call_ensures(DlssContext::evaluated, (&context, reply), outcome),
        call_ensures(NgxFeature::evaluate, (&feature, reply), shared),
    ensures
        outcome is Ok <==> reply == Some(1i32),
        outcome matches Ok(order) ==> order.len() == 2 && order[0] == EvaluationEncoder::Transitions
            && order[1] == EvaluationEncoder::Evaluate,
        reply is None ==> outcome == Err::<Vec<EvaluationEncoder>, DlssError>(
            DlssError::FeatureNotSupported,
        ),
        shared is Ok <==> outcome is Ok,
        shared matches Ok(order) ==> order.len() == 2 && order[0] == EvaluationEncoder::Transitions
            && order[1] == EvaluationEncoder::Evaluate,
        shared matches Err(e) ==> outcome == Err::<Vec<EvaluationEncoder>, DlssError>(e),
{
}

/// The shared core settles on the same resolutions, and keeps them and NGX's handle in the feature.
pub proof fn features_keep_their_resolutions_and_handle(
    upscaled: UVec2,
    mode: DlssPerfQualityMode,
    settings: OptimalSettings,
    settled: Result<Resolutions, DlssError>,
    resolutions: Resolutions,
    reply: Option<FeatureReply>,
    created: Result<NgxFeature, DlssError>,
)
    requires
        call_ensures(Resolutions::settle, (upscaled, mode, settings), settled),
        call_ensures(NgxFeature::create, (resolutions, reply), created),
    ensures
        settled is Ok <==> settings.result == 1,
        settled matches Ok(r) ==> are_resolutions_for(upscaled, mode, settings, r),
        created is Ok <==> reply is Some && reply->0.result == 1,
        created matches Ok(feature) ==> feature.resolutions == resolutions && feature.feature
            == reply->0.handle,
        reply is None ==> created == Err::<NgxFeature, DlssError>(DlssError::FeatureNotSupported),
{
}

/// A feature reports the resolutions it has and is released only once the GPU is idle.
pub proof fn features_report_their_resolutions(
    feature: NgxFeature,
    upscaled: UVec2,
    render: UVec2,
    largest: UVec2,
    range: ResolutionRange,
    steps: Vec<ReleaseStep>,
)
    requires
        call_ensures(NgxFeature::upscaled_resolution, (&feature,), upscaled),
        call_ensures(NgxFeature::render_resolution, (&feature,), render),
        call_ensures(NgxFeature::max_render_resolution, (&feature,), largest),
        call_ensures(NgxFeature::render_resolution_range, (&feature,), range),
        call_ensures(NgxFeature::release, (&feature,), steps),
    ensures
        upscaled == feature.resolutions.upscaled,
        render == feature.resolutions.optimal,
        largest == feature.resolutions.max,
        range.min == feature.resolutions.min,
        range.max == feature.resolutions.max,
        steps.len() == 2,
        steps[0] == ReleaseStep::WaitForGpu,
        steps[1] == ReleaseStep::ReleaseFeature(feature.feature),
{
}

/// The jitter that a context, a feature or the bare resolutions suggest is the same, depends on the
/// two widths alone, and stays within the pixel.
pub proof fn jitter_depends_on_the_widths_alone(
    context: DlssContext,
    frame_number: u32,
    render: UVec2,
    suggested: Jitter,
    shared: Jitter,
    bare: Jitter,
)
    requires
        call_ensures(DlssContext::suggested_jitter, (&context, frame_number, render), suggested),
        call_ensures(
            NgxFeature::suggested_jitter,
            (&context.feature, frame_number, render),
            shared,
        ),
        call_ensures(
            crate::jitter::suggested_jitter,
            (frame_number, context.feature.resolutions.upscaled.x, render.x),
            bare,
        ),
    ensures
        suggested == bare,
        shared == bare,
        bare.x.denominator > 0 && bare.y.denominator > 0,
        -(bare.x.denominator as int) <= 2 * bare.x.numerator < bare.x.denominator,
        -(bare.y.denominator as int) <= 2 * bare.y.numerator < bare.y.denominator,
        frame_number == 0 ==> 2 * bare.x.numerator == -bare.x.denominator && 2 * bare.y.numerator
            == -bare.y.denominator,
{
    if frame_number == 0 {
        let period = crate::jitter::phase_count(context.feature.resolutions.upscaled.x, render.x);
        vstd::arithmetic::div_mod::lemma_small_mod(0, period);
    }
}

/// Halton values are built digit by digit: a further last digit of the index is worth one part in
/// `base`, and the digits before it are worth `base` times less than they were.
pub proof fn halton_values_are_built_digit_by_digit(
    base: u32,
    index: u32,
    digit: u32,
    longer: u32,
    value: Fraction,
    extended: Fraction,
)
    requires
        base >= 2,
        digit < base,
        longer == index * base + digit,
        longer > 0,
        call_ensures(halton_sequence, (index, base), value),
        call_ensures(halton_sequence, (longer, base), extended),
    ensures
        extended.denominator == base * value.denominator,
        extended.numerator == digit * value.denominator + value.numerator,
        index == 0 ==> value.numerator == 0 && value.denominator == 1,
        value.numerator < value.denominator,
{
    vstd::arithmetic::div_mod::lemma_fundamental_div_mod_converse(
        longer as int,
        base as int,
        index as int,
        digit as int,
    );
}

/// The suggested jitter of a frame is the Halton value of its place in the repetition, in base two
/// across and in base three down, moved to the centre of the pixel.
pub proof fn jitter_is_a_recentred_halton_value(
    frame_number: u32,
    upscaled_width: u32,
    render_width: u32,
    phases: u32,
    place: u32,
    across: Fraction,
    down: Fraction,
    jitter: Jitter,
)
    requires
        call_ensures(
            crate::binary32::eight_ratio_squared_of,
            (upscaled_width, render_width),
            phases,
        ),
        phases == 0 ==> place == 0,
        phases > 0 ==> place == frame_number % phases,
        call_ensures(halton_sequence, (place, 2u32), across),
        call_ensures(halton_sequence, (place, 3u32), down),
        call_ensures(
            crate::jitter::suggested_jitter,
            (frame_number, upscaled_width, render_width),
            jitter,
        ),
    ensures
        jitter.x.denominator == 2 * across.denominator,
        jitter.x.numerator == 2 * across.numerator - across.denominator,
        jitter.y.denominator == 2 * down.denominator,
        jitter.y.numerator == 2 * down.numerator - down.denominator,
{
}

} // verus!

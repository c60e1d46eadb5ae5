//! The Streamline handle, and the frame generation context that is made from it.

use crate::streamline::api::{SlReply, SlRequest};
use crate::streamline::error::StreamlineError;
use crate::streamline::frame::{Frame, Step};
use crate::streamline::frame_gen::{
    apply_dlssg_options, dlssg_options_applied, query_state_request, query_state_with,
    ContextSetup, FrameGenerationContext, FrameGenerationMode, FrameGenerationOptions,
    FrameGenerationState, Interposer, SetupStep, Streamline,
};
use crate::streamline::result::SlResult;
use crate::streamline::tagging::{dxgi_format_of, TextureFormat};
use crate::streamline::types::{
    Boolean, DLSSGMode, DLSSGOptions, DLSSGQueueParallelismMode, DLSSGState, EngineType, LogLevel,
    PCLMarker, ReflexMode, RenderAPI, ViewportHandle,
};
use vstd::prelude::*;

verus! {

/// Whether a text holds a NUL character.
pub open spec fn holds_nul(text: Seq<char>) -> bool {
    text.contains('\0')
}

/// Streamline is initialized under the identity that was given, for D3D12, for frame generation with
/// Reflex and the latency markers, with tags for single frames and without command list tracking. It
/// is refused exactly when a text of the identity holds a NUL character.
pub proof fn streamline_is_initialized_as_asked(
    project_id: &str,
    engine_version: &str,
    outcome: Result<SlRequest, StreamlineError>,
)
    requires
        call_ensures(Streamline::init_with_identity, (project_id, engine_version), outcome),
    ensures
        outcome is Err <==> holds_nul(project_id@) || holds_nul(engine_version@),
        outcome matches Err(e) ==> (e matches StreamlineError::SlCall { function, result } && result
            == SlResult::ErrorInvalidParameter && function@ == (if holds_nul(project_id@) {
            "slInit (project_id contained an interior NUL)"@
        } else {
            "slInit (engine_version contained an interior NUL)"@
        })),
        outcome matches Ok(request) ==> (request matches SlRequest::Init {
            preferences,
            sdk_version,
        } && {
            &&& sdk_version == 0x0002_000b_0001_fedc
            &&& preferences.project_id is Some && preferences.project_id->0@ == project_id@
            &&& preferences.engine_version is Some && preferences.engine_version->0@
                == engine_version@
            &&& preferences.features_to_load.len() == 3
            &&& preferences.features_to_load[0] == 1000
            &&& preferences.features_to_load[1] == 3
            &&& preferences.features_to_load[2] == 4
            &&& preferences.flags == 129
            &&& preferences.render_api == RenderAPI::D3D12
            &&& preferences.engine == EngineType::Custom
            &&& preferences.log_level == LogLevel::Default
            &&& !preferences.show_console
            &&& preferences.application_id == 0
            &&& crate::laws::structures::heads_preferences(preferences.base, 1)
        }),
{
    assert(128u64 | 1u64 == 129u64) by (bit_vector);
    use_nul(project_id@);
    use_nul(engine_version@);
}

proof fn use_nul(text: Seq<char>)
    ensures
        holds_nul(text) <==> crate::streamline::frame_gen::has_nul(text),
{
    if holds_nul(text) {
        let i = choose|i: int| 0 <= i < text.len() && text[i] == '\0';
        assert(text[i] == '\0');
    }
}

/// A handle owns the interposer that was initialized, if it was, and shuts it down as long as it owns
/// it.
pub proof fn a_handle_owns_its_interposer(
    interposer: Interposer,
    result: SlResult,
    outcome: Result<Streamline, StreamlineError>,
    streamline: Streamline,
    requests: Vec<SlRequest>,
)
    requires
        call_ensures(Streamline::initialized, (interposer, result), outcome),
        call_ensures(Streamline::teardown, (&streamline,), requests),
    ensures
        outcome is Ok <==> result == SlResult::Success,
        outcome matches Ok(handle) ==> handle.owned() == Some(interposer),
        outcome matches Err(e) ==> (e matches StreamlineError::SlCall { function, result: reported }
            && function@ == "slInit"@ && reported == result),
        streamline.owned() is Some ==> requests.len() == 1 && requests[0] == SlRequest::Shutdown,
        streamline.owned() is None ==> requests.len() == 0,
{
}

/// Whether the two modes are of the same name.
pub open spec fn is_same_mode(mode: FrameGenerationMode, sl: DLSSGMode) -> bool {
    &&& sl == DLSSGMode::Off <==> mode == FrameGenerationMode::Off
    &&& sl == DLSSGMode::On <==> mode == FrameGenerationMode::On
    &&& sl == DLSSGMode::Auto <==> mode == FrameGenerationMode::Auto
    &&& sl != DLSSGMode::Dynamic
}

/// Each mode is the Streamline mode of the same name, so that distinct modes stay distinct.
pub proof fn modes_keep_their_names(
    mode: FrameGenerationMode,
    sl: DLSSGMode,
    other: FrameGenerationMode,
    other_sl: DLSSGMode,
)
    requires
        call_ensures(FrameGenerationMode::to_sl, (mode,), sl),
        call_ensures(FrameGenerationMode::to_sl, (other,), other_sl),
    ensures
        is_same_mode(mode, sl),
        sl == other_sl <==> mode == other,
{
}

/// Whether Streamline's options leave everything at its default but for the mode, the number of
/// frames and the formats.
pub open spec fn sets_nothing_else(sl: DLSSGOptions) -> bool {
    &&& sl.flags == 0
    &&& sl.dynamic_res_width == 0 && sl.dynamic_res_height == 0
    &&& sl.num_back_buffers == 0
    &&& sl.mvec_depth_width == 0 && sl.mvec_depth_height == 0
    &&& sl.color_width == 0 && sl.color_height == 0
    &&& sl.on_error_callback == 0
    &&& sl.b_reserved15 == Boolean::Invalid
    &&& sl.queue_parallelism_mode == DLSSGQueueParallelismMode::BlockPresentingClientQueue
    &&& sl.dynamic_target_frame_rate.bits == 0
    &&& crate::laws::structures::heads_dlssg_options(sl.base, 5)
}

/// Whether every format is to be inferred, and the user interface is not recomposited.
pub open spec fn names_no_format(sl: DLSSGOptions) -> bool {
    &&& sl.color_buffer_format == 0
    &&& sl.mvec_buffer_format == 0
    &&& sl.depth_buffer_format == 0
    &&& sl.hud_less_buffer_format == 0
    &&& sl.ui_buffer_format == 0
    &&& sl.enable_user_interface_recomposition == Boolean::False
}

/// Whether a format is told as it is, or as zero where it is to be inferred.
pub open spec fn is_told(format: Option<u32>, told: u32) -> bool {
    &&& format is Some ==> format == Some(told)
    &&& format is None ==> told == 0
}

/// Whether Streamline's options are the given ones: the mode, the number of frames, each format for
/// what it is of, and the user interface exactly when it is recomposited.
pub open spec fn are_options(
    sl: DLSSGOptions,
    options: FrameGenerationOptions,
    color_format: u32,
) -> bool {
    &&& is_same_mode(options.mode, sl.mode)
    &&& sl.num_frames_to_generate == options.num_frames_to_generate
    &&& sl.color_buffer_format == color_format
    &&& sl.hud_less_buffer_format == color_format
    &&& is_told(options.mvec_format, sl.mvec_buffer_format)
    &&& is_told(options.depth_format, sl.depth_buffer_format)
    &&& options.enable_ui_recomposition ==> is_told(options.ui_format, sl.ui_buffer_format)
    &&& !options.enable_ui_recomposition ==> sl.ui_buffer_format == 0
    &&& sl.enable_user_interface_recomposition == Boolean::True <==> options.enable_ui_recomposition
    &&& sl.enable_user_interface_recomposition == Boolean::False
        <==> !options.enable_ui_recomposition
    &&& sets_nothing_else(sl)
}

/// The options reach Streamline as they are, for their viewport.
pub proof fn options_reach_streamline(
    viewport: ViewportHandle,
    options: FrameGenerationOptions,
    color_format: u32,
    request: SlRequest,
)
    requires
        call_ensures(apply_dlssg_options, (viewport, &options, color_format), request),
    ensures
        request matches SlRequest::DlssgSetOptions { viewport: v, options: sl } && v == viewport
            && are_options(sl, options, color_format),
{
}

/// Options are built one by one: each builder changes what it is for, and nothing else.
pub proof fn options_are_built_one_by_one(
    by_default: FrameGenerationOptions,
    enabled: FrameGenerationOptions,
    options: FrameGenerationOptions,
    format: TextureFormat,
    number: u32,
    with_color: FrameGenerationOptions,
    with_ui: FrameGenerationOptions,
)
    requires
        call_ensures(FrameGenerationOptions::default, (), by_default),
        call_ensures(FrameGenerationOptions::enabled, (), enabled),
        call_ensures(dxgi_format_of, (format,), number),
        call_ensures(FrameGenerationOptions::with_color_format, (options, format), with_color),
        call_ensures(FrameGenerationOptions::with_ui_recomposition, (options, format), with_ui),
    ensures
        by_default == enabled,
        enabled.mode == FrameGenerationMode::On,
        enabled.num_frames_to_generate == 1,
        enabled.color_format is None && enabled.mvec_format is None && enabled.depth_format is None,
        !enabled.enable_ui_recomposition && enabled.ui_format is None,
        with_color.color_format == Some(number),
        with_color.mode == options.mode && with_color.num_frames_to_generate
            == options.num_frames_to_generate,
        with_color.mvec_format == options.mvec_format && with_color.depth_format
            == options.depth_format,
        with_color.enable_ui_recomposition == options.enable_ui_recomposition
            && with_color.ui_format == options.ui_format,
        with_ui.enable_ui_recomposition && with_ui.ui_format == Some(number),
        with_ui.mode == options.mode && with_ui.num_frames_to_generate
            == options.num_frames_to_generate,
        with_ui.color_format == options.color_format,
        with_ui.mvec_format == options.mvec_format && with_ui.depth_format == options.depth_format,
{
}

/// Switching the mode tells Streamline that mode, and what `is_enabled` says follows it exactly when
/// Streamline accepted the call. The other options, the color format and the viewport stay.
pub proof fn switching_the_mode_tells_streamline(
    asking: &mut FrameGenerationContext,
    mode: FrameGenerationMode,
    request: SlRequest,
    hearing: &mut FrameGenerationContext,
    reply: SlReply,
    outcome: Result<(), StreamlineError>,
    enabled_before: bool,
    enabled: bool,
)
    requires
        call_ensures(FrameGenerationContext::is_enabled, (&*old(asking),), enabled_before),
        call_ensures(FrameGenerationContext::set_mode, (asking, mode), request),
        *final(asking) == *old(hearing),
        call_ensures(FrameGenerationContext::mode_set, (hearing, reply), outcome),
        call_ensures(FrameGenerationContext::is_enabled, (&*final(hearing),), enabled),
    ensures
        request matches SlRequest::DlssgSetOptions { viewport, options: sl } && {
            &&& viewport == old(asking).viewport_handle()
            &&& is_same_mode(mode, sl.mode)
            &&& are_options(
                sl,
                (FrameGenerationOptions { mode, ..old(asking).chosen_options() }),
                old(asking).color(),
            )
        },
        outcome is Ok <==> reply.result == Some(SlResult::Success),
        outcome is Ok ==> (enabled <==> mode != FrameGenerationMode::Off),
        outcome is Err ==> enabled == enabled_before,
        final(hearing).chosen_options().mode == mode,
        final(hearing).chosen_options().num_frames_to_generate
            == old(asking).chosen_options().num_frames_to_generate,
        final(hearing).color() == old(asking).color(),
        final(hearing).viewport_handle() == old(asking).viewport_handle(),
        final(hearing).interposer() == old(asking).interposer(),
{
}

/// After a switch that Streamline accepted, the state is queried for the new mode if it generates
/// frames, and for the one before if it does not. It is never queried for off.
pub proof fn the_state_is_queried_for_a_generating_mode(
    asking: &mut FrameGenerationContext,
    mode: FrameGenerationMode,
    request: SlRequest,
    hearing: &mut FrameGenerationContext,
    reply: SlReply,
    outcome: Result<(), StreamlineError>,
    query_before: SlRequest,
    query: SlRequest,
)
    requires
        call_ensures(FrameGenerationContext::query_state, (&*old(asking),), query_before),
        call_ensures(FrameGenerationContext::set_mode, (asking, mode), request),
        *final(asking) == *old(hearing),
        call_ensures(FrameGenerationContext::mode_set, (hearing, reply), outcome),
        call_ensures(FrameGenerationContext::query_state, (&*final(hearing),), query),
    ensures
        query matches SlRequest::DlssgGetState { viewport, options } && {
            &&& viewport == old(asking).viewport_handle()
            &&& options.num_frames_to_generate
                == old(asking).chosen_options().num_frames_to_generate
            &&& options.mode != DLSSGMode::Off
            &&& names_no_format(options)
            &&& sets_nothing_else(options)
            &&& outcome is Ok && mode != FrameGenerationMode::Off ==> is_same_mode(
                mode,
                options.mode,
            )
            &&& outcome is Err || mode == FrameGenerationMode::Off ==> (
            query_before matches SlRequest::DlssgGetState { options: earlier, .. } && earlier.mode
                == options.mode)
        },
{
}

/// A query asks for the mode and the number of frames that it is given, and a snapshot is what
/// Streamline filled in.
pub proof fn a_snapshot_is_what_streamline_filled_in(
    viewport: ViewportHandle,
    mode: DLSSGMode,
    num_frames: u32,
    request: SlRequest,
    reply: SlReply,
    state: DLSSGState,
    outcome: Result<FrameGenerationState, StreamlineError>,
)
    requires
        call_ensures(query_state_request, (viewport, mode, num_frames), request),
        call_ensures(query_state_with, (reply, &state), outcome),
    ensures
        request matches SlRequest::DlssgGetState { viewport: v, options } && {
            &&& v == viewport
            &&& options.mode == mode
            &&& options.num_frames_to_generate == num_frames
            &&& names_no_format(options)
            &&& sets_nothing_else(options)
        },
        outcome is Ok <==> reply.result == Some(SlResult::Success),
        outcome matches Ok(snapshot) ==> {
            &&& snapshot.status == state.status
            &&& snapshot.is_ok <==> state.status == 0
            &&& snapshot.num_frames_actually_presented == state.num_frames_actually_presented
            &&& snapshot.num_frames_to_generate_max == state.num_frames_to_generate_max
            &&& snapshot.estimated_vram_usage_in_bytes == state.estimated_vram_usage_in_bytes
        },
        outcome matches Err(e) ==> is_feature_failure(e, 1000, "slDLSSGGetState"@, reply.result),
{
}

/// Whether an error says of a feature function that it was never resolved, or what it
/// returned.
pub open spec fn is_feature_failure(
    e: StreamlineError,
    feature: u32,
    name: Seq<char>,
    result: Option<SlResult>,
) -> bool {
    match result {
        None => crate::laws::frame::is_unavailable(
            e,
            feature,
            name,
            "feature function not resolved (resolve_feature_functions not called)"@,
        ),
        Some(result) => e matches StreamlineError::SlCall { function, result: reported }
            && function@ == name && reported == result,
    }
}

/// Setting the options succeeds exactly when Streamline says so.
pub proof fn options_are_set_when_streamline_says_so(
    reply: SlReply,
    outcome: Result<(), StreamlineError>,
)
    requires
        call_ensures(dlssg_options_applied, (reply,), outcome),
    ensures
        outcome is Ok <==> reply.result == Some(SlResult::Success),
        outcome matches Err(e) ==> is_feature_failure(e, 1000, "slDLSSGSetOptions"@, reply.result),
{
}

/// A handle that owns its interposer starts a setup with the options it is given, for viewport zero,
/// with the registration of the device.
pub proof fn a_setup_starts_with_the_device(
    streamline: Streamline,
    options: FrameGenerationOptions,
    outcome: Result<ContextSetup, StreamlineError>,
    step: SetupStep,
)
    requires
        call_ensures(FrameGenerationContext::new, (&streamline, &options), outcome),
        outcome matches Ok(setup) ==> call_ensures(ContextSetup::current, (&setup,), step),
    ensures
        outcome is Ok <==> streamline.owned() is Some,
        outcome matches Err(e) ==> e is ContextAlreadyCreated,
        outcome matches Ok(setup) ==> {
            &&& streamline.owned() == Some(setup.interposer())
            &&& setup.chosen_options() == options
            &&& setup.viewport_handle().value == 0
            &&& crate::laws::structures::heads_viewport_handle(setup.viewport_handle().base, 1)
            &&& step == SetupStep::SetDevice
        },
{
}

/// A setup makes these calls, one at a time: the device, the five feature functions in their order,
/// the support of this adapter, Reflex for low latency, and the chosen options.
pub proof fn a_setup_makes_its_calls(
    setup: ContextSetup,
    luid: Option<[u8; 8]>,
    step: SetupStep,
    request: Option<SlRequest>,
)
    requires
        call_ensures(ContextSetup::current, (&setup,), step),
        call_ensures(ContextSetup::request, (&setup, luid), request),
    ensures
        step == SetupStep::Complete || step == SetupStep::Failed ==> request is None,
        step != SetupStep::Complete && step != SetupStep::Failed ==> request is Some,
        step == SetupStep::SetDevice ==> request == Some(SlRequest::SetD3DDevice),
        step == SetupStep::ResolveFunction(0) ==> resolves(request, 1000, "slDLSSGSetOptions"),
        step == SetupStep::ResolveFunction(1) ==> resolves(request, 1000, "slDLSSGGetState"),
        step == SetupStep::ResolveFunction(2) ==> resolves(request, 3, "slReflexSetOptions"),
        step == SetupStep::ResolveFunction(3) ==> resolves(request, 3, "slReflexSleep"),
        step == SetupStep::ResolveFunction(4) ==> resolves(request, 4, "slPCLSetMarker"),
        step == SetupStep::CheckSupport ==> (request matches Some(
            SlRequest::IsFeatureSupported { feature, adapter },
        ) && feature == 1000 && adapter.device_luid == luid && adapter.vk_physical_device == 0
            && crate::laws::structures::heads_adapter_info(adapter.base, 1)),
        step == SetupStep::SetReflexMode ==> (request matches Some(
            SlRequest::ReflexSetOptions(reflex),
        ) && reflex.mode == ReflexMode::LowLatency && reflex.frame_limit_us == 0
            && !reflex.use_markers_to_optimize && reflex.virtual_key == 0 && reflex.id_thread == 0
            && crate::laws::structures::heads_reflex_options(reflex.base, 1)),
        step == SetupStep::SetOptions ==> (request matches Some(
            SlRequest::DlssgSetOptions { viewport, options: sl },
        ) && viewport == setup.viewport_handle() && is_told(
            setup.chosen_options().color_format,
            sl.color_buffer_format,
        ) && are_options(sl, setup.chosen_options(), sl.color_buffer_format)),
{
}

/// Whether a request resolves the feature function of this name.
pub open spec fn resolves(request: Option<SlRequest>, feature: u32, name: &'static str) -> bool {
    request == Some(SlRequest::GetFeatureFunction { feature, name })
}

/// What a call returned; an invalid state where it could not be made.
pub open spec fn answer(reply: SlReply) -> SlResult {
    match reply.result {
        Some(result) => result,
        None => SlResult::ErrorInvalidState,
    }
}

/// Whether an error says that the device is not a D3D12 one, or that it was refused.
pub open spec fn reports_the_device(e: StreamlineError, reply: SlReply) -> bool {
    match reply.result {
        None => crate::laws::frame::is_unavailable(
            e,
            1000,
            "slSetD3DDevice"@,
            "the wgpu device is not a Dx12 device"@,
        ),
        Some(result) => e matches StreamlineError::SlCall { function, result: reported }
            && function@ == "slSetD3DDevice"@ && reported == result,
    }
}

/// Whether an error says of a feature function why it could not be resolved.
pub open spec fn reports_unresolved(
    e: StreamlineError,
    feature: u32,
    name: Seq<char>,
    reply: SlReply,
) -> bool {
    crate::laws::frame::is_unavailable(
        e,
        feature,
        name,
        if answer(reply) != SlResult::Success {
            "slGetFeatureFunction returned "@ + answer(reply).text()@
        } else {
            "slGetFeatureFunction returned a null function pointer"@
        },
    )
}

/// A setup goes on exactly when Streamline accepted the call, and a resolved function is not null. It
/// goes through its steps in order and ends as failed otherwise; what it was started with stays.
pub proof fn a_setup_goes_on_only_after_success(
    setup: &mut ContextSetup,
    before: SetupStep,
    reply: SlReply,
    outcome: Result<(), StreamlineError>,
    after: SetupStep,
)
    requires
        call_ensures(ContextSetup::current, (&*old(setup),), before),
        call_ensures(ContextSetup::reply, (setup, reply), outcome),
        call_ensures(ContextSetup::current, (&*final(setup),), after),
        before != SetupStep::Complete,
        before != SetupStep::Failed,
    ensures
        outcome is Ok <==> reply.result == Some(SlResult::Success) && (
        before is ResolveFunction ==> reply.address != 0),
        outcome is Err ==> after == SetupStep::Failed,
        outcome is Ok ==> {
            &&& before == SetupStep::SetDevice ==> after == SetupStep::ResolveFunction(0)
            &&& before == SetupStep::ResolveFunction(0) ==> after == SetupStep::ResolveFunction(1)
            &&& before == SetupStep::ResolveFunction(1) ==> after == SetupStep::ResolveFunction(2)
            &&& before == SetupStep::ResolveFunction(2) ==> after == SetupStep::ResolveFunction(3)
            &&& before == SetupStep::ResolveFunction(3) ==> after == SetupStep::ResolveFunction(4)
            &&& before == SetupStep::ResolveFunction(4) ==> after == SetupStep::CheckSupport
            &&& before == SetupStep::CheckSupport ==> after == SetupStep::SetReflexMode
            &&& before == SetupStep::SetReflexMode ==> after == SetupStep::SetOptions
            &&& before == SetupStep::SetOptions ==> after == SetupStep::Complete
        },
        outcome matches Err(e) ==> {
            &&& before == SetupStep::SetDevice ==> reports_the_device(e, reply)
            &&& before == SetupStep::ResolveFunction(0) ==> reports_unresolved(
                e,
                1000,
                "slDLSSGSetOptions"@,
                reply,
            )
            &&& before == SetupStep::ResolveFunction(1) ==> reports_unresolved(
                e,
                1000,
                "slDLSSGGetState"@,
                reply,
            )
            &&& before == SetupStep::ResolveFunction(2) ==> reports_unresolved(
                e,
                3,
                "slReflexSetOptions"@,
                reply,
            )
            &&& before == SetupStep::ResolveFunction(3) ==> reports_unresolved(
                e,
                3,
                "slReflexSleep"@,
                reply,
            )
            &&& before == SetupStep::ResolveFunction(4) ==> reports_unresolved(
                e,
                4,
                "slPCLSetMarker"@,
                reply,
            )
            &&& before == SetupStep::CheckSupport ==> (e matches
                StreamlineError::FeatureNotSupported(result) && result == answer(reply))
            &&& before == SetupStep::SetReflexMode ==> is_feature_failure(
                e,
                3,
                "slReflexSetOptions"@,
                reply.result,
            )
            &&& before == SetupStep::SetOptions ==> is_feature_failure(
                e,
                1000,
                "slDLSSGSetOptions"@,
                reply.result,
            )
        },
        final(setup).chosen_options() == old(setup).chosen_options(),
        final(setup).viewport_handle() == old(setup).viewport_handle(),
        final(setup).interposer() == old(setup).interposer(),
{
}

/// A completed setup gives a context exactly when the handle still owns its interposer, which then
/// moves. The context has the setup's options and generates frames unless they are off.
pub proof fn a_context_takes_over_the_interposer(
    setup: ContextSetup,
    streamline: &mut Streamline,
    outcome: Result<FrameGenerationContext, StreamlineError>,
    enabled: bool,
    query: SlRequest,
)
    requires
        setup.at() == SetupStep::Complete,
        call_ensures(ContextSetup::finish, (&setup, streamline), outcome),
        outcome matches Ok(context) ==> {
            &&& call_ensures(FrameGenerationContext::is_enabled, (&context,), enabled)
            &&& call_ensures(FrameGenerationContext::query_state, (&context,), query)
        },
    ensures
        outcome is Ok <==> old(streamline).owned() == Some(setup.interposer()),
        outcome is Err ==> final(streamline).owned() == old(streamline).owned(),
        outcome matches Err(e) ==> e is ContextAlreadyCreated,
        outcome matches Ok(context) ==> {
            let options = setup.chosen_options();
            &&& final(streamline).owned() is None
            &&& context.interposer() == setup.interposer()
            &&& context.viewport_handle() == setup.viewport_handle()
            &&& context.chosen_options() == options
            &&& is_told(options.color_format, context.color())
            &&& enabled <==> options.mode != FrameGenerationMode::Off
            &&& query matches SlRequest::DlssgGetState { options: asked, .. } && {
                &&& options.mode != FrameGenerationMode::Off ==> is_same_mode(
                    options.mode,
                    asked.mode,
                )
                &&& options.mode == FrameGenerationMode::Off ==> asked.mode == DLSSGMode::On
            }
        },
{
}

/// A context begins frames of its viewport, with the token that Streamline gives for their index.
pub proof fn a_context_begins_its_frames(
    context: FrameGenerationContext,
    index: u32,
    request: SlRequest,
    reply: SlReply,
    outcome: Result<(Frame, Vec<SlRequest>), StreamlineError>,
)
    requires
        call_ensures(FrameGenerationContext::begin_frame, (&context, index), request),
        call_ensures(FrameGenerationContext::frame_begun, (&context, index, reply), outcome),
    ensures
        request == SlRequest::GetNewFrameToken(index),
        outcome is Ok <==> reply.result == Some(SlResult::Success) && reply.address != 0,
        outcome matches Ok((frame, requests)) ==> {
            &&& frame.viewport == context.viewport_handle()
            &&& frame.index == index
            &&& frame.token.address == reply.address
            &&& frame.progress.step == Step::Begun
            &&& !frame.progress.presented && !frame.progress.misordered
            &&& requests.len() == 3
            &&& requests[0] == SlRequest::ReflexSleep(frame.token)
            &&& crate::laws::frame::marks(requests[1], PCLMarker::SimulationStart, frame)
            &&& crate::laws::frame::marks(requests[2], PCLMarker::SimulationEnd, frame)
            &&& frame.progress.order_error is None
        },
        outcome matches Err(e) ==> crate::laws::frame::reports_no_token(e, reply),
{
}

/// A context that is dropped switches frame generation off on its viewport, waits for the GPU, and
/// shuts Streamline down, in this order.
pub proof fn a_context_is_torn_down_in_order(
    context: FrameGenerationContext,
    requests: Vec<SlRequest>,
)
    requires
        call_ensures(FrameGenerationContext::teardown, (&context,), requests),
    ensures
        requests.len() == 3,
        requests[0] matches SlRequest::DlssgSetOptions { viewport, options } && viewport
            == context.viewport_handle() && options.mode == DLSSGMode::Off
            && options.num_frames_to_generate == 1 && names_no_format(options)
            && sets_nothing_else(options),
        requests[1] == SlRequest::WaitForGpu,
        requests[2] == SlRequest::Shutdown,
{
}

} // verus!

//! The structures that Streamline is handed, and the numbers that its values have.

use crate::config::{DepthType, DlssFeatureFlags, DlssPerfQualityMode, RoughnessMode};
use crate::feature_info::{with_feature_info, FeatureInfo};
use crate::ngx_log::{current_filter, LogFilter};
use crate::streamline::api::SlRequest;
use crate::streamline::error::StreamlineError;
use crate::streamline::frame_gen::Streamline;
use crate::streamline::tagging::FgConstants;
use crate::streamline::types::{
    AdapterInfo, BaseStructure, Boolean, Constants, DLSSGMode, DLSSGOptions,
    DLSSGQueueParallelismMode, DLSSGState, EngineType, Extent, Float4x4, LogLevel, MotionScale2,
    PCLMarker, Preferences, ReflexMode, ReflexOptions, RenderAPI, Resource, ResourceLifecycle,
    ResourceTag, ResourceType, StructType, ViewportHandle, guid_adapter_info, guid_constants,
    guid_dlssg_options, guid_dlssg_state, guid_preferences, guid_reflex_options, guid_resource,
    guid_resource_tag, guid_viewport_handle,
};
use crate::vector::{FloatBits, UVec2, Vec2};
use vstd::prelude::*;

verus! {

/// Whether a type is the one with these groups and bytes.
pub open spec fn is_type(t: StructType, data1: u32, data2: u16, data3: u16, data4: Seq<u8>) -> bool {
    &&& t.data1 == data1
    &&& t.data2 == data2
    &&& t.data3 == data3
    &&& t.data4@ == data4
}

/// Whether a header is that of the preferences, of this version and without a chained structure.
pub open spec fn heads_preferences(base: BaseStructure, version: u64) -> bool {
    &&& base.next == 0
    &&& base.struct_version == version
    &&& is_type(
        base.struct_type,
        0x1ca1_0965,
        0xbf8e,
        0x432b,
        seq![0x8du8, 0xa1, 0x67, 0x16, 0xd8, 0x79, 0xfb, 0x14],
    )
}

/// Whether a header is that of the constants, of this version and without a chained structure.
pub open spec fn heads_constants(base: BaseStructure, version: u64) -> bool {
    &&& base.next == 0
    &&& base.struct_version == version
    &&& is_type(
        base.struct_type,
        0xdcd3_5ad7,
        0x4e4a,
        0x4bad,
        seq![0xa9u8, 0x0c, 0xe0, 0xc4, 0x9e, 0xb2, 0x3a, 0xfe],
    )
}

/// Whether a header is that of a resource, of this version and without a chained structure.
pub open spec fn heads_resource(base: BaseStructure, version: u64) -> bool {
    &&& base.next == 0
    &&& base.struct_version == version
    &&& is_type(
        base.struct_type,
        0x3a9d_70cf,
        0x2418,
        0x4b72,
        seq![0x83u8, 0x91, 0x13, 0xf8, 0x72, 0x1c, 0x72, 0x61],
    )
}

/// Whether a header is that of a resource tag, of this version and without a chained structure.
pub open spec fn heads_resource_tag(base: BaseStructure, version: u64) -> bool {
    &&& base.next == 0
    &&& base.struct_version == version
    &&& is_type(
        base.struct_type,
        0x4c6a_5aad,
        0xb445,
        0x496c,
        seq![0x87u8, 0xff, 0x1a, 0xf3, 0x84, 0x5b, 0xe6, 0x53],
    )
}

/// Whether a header is that of a viewport handle, of this version and without a chained structure.
pub open spec fn heads_viewport_handle(base: BaseStructure, version: u64) -> bool {
    &&& base.next == 0
    &&& base.struct_version == version
    &&& is_type(
        base.struct_type,
        0x171b_6435,
        0x9b3c,
        0x4fc8,
        seq![0x99u8, 0x94, 0xfb, 0xe5, 0x25, 0x69, 0xaa, 0xa4],
    )
}

/// Whether a header is that of the adapter information, of this version and without a chained structure.
pub open spec fn heads_adapter_info(base: BaseStructure, version: u64) -> bool {
    &&& base.next == 0
    &&& base.struct_version == version
    &&& is_type(
        base.struct_type,
        0x0677_315f,
        0xa746,
        0x4492,
        seq![0x9fu8, 0x42, 0xcb, 0x61, 0x42, 0xc9, 0xc3, 0xd4],
    )
}

/// Whether a header is that of the frame generation options, of this version and without a chained structure.
pub open spec fn heads_dlssg_options(base: BaseStructure, version: u64) -> bool {
    &&& base.next == 0
    &&& base.struct_version == version
    &&& is_type(
        base.struct_type,
        0xfac5_f1cb,
        0x2dfd,
        0x4f36,
        seq![0xa1u8, 0xe6, 0x3a, 0x9e, 0x86, 0x52, 0x56, 0xc5],
    )
}

/// Whether a header is that of the frame generation state, of this version and without a chained structure.
pub open spec fn heads_dlssg_state(base: BaseStructure, version: u64) -> bool {
    &&& base.next == 0
    &&& base.struct_version == version
    &&& is_type(
        base.struct_type,
        0xcc8a_c8e1,
        0xa179,
        0x44f5,
        seq![0x97u8, 0xfa, 0xe7, 0x41, 0x12, 0xf9, 0xbc, 0x61],
    )
}

/// Whether a header is that of the Reflex options, of this version and without a chained structure.
pub open spec fn heads_reflex_options(base: BaseStructure, version: u64) -> bool {
    &&& base.next == 0
    &&& base.struct_version == version
    &&& is_type(
        base.struct_type,
        0xf03a_f81a,
        0x6d0b,
        0x4902,
        seq![0xa6u8, 0x51, 0xc4, 0x96, 0x5e, 0x21, 0x54, 0x34],
    )
}

/// Each structure type has its identifier, and a header names the type and version it is given.
pub proof fn structures_have_their_types(
    preferences: StructType,
    constants: StructType,
    resource: StructType,
    resource_tag: StructType,
    viewport_handle: StructType,
    adapter_info: StructType,
    dlssg_options: StructType,
    dlssg_state: StructType,
    reflex_options: StructType,
    given: StructType,
    version: u64,
    base: BaseStructure,
)
    requires
        call_ensures(guid_preferences, (), preferences),
        call_ensures(guid_constants, (), constants),
        call_ensures(guid_resource, (), resource),
        call_ensures(guid_resource_tag, (), resource_tag),
        call_ensures(guid_viewport_handle, (), viewport_handle),
        call_ensures(guid_adapter_info, (), adapter_info),
        call_ensures(guid_dlssg_options, (), dlssg_options),
        call_ensures(guid_dlssg_state, (), dlssg_state),
        call_ensures(guid_reflex_options, (), reflex_options),
        call_ensures(BaseStructure::new, (given, version), base),
    ensures
        is_type(
            preferences,
            0x1ca1_0965,
            0xbf8e,
            0x432b,
            seq![0x8du8, 0xa1, 0x67, 0x16, 0xd8, 0x79, 0xfb, 0x14],
        ),
        is_type(
            constants,
            0xdcd3_5ad7,
            0x4e4a,
            0x4bad,
            seq![0xa9u8, 0x0c, 0xe0, 0xc4, 0x9e, 0xb2, 0x3a, 0xfe],
        ),
        is_type(
            resource,
            0x3a9d_70cf,
            0x2418,
            0x4b72,
            seq![0x83u8, 0x91, 0x13, 0xf8, 0x72, 0x1c, 0x72, 0x61],
        ),
        is_type(
            resource_tag,
            0x4c6a_5aad,
            0xb445,
            0x496c,
            seq![0x87u8, 0xff, 0x1a, 0xf3, 0x84, 0x5b, 0xe6, 0x53],
        ),
        is_type(
            viewport_handle,
            0x171b_6435,
            0x9b3c,
            0x4fc8,
            seq![0x99u8, 0x94, 0xfb, 0xe5, 0x25, 0x69, 0xaa, 0xa4],
        ),
        is_type(
            adapter_info,
            0x0677_315f,
            0xa746,
            0x4492,
            seq![0x9fu8, 0x42, 0xcb, 0x61, 0x42, 0xc9, 0xc3, 0xd4],
        ),
        is_type(
            dlssg_options,
            0xfac5_f1cb,
            0x2dfd,
            0x4f36,
            seq![0xa1u8, 0xe6, 0x3a, 0x9e, 0x86, 0x52, 0x56, 0xc5],
        ),
        is_type(
            dlssg_state,
            0xcc8a_c8e1,
            0xa179,
            0x44f5,
            seq![0x97u8, 0xfa, 0xe7, 0x41, 0x12, 0xf9, 0xbc, 0x61],
        ),
        is_type(
            reflex_options,
            0xf03a_f81a,
            0x6d0b,
            0x4902,
            seq![0xa6u8, 0x51, 0xc4, 0x96, 0x5e, 0x21, 0x54, 0x34],
        ),
        base.next == 0 && base.struct_type == given && base.struct_version == version,
{
}

/// A type is made of the groups and bytes it is given.
pub proof fn types_are_made_of_their_groups(
    data1: u32,
    data2: u16,
    data3: u16,
    data4: [u8; 8],
    made: StructType,
)
    requires
        call_ensures(StructType::new, (data1, data2, data3, data4), made),
    ensures
        is_type(made, data1, data2, data3, data4@),
{
}

/// Each value has its number at the Streamline boundary.
pub proof fn values_have_their_numbers(
    render_api: RenderAPI,
    render_api_code: u32,
    engine_type: EngineType,
    engine_type_code: u32,
    log_level: LogLevel,
    log_level_code: u32,
    resource_type: ResourceType,
    resource_type_code: i8,
    resource_lifecycle: ResourceLifecycle,
    resource_lifecycle_code: u32,
    boolean: Boolean,
    boolean_code: i8,
    dlssg_mode: DLSSGMode,
    dlssg_mode_code: u32,
    dlssg_queue_parallelism_mode: DLSSGQueueParallelismMode,
    dlssg_queue_parallelism_mode_code: u32,
    reflex_mode: ReflexMode,
    reflex_mode_code: u32,
    pcl_marker: PCLMarker,
    pcl_marker_code: u32,
)
    requires
        call_ensures(RenderAPI::code, (render_api,), render_api_code),
        call_ensures(EngineType::code, (engine_type,), engine_type_code),
        call_ensures(LogLevel::code, (log_level,), log_level_code),
        call_ensures(ResourceType::code, (resource_type,), resource_type_code),
        call_ensures(ResourceLifecycle::code, (resource_lifecycle,), resource_lifecycle_code),
        call_ensures(Boolean::code, (boolean,), boolean_code),
        call_ensures(DLSSGMode::code, (dlssg_mode,), dlssg_mode_code),
        call_ensures(DLSSGQueueParallelismMode::code, (dlssg_queue_parallelism_mode,), dlssg_queue_parallelism_mode_code),
        call_ensures(ReflexMode::code, (reflex_mode,), reflex_mode_code),
        call_ensures(PCLMarker::code, (pcl_marker,), pcl_marker_code),
    ensures
        match render_api {
            RenderAPI::D3D11 => render_api_code == 0,
            RenderAPI::D3D12 => render_api_code == 1,
            RenderAPI::Vulkan => render_api_code == 2,
        },
        match engine_type {
            EngineType::Custom => engine_type_code == 0,
            EngineType::Unreal => engine_type_code == 1,
            EngineType::Unity => engine_type_code == 2,
        },
        match log_level {
            LogLevel::Off => log_level_code == 0,
            LogLevel::Default => log_level_code == 1,
            LogLevel::Verbose => log_level_code == 2,
        },
        match resource_type {
            ResourceType::Tex2d => resource_type_code == 0,
            ResourceType::Buffer => resource_type_code == 1,
            ResourceType::CommandQueue => resource_type_code == 2,
            ResourceType::CommandBuffer => resource_type_code == 3,
            ResourceType::CommandPool => resource_type_code == 4,
            ResourceType::Fence => resource_type_code == 5,
            ResourceType::Swapchain => resource_type_code == 6,
            ResourceType::HostFence => resource_type_code == 7,
            ResourceType::Unknown => resource_type_code == 8,
        },
        match resource_lifecycle {
            ResourceLifecycle::OnlyValidNow => resource_lifecycle_code == 0,
            ResourceLifecycle::ValidUntilPresent => resource_lifecycle_code == 1,
            ResourceLifecycle::ValidUntilEvaluate => resource_lifecycle_code == 2,
        },
        match boolean {
            Boolean::False => boolean_code == 0,
            Boolean::True => boolean_code == 1,
            Boolean::Invalid => boolean_code == 2,
        },
        match dlssg_mode {
            DLSSGMode::Off => dlssg_mode_code == 0,
            DLSSGMode::On => dlssg_mode_code == 1,
            DLSSGMode::Auto => dlssg_mode_code == 2,
            DLSSGMode::Dynamic => dlssg_mode_code == 3,
        },
        match dlssg_queue_parallelism_mode {
            DLSSGQueueParallelismMode::BlockPresentingClientQueue => dlssg_queue_parallelism_mode_code == 0,
            DLSSGQueueParallelismMode::BlockNoClientQueues => dlssg_queue_parallelism_mode_code == 1,
        },
        match reflex_mode {
            ReflexMode::Off => reflex_mode_code == 0,
            ReflexMode::LowLatency => reflex_mode_code == 1,
            ReflexMode::LowLatencyWithBoost => reflex_mode_code == 2,
        },
        match pcl_marker {
            PCLMarker::SimulationStart => pcl_marker_code == 0,
            PCLMarker::SimulationEnd => pcl_marker_code == 1,
            PCLMarker::RenderSubmitStart => pcl_marker_code == 2,
            PCLMarker::RenderSubmitEnd => pcl_marker_code == 3,
            PCLMarker::PresentStart => pcl_marker_code == 4,
            PCLMarker::PresentEnd => pcl_marker_code == 5,
            PCLMarker::TriggerFlash => pcl_marker_code == 7,
            PCLMarker::PCLatencyPing => pcl_marker_code == 8,
        },
{
}

/// A viewport handle holds its number, and a resource and a tag what they are made of; a tag covers
/// the whole resource.
pub proof fn structures_hold_what_they_are_made_of(
    value: u32,
    viewport: ViewportHandle,
    native: u64,
    state: u32,
    width: u32,
    height: u32,
    format: u32,
    resource: Resource,
    holds: u32,
    lifecycle: ResourceLifecycle,
    tag: ResourceTag,
    mode: ReflexMode,
    reflex: ReflexOptions,
)
    requires
        call_ensures(ViewportHandle::new, (value,), viewport),
        call_ensures(Resource::new_tex2d, (native, state, width, height, format), resource),
        call_ensures(ResourceTag::new, (resource, holds, lifecycle), tag),
        call_ensures(ReflexOptions::new, (mode,), reflex),
    ensures
        heads_viewport_handle(viewport.base, 1),
        viewport.value == value,
        heads_resource(resource.base, 1),
        resource.resource_type == ResourceType::Tex2d,
        resource.native == native && resource.state == state,
        resource.width == width && resource.height == height,
        resource.native_format == format,
        resource.mip_levels == 1 && resource.array_layers == 1,
        resource.memory == 0 && resource.view == 0 && resource.gpu_virtual_address == 0,
        resource.flags == 0 && resource.usage == 0 && resource.reserved == 0,
        heads_resource_tag(tag.base, 1),
        tag.resource == resource && tag.buffer_type == holds && tag.lifecycle == lifecycle,
        tag.extent.top == 0 && tag.extent.left == 0,
        tag.extent.width == 0 && tag.extent.height == 0,
        heads_reflex_options(reflex.base, 1),
        reflex.mode == mode && reflex.frame_limit_us == 0 && !reflex.use_markers_to_optimize,
        reflex.virtual_key == 0 && reflex.id_thread == 0,
{
}

/// Structures start with nothing set: no adapter, no feature, frame generation off with one frame,
/// and a state of zeroes.
pub proof fn structures_start_with_nothing_set(
    preferences: Preferences,
    adapter: AdapterInfo,
    options: DLSSGOptions,
    state: DLSSGState,
)
    requires
        call_ensures(Preferences::new, (), preferences),
        call_ensures(AdapterInfo::new, (), adapter),
        call_ensures(DLSSGOptions::new, (), options),
        call_ensures(DLSSGState::new, (), state),
    ensures
        heads_preferences(preferences.base, 1),
        !preferences.show_console && preferences.log_level == LogLevel::Default,
        preferences.flags == 0 && preferences.features_to_load.len() == 0,
        preferences.application_id == 0 && preferences.engine == EngineType::Custom,
        preferences.engine_version is None && preferences.project_id is None,
        preferences.render_api == RenderAPI::D3D12,
        heads_adapter_info(adapter.base, 1),
        adapter.device_luid is None && adapter.vk_physical_device == 0,
        heads_dlssg_options(options.base, 5),
        options.mode == DLSSGMode::Off && options.num_frames_to_generate == 1,
        options.color_buffer_format == 0 && options.mvec_buffer_format == 0,
        options.depth_buffer_format == 0 && options.hud_less_buffer_format == 0,
        options.ui_buffer_format == 0,
        options.enable_user_interface_recomposition == Boolean::False,
        crate::laws::context::sets_nothing_else(options),
        heads_dlssg_state(state.base, 4),
        state.status == 0 && state.estimated_vram_usage_in_bytes == 0,
        state.min_width_or_height == 0 && state.num_frames_actually_presented == 0,
        state.num_frames_to_generate_max == 0,
        state.inputs_processing_completion_fence == 0,
        state.last_present_inputs_processing_completion_fence_value == 0,
        state.b_reserved4 == Boolean::Invalid,
        state.b_is_vsync_support_available == Boolean::Invalid,
        state.b_is_dynamic_mfg_supported == Boolean::Invalid,
{
}

/// Constants start with identities, no offset, a scale of one and the default camera.
pub proof fn constants_start_with_the_default_camera(
    identity: Float4x4,
    scale: MotionScale2,
    constants: Constants,
)
    requires
        call_ensures(Float4x4::identity, (), identity),
        call_ensures(MotionScale2::one, (), scale),
        call_ensures(Constants::new, (), constants),
    ensures
        crate::laws::constants::is_identity(identity),
        scale.x.numerator.bits == 0x3f80_0000 && scale.x.divisor == 1,
        scale.y.numerator.bits == 0x3f80_0000 && scale.y.divisor == 1,
        heads_constants(constants.base, 2),
        constants.camera_view_to_clip == identity && constants.clip_to_camera_view == identity,
        constants.clip_to_prev_clip == identity && constants.prev_clip_to_clip == identity,
        constants.clip_to_lens_clip == identity,
        constants.jitter_offset.x.bits == 0 && constants.jitter_offset.y.bits == 0,
        constants.mvec_scale == scale,
        constants.camera_near.bits == 0x3dcc_cccd,
        constants.camera_far.bits == 0x461c_4000,
        constants.camera_fov.bits == 0x3fc9_0fdb,
        constants.camera_aspect_ratio.bits == 0x3fe3_8e39,
        constants.depth_inverted == Boolean::False,
        constants.camera_motion_included == Boolean::False,
        constants.reset == Boolean::False,
        crate::laws::constants::leaves_the_rest(constants),
{
}

/// Zero, one and the pairs are what they are called.
pub proof fn values_are_what_they_are_called(
    zero: FloatBits,
    one: FloatBits,
    ones: Vec2,
    x: u32,
    y: u32,
    size: UVec2,
)
    requires
        call_ensures(FloatBits::zero, (), zero),
        call_ensures(FloatBits::one, (), one),
        call_ensures(Vec2::one, (), ones),
        call_ensures(UVec2::new, (x, y), size),
    ensures
        zero.bits == 0,
        one.bits == 0x3f80_0000,
        ones.x.bits == 0x3f80_0000 && ones.y.bits == 0x3f80_0000,
        size.x == x && size.y == y,
{
}

/// Each feature flag has its own bit, as NGX numbers them.
pub proof fn flags_have_their_bits(
    none: DlssFeatureFlags,
    hdr: DlssFeatureFlags,
    low_resolution: DlssFeatureFlags,
    jittered: DlssFeatureFlags,
    inverted: DlssFeatureFlags,
    exposure: DlssFeatureFlags,
    alpha: DlssFeatureFlags,
    subrect: DlssFeatureFlags,
)
    requires
        call_ensures(DlssFeatureFlags::empty, (), none),
        call_ensures(DlssFeatureFlags::high_dynamic_range, (), hdr),
        call_ensures(DlssFeatureFlags::low_resolution_motion_vectors, (), low_resolution),
        call_ensures(DlssFeatureFlags::jittered_motion_vectors, (), jittered),
        call_ensures(DlssFeatureFlags::inverted_depth, (), inverted),
        call_ensures(DlssFeatureFlags::auto_exposure, (), exposure),
        call_ensures(DlssFeatureFlags::alpha_upscaling, (), alpha),
        call_ensures(DlssFeatureFlags::output_subrect, (), subrect),
    ensures
        none.bits == 0,
        hdr.bits == 1,
        low_resolution.bits == 2,
        jittered.bits == 4,
        inverted.bits == 8,
        exposure.bits == 64,
        alpha.bits == 128,
        subrect.bits == 256,
{
}

/// The choices of a feature default to an automatic tier, unpacked roughness and hardware depth.
pub proof fn choices_have_their_defaults(
    mode: DlssPerfQualityMode,
    roughness: RoughnessMode,
    depth: DepthType,
    extent: Extent,
)
    requires
        call_ensures(DlssPerfQualityMode::default, (), mode),
        call_ensures(RoughnessMode::default, (), roughness),
        call_ensures(DepthType::default, (), depth),
        call_ensures(Extent::default, (), extent),
    ensures
        mode == DlssPerfQualityMode::Auto,
        roughness == RoughnessMode::Unpacked,
        depth == DepthType::Hardware,
        extent.top == 0 && extent.left == 0 && extent.width == 0 && extent.height == 0,
{
}

/// By default a structure is as it is when it is new.
pub proof fn defaults_are_new_structures(
    preferences: Preferences,
    adapter: AdapterInfo,
    constants: Constants,
    options: DLSSGOptions,
    state: DLSSGState,
    new_state: DLSSGState,
    set: FgConstants,
    new_set: FgConstants,
)
    requires
        call_ensures(Preferences::default, (), preferences),
        call_ensures(AdapterInfo::default, (), adapter),
        call_ensures(Constants::default, (), constants),
        call_ensures(DLSSGOptions::default, (), options),
        call_ensures(DLSSGState::default, (), state),
        call_ensures(DLSSGState::new, (), new_state),
        call_ensures(FgConstants::default, (), set),
        call_ensures(FgConstants::new, (), new_set),
    ensures
        heads_preferences(preferences.base, 1),
        !preferences.show_console && preferences.log_level == LogLevel::Default,
        preferences.flags == 0 && preferences.features_to_load.len() == 0,
        preferences.application_id == 0 && preferences.engine == EngineType::Custom,
        preferences.engine_version is None && preferences.project_id is None,
        preferences.render_api == RenderAPI::D3D12,
        heads_adapter_info(adapter.base, 1),
        adapter.device_luid is None && adapter.vk_physical_device == 0,
        crate::laws::constants::leaves_the_rest(constants),
        crate::laws::constants::is_identity(constants.camera_view_to_clip),
        crate::laws::constants::is_identity(constants.clip_to_camera_view),
        crate::laws::constants::is_identity(constants.clip_to_prev_clip),
        crate::laws::constants::is_identity(constants.prev_clip_to_clip),
        constants.jitter_offset.x.bits == 0 && constants.jitter_offset.y.bits == 0,
        constants.mvec_scale.x.numerator.bits == 0x3f80_0000 && constants.mvec_scale.x.divisor == 1,
        constants.mvec_scale.y.numerator.bits == 0x3f80_0000 && constants.mvec_scale.y.divisor == 1,
        constants.camera_near.bits == 0x3dcc_cccd && constants.camera_far.bits == 0x461c_4000,
        constants.camera_fov.bits == 0x3fc9_0fdb,
        constants.camera_aspect_ratio.bits == 0x3fe3_8e39,
        constants.depth_inverted == Boolean::False && constants.reset == Boolean::False,
        constants.camera_motion_included == Boolean::False,
        options.mode == DLSSGMode::Off && options.num_frames_to_generate == 1,
        crate::laws::context::names_no_format(options),
        crate::laws::context::sets_nothing_else(options),
        heads_dlssg_state(state.base, 4),
        state == (DLSSGState { base: state.base, ..new_state }),
        set == new_set,
{
}

/// Without an identity of its own, an application is initialized under the default one, which always
/// succeeds.
pub proof fn the_default_identity_is_this_one(
    by_default: Result<SlRequest, StreamlineError>,
    project_id: &str,
    engine_version: &str,
    named: Result<SlRequest, StreamlineError>,
)
    requires
        call_ensures(Streamline::init, (), by_default),
        project_id@ == "a0f57b54-1daf-4934-90ae-c4035c19df04"@,
        engine_version@ == "0.1.0"@,
        call_ensures(Streamline::init_with_identity, (project_id, engine_version), named),
    ensures
        by_default is Ok && named is Ok,
        by_default->Ok_0 matches SlRequest::Init { preferences, sdk_version } && (
        named->Ok_0 matches SlRequest::Init { preferences: p, sdk_version: version } && {
            &&& sdk_version == version
            &&& preferences.project_id->0@ == p.project_id->0@
            &&& preferences.engine_version->0@ == p.engine_version->0@
            &&& preferences.flags == p.flags
            &&& preferences.features_to_load@ == p.features_to_load@
            &&& preferences.render_api == p.render_api && preferences.engine == p.engine
            &&& preferences.log_level == p.log_level && preferences.show_console == p.show_console
            &&& preferences.application_id == p.application_id
        }),
{
}

/// A callback is run with what NGX is told of the application, and what it returned is handed back.
pub proof fn a_callback_gets_what_ngx_is_told<F: FnOnce(&FeatureInfo) -> T, T>(
    project_id: u128,
    data_path: Vec<u16>,
    sdk: Option<&str>,
    debug_overlay: bool,
    callback: F,
    returned: T,
)
    requires
        call_ensures(
            with_feature_info::<F, T>,
            (project_id, data_path, sdk, debug_overlay, callback),
            returned,
        ),
    ensures
        exists|info: &FeatureInfo| #[trigger]
            call_ensures(callback, (info,), returned) && crate::laws::host::tells_ngx(
                *info,
                project_id,
                data_path@,
                sdk,
                debug_overlay,
            ),
{
    let (info, filter) = choose|info: &FeatureInfo, filter: LogFilter|
        call_ensures(current_filter, (), filter) && #[trigger] info.describes(
            project_id,
            data_path@,
            crate::feature_info::optional_text(sdk),
            debug_overlay,
            filter,
        ) && call_ensures(callback, (info,), returned);
    assert(info.library_paths@[0] == info.library_paths[0]);
    if sdk is Some {
        assert(info.library_paths@[1] == info.library_paths[1]);
    }
    assert(call_ensures(callback, (info,), returned));
}

} // verus!

use dlss_wgpu_dx12::streamline::dlssg_status;
use dlss_wgpu_dx12::streamline::result::SlResult;
use dlss_wgpu_dx12::streamline::tagging::{
    dxgi_format_of, tag_buffer_types, to_float4x4, TextureFormat, UiTagKind,
};
use dlss_wgpu_dx12::streamline::types::{
    AdapterInfo, BaseStructure, Boolean, Constants, DLSSGMode, DLSSGOptions,
    DLSSGQueueParallelismMode, DLSSGState, EngineType, Extent, Float4x4, LogLevel, MotionScale,
    MotionScale2, PCLMarker, Preferences, ReflexMode, ReflexOptions, RenderAPI, Resource,
    ResourceLifecycle, ResourceTag, ResourceType, StructType, ViewportHandle, K_BUFFER_TYPE_DEPTH,
    K_BUFFER_TYPE_HUD_LESS_COLOR, K_BUFFER_TYPE_MOTION_VECTORS, K_BUFFER_TYPE_UI_ALPHA,
    K_BUFFER_TYPE_UI_COLOR_AND_ALPHA,
};
use dlss_wgpu_dx12::vector::{FloatBits, UVec2, Vec2};
use dlss_wgpu_dx12::{
    DlssExposure, DlssRayReconstructionParameters, DlssRenderParameters, DlssTexture, FgConstants,
    FgResource, FgResources, FgUi, D3D12_RESOURCE_STATE_PIXEL_SHADER_RESOURCE,
};

fn bits(value: f32) -> FloatBits {
    FloatBits { bits: value.to_bits() }
}

fn vec2(x: f32, y: f32) -> Vec2 {
    Vec2 { x: bits(x), y: bits(y) }
}

fn value(f: FloatBits) -> f32 {
    f32::from_bits(f.bits)
}

fn scale(s: MotionScale) -> f32 {
    value(s.numerator) / s.divisor as f32
}

fn approx_scale(a: MotionScale2, x: f32, y: f32) {
    assert!(
        (scale(a.x) - x).abs() < 1e-6 && (scale(a.y) - y).abs() < 1e-6,
        "expected ({x}, {y}), got {a:?}"
    );
}

#[test]
fn with_pixel_motion_is_reciprocal_resolution() {
    let c = FgConstants::new().with_pixel_motion(UVec2::new(800, 600));
    approx_scale(c.mvec_scale, 1.0 / 800.0, 1.0 / 600.0);
}

#[test]
fn from_sr_params_converts_pixel_mvec_scale_to_normalized() {
    let c = FgConstants::derive(
        Some(vec2(2.0, 2.0)),
        vec2(0.3, 0.7),
        true,
        UVec2::new(1000, 500),
    );
    approx_scale(c.mvec_scale, 0.002, 0.004);
    assert_eq!(c.jitter_offset, vec2(0.3, 0.7));
    assert!(c.reset);
}

#[test]
fn from_sr_params_none_scale_defaults_to_one_over_resolution() {
    let c = FgConstants::derive(None, vec2(0.0, 0.0), false, UVec2::new(1920, 1080));
    approx_scale(c.mvec_scale, 1.0 / 1920.0, 1.0 / 1080.0);
    assert!(!c.reset);
}

#[test]
fn scales_are_divided_as_single_precision_values() {
    for (x, width) in [(1.0f32, 1920u32), (2.0, 1000), (0.3, 7), (-5.5, 16_777_219)] {
        let c = FgConstants::derive(Some(vec2(x, x)), vec2(0.0, 0.0), false, UVec2::new(width, 0));
        assert_eq!(scale(c.mvec_scale.x).to_bits(), (x / width.max(1) as f32).to_bits());
        assert_eq!(scale(c.mvec_scale.y).to_bits(), x.to_bits());
    }
}

#[test]
fn both_upscalers_derive_the_same_constants() {
    let texture = DlssTexture { texture: (), resource: None };
    let sr = DlssRenderParameters {
        color: texture,
        depth: texture,
        motion_vectors: texture,
        exposure: DlssExposure::Automatic,
        bias: None,
        dlss_output: texture,
        reset: true,
        jitter_offset: vec2(0.25, 0.5),
        partial_texture_size: None,
        motion_vector_scale: Some(vec2(2.0, 3.0)),
    };
    let rr = DlssRayReconstructionParameters {
        color: texture,
        diffuse_albedo: texture,
        specular_albedo: texture,
        normals: texture,
        roughness: texture,
        depth: texture,
        motion_vectors: texture,
        output: texture,
        reset: true,
        jitter_offset: vec2(0.25, 0.5),
        partial_texture_size: None,
        motion_vector_scale: Some(vec2(2.0, 3.0)),
    };
    let resolution = UVec2::new(1280, 720);
    let from_sr = FgConstants::from_render_parameters(&sr, resolution);
    assert_eq!(from_sr, FgConstants::from_ray_reconstruction_parameters(&rr, resolution));
    assert_eq!(
        from_sr,
        FgConstants::derive(Some(vec2(2.0, 3.0)), vec2(0.25, 0.5), true, resolution)
    );
    assert_eq!(from_sr.camera_view_to_clip, Float4x4::identity());
}

#[test]
fn dxgi_format_of_maps_known_formats() {
    assert_eq!(dxgi_format_of(TextureFormat::Bgra8Unorm), 87);
    assert_eq!(dxgi_format_of(TextureFormat::Bgra8UnormSrgb), 91);
    assert_eq!(dxgi_format_of(TextureFormat::Rgba8Unorm), 28);
    assert_eq!(dxgi_format_of(TextureFormat::Rgba8UnormSrgb), 29);
    assert_eq!(dxgi_format_of(TextureFormat::Rgba16Float), 10);
    assert_eq!(dxgi_format_of(TextureFormat::Rgb10a2Unorm), 24);
    assert_eq!(dxgi_format_of(TextureFormat::R32Float), 41);
    assert_eq!(dxgi_format_of(TextureFormat::Depth32Float), 40);
    assert_eq!(dxgi_format_of(TextureFormat::Depth24Plus), 45);
    assert_eq!(dxgi_format_of(TextureFormat::Depth24PlusStencil8), 45);
    assert_eq!(dxgi_format_of(TextureFormat::Rg16Float), 34);
    assert_eq!(dxgi_format_of(TextureFormat::Rg32Float), 16);
    assert_eq!(dxgi_format_of(TextureFormat::R8Unorm), 61);
    assert_eq!(dxgi_format_of(TextureFormat::R16Float), 54);
}

#[test]
fn dxgi_format_of_unmapped_is_unknown_zero() {
    assert_eq!(dxgi_format_of(TextureFormat::Other), 0);
}

#[test]
fn tag_buffer_types_orders_depth_mvec_then_optionals() {
    assert_eq!(
        tag_buffer_types(false, None),
        vec![K_BUFFER_TYPE_DEPTH, K_BUFFER_TYPE_MOTION_VECTORS]
    );
    assert_eq!(
        tag_buffer_types(true, None),
        vec![K_BUFFER_TYPE_DEPTH, K_BUFFER_TYPE_MOTION_VECTORS, K_BUFFER_TYPE_HUD_LESS_COLOR]
    );
    assert_eq!(
        tag_buffer_types(true, Some(UiTagKind::ColorAndAlpha)),
        vec![
            K_BUFFER_TYPE_DEPTH,
            K_BUFFER_TYPE_MOTION_VECTORS,
            K_BUFFER_TYPE_HUD_LESS_COLOR,
            K_BUFFER_TYPE_UI_COLOR_AND_ALPHA,
        ]
    );
    assert_eq!(
        tag_buffer_types(true, Some(UiTagKind::Alpha)),
        vec![
            K_BUFFER_TYPE_DEPTH,
            K_BUFFER_TYPE_MOTION_VECTORS,
            K_BUFFER_TYPE_HUD_LESS_COLOR,
            K_BUFFER_TYPE_UI_ALPHA,
        ]
    );
    assert_eq!(
        tag_buffer_types(false, Some(UiTagKind::Alpha)),
        vec![K_BUFFER_TYPE_DEPTH, K_BUFFER_TYPE_MOTION_VECTORS, K_BUFFER_TYPE_UI_ALPHA]
    );
}

#[test]
fn tags_pair_textures_with_their_types() {
    let texture =
        |n: u64| FgResource::new(Some(n), UVec2::new(10, 20), TextureFormat::Rgba16Float);
    assert_eq!(texture(1).resource_state, D3D12_RESOURCE_STATE_PIXEL_SHADER_RESOURCE);
    assert_eq!(texture(1).dimensions(), UVec2::new(10, 20));
    assert_eq!(texture(1).native_format(), 10);
    let resources = FgResources {
        depth: texture(1),
        motion_vectors: texture(2),
        hudless_color: Some(texture(3)),
        ui: Some(FgUi::ColorAndAlpha(texture(4))),
    };
    assert_eq!(
        resources.tags(),
        vec![
            (texture(1), K_BUFFER_TYPE_DEPTH),
            (texture(2), K_BUFFER_TYPE_MOTION_VECTORS),
            (texture(3), K_BUFFER_TYPE_HUD_LESS_COLOR),
            (texture(4), K_BUFFER_TYPE_UI_COLOR_AND_ALPHA),
        ]
    );
}

#[test]
fn to_sl_translates_booleans_and_copies_scales() {
    let one = |v: f32| MotionScale { numerator: bits(v), divisor: 1 };
    let mut c = FgConstants::new();
    c.reset = true;
    c.depth_inverted = true;
    c.camera_motion_included = false;
    c.mvec_scale = MotionScale2 { x: one(0.5), y: one(0.25) };
    c.jitter_offset = vec2(0.125, 0.0625);
    let sl = c.to_sl();
    assert_eq!(sl.reset, Boolean::True);
    assert_eq!(sl.depth_inverted, Boolean::True);
    assert_eq!(sl.camera_motion_included, Boolean::False);
    approx_scale(sl.mvec_scale, 0.5, 0.25);
    assert_eq!((value(sl.jitter_offset.x), value(sl.jitter_offset.y)), (0.125, 0.0625));
}

#[test]
fn new_has_proven_defaults() {
    let c = FgConstants::new();
    approx_scale(c.mvec_scale, 1.0, 1.0);
    assert!(!c.reset);
    assert!(c.camera_motion_included);
    assert!(!c.depth_inverted);
}

#[test]
fn constants_hold_the_expected_values() {
    let c = FgConstants::default();
    assert_eq!(value(c.camera_near), 0.1);
    assert_eq!(value(c.camera_far), 1000.0);
    assert_eq!(value(c.camera_fov), 1.0);
    assert_eq!(value(c.camera_aspect_ratio), 16.0 / 9.0);
    let sl = Constants::new();
    assert_eq!(value(sl.camera_near), 0.1);
    assert_eq!(value(sl.camera_far), 10000.0);
    assert_eq!(value(sl.camera_fov), std::f32::consts::FRAC_PI_2);
    assert_eq!(value(sl.camera_aspect_ratio), 1920.0 / 1080.0);
    assert_eq!(value(sl.motion_vectors_invalid_value), 3.402_823_5e38);
    assert_eq!(value(sl.min_relative_linear_depth_object_separation), 40.0);
    assert_eq!(value(sl.camera_up.y), 1.0);
    assert_eq!(value(sl.camera_right.x), 1.0);
    assert_eq!(value(sl.camera_fwd.z), 1.0);
    assert_eq!(sl.base.struct_version, 2);
    // A caller's values reach Streamline, and the rest keeps its defaults.
    let carried = c.to_sl();
    assert_eq!(value(carried.camera_far), 1000.0);
    assert_eq!(carried.camera_motion_included, Boolean::True);
    assert_eq!(carried.clip_to_lens_clip, Float4x4::identity());
    assert_eq!(value(carried.min_relative_linear_depth_object_separation), 40.0);
}

#[test]
fn matrices_keep_their_rows() {
    let mut rows = [[bits(0.0); 4]; 4];
    for (i, row) in rows.iter_mut().enumerate() {
        for (j, cell) in row.iter_mut().enumerate() {
            *cell = bits((4 * i + j) as f32);
        }
    }
    let matrix = to_float4x4(rows);
    assert_eq!(value(matrix.row0.x), 0.0);
    assert_eq!(value(matrix.row1.w), 7.0);
    assert_eq!(value(matrix.row2.y), 9.0);
    assert_eq!(value(matrix.row3.w), 15.0);
}

#[test]
fn decode_ok_is_eok() {
    assert_eq!(dlssg_status::decode(dlssg_status::OK), "eOk");
}

#[test]
fn decode_joins_multiple_bits() {
    let s = dlssg_status::decode(
        dlssg_status::FAIL_RESOLUTION_TOO_LOW | dlssg_status::FAIL_HDR_FORMAT_NOT_SUPPORTED,
    );
    assert!(s.contains("eFailResolutionTooLow"), "{s}");
    assert!(s.contains("eFailHDRFormatNotSupported"), "{s}");
    assert!(s.contains(" | "), "{s}");
}

#[test]
fn decode_unknown_bit_is_unknown_form() {
    let s = dlssg_status::decode(1 << 20);
    assert!(s.starts_with("<unknown status"), "{s}");
}

#[test]
fn decoded_statuses_are_exact() {
    assert_eq!(dlssg_status::decode(1 << 20), "<unknown status 0x00100000>");
    assert_eq!(
        dlssg_status::decode(0x3f),
        "eFailResolutionTooLow | eFailReflexNotDetectedAtRuntime | eFailHDRFormatNotSupported | \
         eFailCommonConstantsInvalid | eFailGetCurrentBackBufferIndexNotCalled | eReserved5"
    );
    // An unnamed bit beside a named one is not shown.
    assert_eq!(dlssg_status::decode((1 << 20) | 2), "eFailReflexNotDetectedAtRuntime");
}

#[test]
fn result_numbers_round_trip() {
    let mut seen = Vec::new();
    for number in 0..40 {
        let result = SlResult::from_number(number).unwrap();
        assert_eq!(result.is_ok(), number == 0);
        assert!(!seen.contains(&result));
        seen.push(result);
    }
    assert_eq!(SlResult::from_number(40), None);
    assert_eq!(SlResult::from_number(-1), None);
    assert_eq!(SlResult::from_number(4), Some(SlResult::ErrorOSDisabledHWS));
    assert_eq!(SlResult::from_number(39), Some(SlResult::WarnOutOfVRAM));
    assert_eq!(SlResult::ErrorExceptionHandler.name(), "ErrorExceptionHandler");
    assert_eq!(SlResult::Success.name(), "Ok");
}

#[test]
fn enumerations_have_their_numbers() {
    assert_eq!(RenderAPI::D3D12.code(), 1);
    assert_eq!(EngineType::Unity.code(), 2);
    assert_eq!(LogLevel::Verbose.code(), 2);
    assert_eq!(ResourceType::Unknown.code(), 8);
    assert_eq!(ResourceLifecycle::ValidUntilPresent.code(), 1);
    assert_eq!(Boolean::Invalid.code(), 2);
    assert_eq!(DLSSGMode::Dynamic.code(), 3);
    assert_eq!(DLSSGQueueParallelismMode::BlockNoClientQueues.code(), 1);
    assert_eq!(ReflexMode::LowLatencyWithBoost.code(), 2);
    assert_eq!(PCLMarker::PresentEnd.code(), 5);
    assert_eq!(PCLMarker::TriggerFlash.code(), 7);
    assert_eq!(PCLMarker::PCLatencyPing.code(), 8);
}

fn guid(base: BaseStructure) -> String {
    let t = base.struct_type;
    let rest: String = t.data4.iter().map(|b| format!("{b:02X}")).collect();
    format!("{:08X}-{:04X}-{:04X}-{}-{}", t.data1, t.data2, t.data3, &rest[..4], &rest[4..])
}

#[test]
fn default_structures_are_the_new_ones() {
    assert_eq!(Preferences::default(), Preferences::new());
    assert_eq!(AdapterInfo::default(), AdapterInfo::new());
    assert_eq!(Constants::default(), Constants::new());
    assert_eq!(DLSSGOptions::default(), DLSSGOptions::new());
    assert_eq!(DLSSGState::default(), DLSSGState::new());
    assert_eq!(AdapterInfo::default().device_luid, None);
    assert_eq!(DLSSGOptions::default().mode, DLSSGMode::Off);
    assert_eq!(DLSSGState::default().b_reserved4, Boolean::Invalid);
}

#[test]
fn structures_name_their_types_and_versions() {
    let headers = [
        (Preferences::new().base, "1CA10965-BF8E-432B-8DA1-6716D879FB14", 1),
        (Constants::new().base, "DCD35AD7-4E4A-4BAD-A90C-E0C49EB23AFE", 2),
        (Resource::new_tex2d(0, 0, 0, 0, 0).base, "3A9D70CF-2418-4B72-8391-13F8721C7261", 1),
        (ViewportHandle::new(0).base, "171B6435-9B3C-4FC8-9994-FBE52569AAA4", 1),
        (AdapterInfo::new().base, "0677315F-A746-4492-9F42-CB6142C9C3D4", 1),
        (DLSSGOptions::new().base, "FAC5F1CB-2DFD-4F36-A1E6-3A9E865256C5", 5),
        (DLSSGState::new().base, "CC8AC8E1-A179-44F5-97FA-E74112F9BC61", 4),
        (ReflexOptions::new(ReflexMode::Off).base, "F03AF81A-6D0B-4902-A651-C4965E215434", 1),
    ];
    for (base, id, version) in headers {
        assert_eq!(guid(base), id);
        assert_eq!((base.struct_version, base.next), (version, 0));
    }
    let resource = Resource::new_tex2d(5, 6, 7, 8, 9);
    let tag = ResourceTag::new(resource, 53, ResourceLifecycle::OnlyValidNow);
    assert_eq!(guid(tag.base), "4C6A5AAD-B445-496C-87FF-1AF3845BE653");
    assert_eq!(tag.resource, resource);
    assert_eq!(tag.extent, Extent::default());
    let t = StructType::new(1, 2, 3, [4; 8]);
    assert_eq!((t.data1, t.data2, t.data3, t.data4), (1, 2, 3, [4; 8]));
}

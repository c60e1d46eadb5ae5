use dlss_wgpu_dx12::config::PerfQualityValue;
use dlss_wgpu_dx12::jitter::{halton_sequence, Fraction, Offset};
use dlss_wgpu_dx12::ngx_feature::{
    EvaluationEncoder, FeatureReply, NgxFeature, OptimalSettings, ReleaseStep,
};
use dlss_wgpu_dx12::nvsdk_ngx::{
    NGX_RESULT_FAIL_FEATURE_ALREADY_EXISTS, NGX_RESULT_FAIL_INVALID_PARAMETER,
    NGX_RESULT_FAIL_OUT_OF_DATE, NGX_RESULT_SUCCESS,
};
use dlss_wgpu_dx12::ray_reconstruction::{PresetHint, RenderPreset};
use dlss_wgpu_dx12::render_parameters::{
    barrier_slots, BarrierSlot, TextureTransition, TextureUses,
};
use dlss_wgpu_dx12::sdk::{SdkReply, SdkStep, TeardownStep};
use dlss_wgpu_dx12::vector::{FloatBits, UVec2, Vec2};
use dlss_wgpu_dx12::{
    DepthType, DlssContext, DlssError, DlssExposure, DlssFeatureFlags, DlssPerfQualityMode,
    DlssRayReconstructionContext, DlssRayReconstructionParameters, DlssRenderParameters, DlssSdk,
    DlssTexture, RoughnessMode,
};

fn bits(value: f32) -> FloatBits {
    FloatBits { bits: value.to_bits() }
}

fn vec2(x: f32, y: f32) -> Vec2 {
    Vec2 { x: bits(x), y: bits(y) }
}

fn value(f: Fraction) -> f32 {
    f.numerator as f32 / f.denominator as f32
}

fn approx(a: f32, b: f32) {
    assert!((a - b).abs() < 1e-6, "expected {b}, got {a}");
}

#[test]
fn halton_base_2_radical_inverse() {
    approx(value(halton_sequence(1, 2)), 0.5);
    approx(value(halton_sequence(2, 2)), 0.25);
    approx(value(halton_sequence(3, 2)), 0.75);
    approx(value(halton_sequence(4, 2)), 0.125);
}

#[test]
fn halton_base_3_radical_inverse() {
    approx(value(halton_sequence(1, 3)), 1.0 / 3.0);
    approx(value(halton_sequence(2, 3)), 2.0 / 3.0);
    approx(value(halton_sequence(3, 3)), 1.0 / 9.0);
}

#[test]
fn halton_index_zero_is_zero() {
    approx(value(halton_sequence(0, 2)), 0.0);
    approx(value(halton_sequence(0, 3)), 0.0);
}

#[test]
fn halton_values_are_exact_fractions() {
    assert_eq!(halton_sequence(6, 2), Fraction { numerator: 3, denominator: 8 });
    assert_eq!(halton_sequence(5, 3), Fraction { numerator: 7, denominator: 9 });
    let last = halton_sequence(u32::MAX, 2);
    assert_eq!(last, Fraction { numerator: (1 << 32) - 1, denominator: 1 << 32 });
    let wide = halton_sequence(u32::MAX, u32::MAX);
    assert_eq!(wide, Fraction { numerator: 1, denominator: (u32::MAX as u64) * (u32::MAX as u64) });
}

#[test]
fn halton_values_are_distinct_and_below_one() {
    for base in [2u32, 3, 7] {
        let values: Vec<Fraction> = (0..200).map(|i| halton_sequence(i, base)).collect();
        for (i, a) in values.iter().enumerate() {
            assert!(a.numerator < a.denominator);
            for b in &values[..i] {
                assert_ne!(
                    a.numerator as u128 * b.denominator as u128,
                    b.numerator as u128 * a.denominator as u128
                );
            }
        }
    }
}

fn settings(optimal: UVec2, min: UVec2, max: UVec2) -> OptimalSettings {
    OptimalSettings { result: NGX_RESULT_SUCCESS, optimal, min, max }
}

fn context(upscaled: UVec2) -> DlssContext {
    let creation = DlssContext::new(
        upscaled,
        DlssPerfQualityMode::Quality,
        DlssFeatureFlags::empty(),
    );
    let call = creation
        .create_call(settings(UVec2::new(1280, 720), UVec2::new(960, 540), UVec2::new(1920, 1080)))
        .unwrap();
    DlssContext::created(
        &call,
        Some(FeatureReply { result: NGX_RESULT_SUCCESS, handle: 99 }),
    )
    .unwrap()
}

fn phase_count(upscaled: u32, rendered: u32) -> u32 {
    let ratio = upscaled as f32 / rendered as f32;
    ((8.0 * ratio * ratio) as u32).max(1)
}

fn offset_of(f: Fraction) -> Offset {
    Offset {
        numerator: 2 * f.numerator as i64 - f.denominator as i64,
        denominator: 2 * f.denominator,
    }
}

#[test]
fn jitter_repeats_with_the_binary32_phase_count() {
    let widths = [
        0u32, 1, 2, 3, 7, 100, 640, 853, 1279, 1280, 1920, 2560, 3839, 3840, 7680, 65_535,
        16_777_215, 16_777_216, 16_777_217, 16_777_219, 33_554_435, 123_456_789, 2_147_483_649,
        4_294_967_167, 4_294_967_295,
    ];
    for upscaled in widths {
        let ctx = context(UVec2::new(upscaled, 4));
        for rendered in widths {
            let period = phase_count(upscaled, rendered);
            for frame in [0u32, 1, 31, 32, 33, 1_000_003, u32::MAX] {
                let jitter = ctx.suggested_jitter(frame, UVec2::new(rendered, 9));
                let i = frame % period;
                assert_eq!(jitter.x, offset_of(halton_sequence(i, 2)), "{upscaled} {rendered}");
                assert_eq!(jitter.y, offset_of(halton_sequence(i, 3)), "{upscaled} {rendered}");
            }
        }
    }
}

#[test]
fn phase_counts_agree_on_many_ratios() {
    let mut seed: u64 = 0x9e37_79b9_7f4a_7c15;
    for _ in 0..20_000 {
        seed = seed.wrapping_mul(6_364_136_223_846_793_005).wrapping_add(1_442_695_040_888_963_407);
        let a = (seed >> 32) as u32 >> (seed % 29);
        let b = (seed.rotate_left(17) >> 32) as u32 >> (seed % 31);
        let computed = dlss_wgpu_dx12::binary32::eight_ratio_squared_of(a, b);
        let ratio = a as f32 / b as f32;
        assert_eq!(computed, (8.0 * ratio * ratio) as u32, "{a} / {b}");
    }
}

#[test]
fn frames_share_a_jitter_once_per_repetition() {
    let ctx = context(UVec2::new(3840, 2160));
    let rendered = UVec2::new(1920, 1080);
    assert_eq!(phase_count(3840, 1920), 32);
    for first in 0..70u32 {
        for second in 0..70u32 {
            let alike =
                ctx.suggested_jitter(first, rendered) == ctx.suggested_jitter(second, rendered);
            assert_eq!(alike, first % 32 == second % 32, "{first} {second}");
        }
    }
}

#[test]
fn first_jitter_is_the_corner_of_the_pixel() {
    let jitter = context(UVec2::new(3840, 2160)).suggested_jitter(0, UVec2::new(1920, 1080));
    assert_eq!(jitter.x, Offset { numerator: -1, denominator: 2 });
    assert_eq!(jitter.y, Offset { numerator: -1, denominator: 2 });
}

#[test]
fn manual_exposure_adds_exposure_transition_vs_automatic() {
    let automatic = barrier_slots(false, false);
    let manual = barrier_slots(true, false);
    assert_eq!(manual.len(), automatic.len() + 1);
    assert!(!automatic.iter().any(|(slot, _)| *slot == BarrierSlot::Exposure));
    assert_eq!(manual.iter().filter(|(slot, _)| *slot == BarrierSlot::Exposure).count(), 1);
    assert!(manual.contains(&(BarrierSlot::Exposure, TextureUses::Resource)));
    let manual_without_exposure: Vec<_> =
        manual.iter().copied().filter(|(slot, _)| *slot != BarrierSlot::Exposure).collect();
    assert_eq!(manual_without_exposure, automatic);
}

#[test]
fn bias_adds_exactly_one_transition() {
    for &manual_exposure in &[false, true] {
        let without_bias = barrier_slots(manual_exposure, false);
        let with_bias = barrier_slots(manual_exposure, true);
        assert_eq!(with_bias.len(), without_bias.len() + 1);
        assert!(!without_bias.iter().any(|(slot, _)| *slot == BarrierSlot::Bias));
        assert_eq!(with_bias.iter().filter(|(slot, _)| *slot == BarrierSlot::Bias).count(), 1);
        assert!(with_bias.contains(&(BarrierSlot::Bias, TextureUses::Resource)));
    }
}

#[test]
fn output_is_last_and_only_uav() {
    let slots = barrier_slots(true, true);
    assert_eq!(slots.last(), Some(&(BarrierSlot::Output, TextureUses::StorageReadWrite)));
    assert_eq!(
        slots.iter().filter(|(_, state)| *state == TextureUses::StorageReadWrite).count(),
        1
    );
    assert_eq!(slots.len(), 6);
}

fn texture(name: &'static str, resource: u64) -> DlssTexture<&'static str> {
    DlssTexture { texture: name, resource: Some(resource) }
}

fn render_parameters() -> DlssRenderParameters<&'static str> {
    DlssRenderParameters {
        color: texture("color", 1),
        depth: texture("depth", 2),
        motion_vectors: texture("motion", 3),
        exposure: DlssExposure::Automatic,
        bias: None,
        dlss_output: texture("output", 4),
        reset: false,
        jitter_offset: vec2(0.25, -0.125),
        partial_texture_size: None,
        motion_vector_scale: None,
    }
}

fn transition(texture: &'static str, state: TextureUses) -> TextureTransition<&'static str> {
    TextureTransition { texture, state }
}

#[test]
fn render_fills_in_defaults() {
    let evaluation = context(UVec2::new(3840, 2160)).render(render_parameters()).unwrap();
    assert_eq!(
        evaluation.transitions,
        vec![
            transition("color", TextureUses::Resource),
            transition("depth", TextureUses::Resource),
            transition("motion", TextureUses::Resource),
            transition("output", TextureUses::StorageReadWrite),
        ]
    );
    let eval = evaluation.eval;
    assert_eq!((eval.color, eval.depth, eval.motion_vectors, eval.output), (1, 2, 3, 4));
    assert_eq!(eval.jitter_offset, vec2(0.25, -0.125));
    assert_eq!(eval.render_subrect, UVec2::new(1920, 1080));
    assert_eq!(eval.reset, 0);
    assert_eq!(eval.motion_vector_scale, vec2(1.0, 1.0));
    assert_eq!((eval.exposure_texture, eval.bias_mask), (0, 0));
    assert_eq!((eval.pre_exposure, eval.exposure_scale), (bits(0.0), bits(0.0)));
}

#[test]
fn render_passes_every_option_on() {
    let mut parameters = render_parameters();
    parameters.exposure = DlssExposure::Manual {
        exposure: texture("exposure", 5),
        exposure_scale: Some(bits(2.0)),
        pre_exposure: Some(bits(0.5)),
    };
    parameters.bias = Some(texture("bias", 6));
    parameters.reset = true;
    parameters.partial_texture_size = Some(UVec2::new(640, 360));
    parameters.motion_vector_scale = Some(vec2(3.0, 4.0));
    let evaluation = context(UVec2::new(3840, 2160)).render(parameters).unwrap();
    assert_eq!(
        evaluation.transitions,
        vec![
            transition("color", TextureUses::Resource),
            transition("depth", TextureUses::Resource),
            transition("motion", TextureUses::Resource),
            transition("exposure", TextureUses::Resource),
            transition("bias", TextureUses::Resource),
            transition("output", TextureUses::StorageReadWrite),
        ]
    );
    let eval = evaluation.eval;
    assert_eq!(eval.render_subrect, UVec2::new(640, 360));
    assert_eq!(eval.reset, 1);
    assert_eq!(eval.motion_vector_scale, vec2(3.0, 4.0));
    assert_eq!((eval.exposure_texture, eval.bias_mask), (5, 6));
    assert_eq!((eval.pre_exposure, eval.exposure_scale), (bits(0.5), bits(2.0)));

    parameters.exposure = DlssExposure::Manual {
        exposure: texture("exposure", 5),
        exposure_scale: None,
        pre_exposure: None,
    };
    let eval = context(UVec2::new(3840, 2160)).render(parameters).unwrap().eval;
    assert_eq!((eval.pre_exposure, eval.exposure_scale), (bits(0.0), bits(1.0)));
}

#[test]
fn render_rejects_null_required_resources() {
    let ctx = context(UVec2::new(3840, 2160));
    for missing in [None, Some(0)] {
        for slot in 0..4 {
            let mut parameters = render_parameters();
            match slot {
                0 => parameters.color.resource = missing,
                1 => parameters.depth.resource = missing,
                2 => parameters.motion_vectors.resource = missing,
                _ => parameters.dlss_output.resource = missing,
            }
            assert_eq!(parameters.validate(), Err(DlssError::MissingInput));
            assert!(matches!(ctx.render(parameters), Err(DlssError::MissingInput)));
        }
    }
    // Optional resources may be null.
    let mut parameters = render_parameters();
    parameters.bias = Some(DlssTexture { texture: "bias", resource: None });
    assert_eq!(ctx.render(parameters).unwrap().eval.bias_mask, 0);
}

#[test]
fn context_creation_asks_for_what_ngx_recommends() {
    let creation = DlssContext::new(
        UVec2::new(3840, 2160),
        DlssPerfQualityMode::Performance,
        DlssFeatureFlags::high_dynamic_range().union(DlssFeatureFlags::output_subrect()),
    );
    let query = creation.settings_query();
    assert_eq!(query.upscaled, UVec2::new(3840, 2160));
    assert_eq!(query.perf_quality, PerfQualityValue::MaxPerf);

    let reply = settings(UVec2::new(1920, 1080), UVec2::new(1280, 720), UVec2::new(2560, 1440));
    let call = creation.create_call(reply).unwrap();
    let params = call.params;
    assert_eq!(params.render, UVec2::new(1920, 1080));
    assert_eq!(params.target, UVec2::new(3840, 2160));
    assert_eq!(params.perf_quality, PerfQualityValue::MaxPerf);
    assert_eq!(params.feature_create_flags, 1);
    assert!(params.enable_output_subrects);

    let ctx = DlssContext::created(
        &call,
        Some(FeatureReply { result: NGX_RESULT_SUCCESS, handle: 7 }),
    )
    .unwrap();
    assert_eq!(ctx.upscaled_resolution(), UVec2::new(3840, 2160));
    assert_eq!(ctx.render_resolution(), UVec2::new(1920, 1080));
    let range = ctx.render_resolution_range();
    assert_eq!((range.min, range.max), (UVec2::new(1280, 720), UVec2::new(2560, 1440)));
    assert_eq!(
        ctx.release(),
        vec![ReleaseStep::WaitForGpu, ReleaseStep::ReleaseFeature(7)]
    );
}

#[test]
fn context_creation_reports_failures() {
    let creation = DlssContext::new(
        UVec2::new(1920, 1080),
        DlssPerfQualityMode::Auto,
        DlssFeatureFlags::empty(),
    );
    let zero = UVec2::new(0, 0);
    let failed = OptimalSettings {
        result: NGX_RESULT_FAIL_OUT_OF_DATE,
        optimal: zero,
        min: zero,
        max: zero,
    };
    assert!(matches!(creation.create_call(failed), Err(DlssError::OutOfDate)));
    let call = creation.create_call(settings(zero, zero, zero)).unwrap();
    assert!(matches!(
        DlssContext::created(&call, None),
        Err(DlssError::FeatureNotSupported)
    ));
    let reply = FeatureReply { result: NGX_RESULT_FAIL_FEATURE_ALREADY_EXISTS, handle: 1 };
    assert!(matches!(
        DlssContext::created(&call, Some(reply)),
        Err(DlssError::FeatureAlreadyExists)
    ));
}

#[test]
fn dlaa_collapses_to_the_output_resolution() {
    let creation = DlssContext::new(
        UVec2::new(2560, 1440),
        DlssPerfQualityMode::Dlaa,
        DlssFeatureFlags::empty(),
    );
    let reply = settings(UVec2::new(1, 2), UVec2::new(3, 4), UVec2::new(5, 6));
    let call = creation.create_call(reply).unwrap();
    assert_eq!(call.params.render, UVec2::new(2560, 1440));
    assert_eq!(call.resolutions.min, UVec2::new(2560, 1440));
    assert_eq!(call.resolutions.max, UVec2::new(2560, 1440));
    // An automatic choice of DLAA keeps what NGX recommends.
    let creation = DlssContext::new(
        UVec2::new(1280, 720),
        DlssPerfQualityMode::Auto,
        DlssFeatureFlags::empty(),
    );
    let params = creation.create_call(reply).unwrap().params;
    assert_eq!(params.perf_quality, PerfQualityValue::Dlaa);
    assert_eq!(params.render, UVec2::new(1, 2));
}

#[test]
fn evaluation_submits_transitions_first() {
    let ctx = context(UVec2::new(3840, 2160));
    assert_eq!(
        ctx.evaluated(Some(NGX_RESULT_SUCCESS)).unwrap(),
        vec![EvaluationEncoder::Transitions, EvaluationEncoder::Evaluate]
    );
    assert_eq!(ctx.evaluated(None), Err(DlssError::FeatureNotSupported));
    assert_eq!(
        ctx.evaluated(Some(NGX_RESULT_FAIL_INVALID_PARAMETER)),
        Err(DlssError::InvalidParameters)
    );
}

#[test]
fn failed_release_is_only_logged() {
    assert_eq!(NgxFeature::released(NGX_RESULT_SUCCESS), None);
    assert_eq!(
        NgxFeature::released(0xDEAD).unwrap(),
        "Failed to release DLSS feature: Unhandled NGX result code: 0xdead"
    );
    assert_eq!(DlssContext::released(NGX_RESULT_SUCCESS), None);
    assert_eq!(
        DlssContext::released(0xDEAD).unwrap(),
        "Failed to release DlssContext feature: Unhandled NGX result code: 0xdead"
    );
    assert_eq!(DlssRayReconstructionContext::released(NGX_RESULT_SUCCESS), None);
    assert_eq!(
        DlssRayReconstructionContext::released(0xDEAD),
        NgxFeature::released(0xDEAD)
    );
}

fn reconstruction_parameters() -> DlssRayReconstructionParameters<&'static str> {
    DlssRayReconstructionParameters {
        color: texture("color", 1),
        diffuse_albedo: texture("diffuse", 2),
        specular_albedo: texture("specular", 3),
        normals: texture("normals", 4),
        roughness: texture("roughness", 5),
        depth: texture("depth", 6),
        motion_vectors: texture("motion", 7),
        output: texture("output", 8),
        reset: true,
        jitter_offset: vec2(0.5, 0.0),
        partial_texture_size: None,
        motion_vector_scale: None,
    }
}

fn reconstruction_context() -> DlssRayReconstructionContext {
    let creation = DlssRayReconstructionContext::new(
        UVec2::new(3840, 2160),
        DlssPerfQualityMode::Balanced,
        RoughnessMode::Packed,
        DepthType::Linear,
        DlssFeatureFlags::inverted_depth(),
    );
    let call = creation
        .create_call(settings(UVec2::new(2228, 1253), UVec2::new(1920, 1080), UVec2::new(2560, 1440)))
        .unwrap();
    DlssRayReconstructionContext::created(
        &call,
        Some(FeatureReply { result: NGX_RESULT_SUCCESS, handle: 3 }),
    )
    .unwrap()
}

#[test]
fn reconstruction_mandates_flags_and_pins_presets() {
    let creation = DlssRayReconstructionContext::new(
        UVec2::new(3840, 2160),
        DlssPerfQualityMode::Balanced,
        RoughnessMode::Packed,
        DepthType::Linear,
        DlssFeatureFlags::inverted_depth(),
    );
    assert_eq!(creation.settings_query().perf_quality, PerfQualityValue::Balanced);
    let call = creation
        .create_call(settings(UVec2::new(2228, 1253), UVec2::new(1, 1), UVec2::new(2, 2)))
        .unwrap();
    assert_eq!(call.params.feature_create_flags, 1 | 2 | 8);
    assert!(!call.params.enable_output_subrects);
    assert_eq!(call.params.roughness_mode, RoughnessMode::Packed);
    assert_eq!(call.params.depth_type, DepthType::Linear);
    assert_eq!(call.params.render, UVec2::new(2228, 1253));
    assert_eq!(call.params.target, UVec2::new(3840, 2160));
    assert_eq!(
        call.preset_hints,
        vec![
            (PresetHint::Dlaa, RenderPreset::D),
            (PresetHint::Quality, RenderPreset::D),
            (PresetHint::Balanced, RenderPreset::D),
            (PresetHint::Performance, RenderPreset::D),
            (PresetHint::UltraPerformance, RenderPreset::D),
            (PresetHint::UltraQuality, RenderPreset::D),
        ]
    );
    let zero = UVec2::new(0, 0);
    let failed = OptimalSettings { result: 0, optimal: zero, min: zero, max: zero };
    assert!(matches!(creation.create_call(failed), Err(DlssError::Other(0))));
    assert!(matches!(
        DlssRayReconstructionContext::created(&call, None),
        Err(DlssError::FeatureNotSupported)
    ));
}

#[test]
fn reconstruction_renders_eight_transitions() {
    let ctx = reconstruction_context();
    let evaluation = ctx.render(reconstruction_parameters()).unwrap();
    let names: Vec<&str> = evaluation.transitions.iter().map(|t| t.texture).collect();
    assert_eq!(
        names,
        vec!["color", "diffuse", "specular", "normals", "roughness", "depth", "motion", "output"]
    );
    let writable: Vec<bool> = evaluation
        .transitions
        .iter()
        .map(|t| t.state == TextureUses::StorageReadWrite)
        .collect();
    assert_eq!(writable, vec![false, false, false, false, false, false, false, true]);
    let eval = evaluation.eval;
    assert_eq!(
        (eval.color, eval.diffuse_albedo, eval.specular_albedo, eval.normals),
        (1, 2, 3, 4)
    );
    assert_eq!((eval.roughness, eval.depth, eval.motion_vectors, eval.output), (5, 6, 7, 8));
    assert_eq!(eval.render_subrect, UVec2::new(2560, 1440));
    assert_eq!(eval.reset, 1);
    assert_eq!(eval.motion_vector_scale, vec2(1.0, 1.0));
    assert_eq!(ctx.render_resolution(), UVec2::new(2228, 1253));
    assert_eq!(ctx.upscaled_resolution(), UVec2::new(3840, 2160));
    assert_eq!(ctx.render_resolution_range().min, UVec2::new(1920, 1080));
    assert_eq!(ctx.suggested_jitter(1, UVec2::new(1, 1)).x, Offset { numerator: 0, denominator: 4 });
    assert_eq!(
        ctx.release(),
        vec![ReleaseStep::WaitForGpu, ReleaseStep::ReleaseFeature(3)]
    );
    assert!(ctx.evaluated(Some(NGX_RESULT_SUCCESS)).is_ok());
}

#[test]
fn reconstruction_does_not_require_roughness() {
    let ctx = reconstruction_context();
    let mut parameters = reconstruction_parameters();
    parameters.roughness.resource = None;
    assert_eq!(ctx.render(parameters).unwrap().eval.roughness, 0);
    for slot in 0..7 {
        let mut parameters = reconstruction_parameters();
        match slot {
            0 => parameters.color.resource = None,
            1 => parameters.diffuse_albedo.resource = None,
            2 => parameters.specular_albedo.resource = None,
            3 => parameters.normals.resource = Some(0),
            4 => parameters.depth.resource = None,
            5 => parameters.motion_vectors.resource = None,
            _ => parameters.output.resource = None,
        }
        assert!(matches!(ctx.render(parameters), Err(DlssError::MissingInput)));
    }
}

fn reply(result: i32) -> SdkReply {
    SdkReply { result, parameters: 0, available: 0 }
}

#[test]
fn sdk_comes_up_step_by_step() {
    let step = DlssSdk::new(true);
    assert_eq!(step, SdkStep::Initialize);
    let step = step.next(reply(NGX_RESULT_SUCCESS));
    assert_eq!(step, SdkStep::FetchParameters);
    let step = step.next(SdkReply { result: NGX_RESULT_SUCCESS, parameters: 42, available: 0 });
    assert_eq!(step, SdkStep::ProbeSupport { parameters: 42 });
    let step = step.next(SdkReply { result: NGX_RESULT_SUCCESS, parameters: 0, available: 1 });
    assert_eq!(step, SdkStep::Ready(DlssSdk { parameters: 42 }));
    assert_eq!(step.next(reply(0)), step);
}

#[test]
fn sdk_init_reports_failures() {
    assert_eq!(DlssSdk::new(false), SdkStep::Failed(DlssError::FeatureNotSupported));
    assert_eq!(
        SdkStep::Initialize.next(reply(NGX_RESULT_FAIL_OUT_OF_DATE)),
        SdkStep::Failed(DlssError::OutOfDate)
    );
    assert_eq!(
        SdkStep::FetchParameters.next(reply(NGX_RESULT_FAIL_OUT_OF_DATE)),
        SdkStep::Failed(DlssError::OutOfDate)
    );
    // A probe that fails, or that finds no support, destroys the parameters first.
    let probe = SdkStep::ProbeSupport { parameters: 9 };
    let unsupported = probe.next(reply(NGX_RESULT_SUCCESS));
    assert_eq!(
        unsupported,
        SdkStep::DestroyParameters { parameters: 9, error: DlssError::FeatureNotSupported }
    );
    assert_eq!(
        unsupported.next(reply(NGX_RESULT_FAIL_OUT_OF_DATE)),
        SdkStep::Failed(DlssError::FeatureNotSupported)
    );
    let failed = probe.next(SdkReply { result: 5, parameters: 0, available: 1 });
    assert_eq!(
        failed,
        SdkStep::DestroyParameters { parameters: 9, error: DlssError::Other(5) }
    );
    assert_eq!(failed.next(reply(NGX_RESULT_SUCCESS)), SdkStep::Failed(DlssError::Other(5)));
}

#[test]
fn sdk_reports_memory_and_tears_down_in_order() {
    let sdk = DlssSdk { parameters: 11 };
    assert_eq!(sdk.vram_allocated_bytes(NGX_RESULT_SUCCESS, 1 << 40), Ok(1 << 40));
    assert_eq!(
        sdk.vram_allocated_bytes(NGX_RESULT_FAIL_INVALID_PARAMETER, 3),
        Err(DlssError::InvalidParameters)
    );
    assert_eq!(
        sdk.teardown(true),
        vec![
            TeardownStep::WaitForGpu,
            TeardownStep::DestroyParameters(11),
            TeardownStep::Shutdown
        ]
    );
    assert_eq!(sdk.teardown(false), vec![TeardownStep::WaitForGpu]);
}

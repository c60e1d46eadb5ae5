use dlss_wgpu_dx12::config::PerfQualityValue;
use dlss_wgpu_dx12::nvsdk_ngx::{
    check_ngx_result, NGX_RESULT_FAIL, NGX_RESULT_FAIL_FEATURE_NOT_SUPPORTED,
    NGX_RESULT_FAIL_INVALID_PARAMETER, NGX_RESULT_SUCCESS,
};
use dlss_wgpu_dx12::vector::UVec2;
use dlss_wgpu_dx12::{DepthType, DlssError, DlssFeatureFlags, DlssPerfQualityMode, RoughnessMode};

#[test]
fn perf_quality_fixed_modes_map_correctly() {
    let res = UVec2::new(3840, 2160);
    assert_eq!(DlssPerfQualityMode::Dlaa.as_perf_quality_value(res), PerfQualityValue::Dlaa);
    assert_eq!(
        DlssPerfQualityMode::Quality.as_perf_quality_value(res),
        PerfQualityValue::MaxQuality
    );
    assert_eq!(
        DlssPerfQualityMode::Balanced.as_perf_quality_value(res),
        PerfQualityValue::Balanced
    );
    assert_eq!(
        DlssPerfQualityMode::Performance.as_perf_quality_value(res),
        PerfQualityValue::MaxPerf
    );
    assert_eq!(
        DlssPerfQualityMode::UltraPerformance.as_perf_quality_value(res),
        PerfQualityValue::UltraPerformance
    );
}

#[test]
fn perf_quality_auto_megapixel_ladder() {
    let auto = DlssPerfQualityMode::Auto;
    // 1280x720 is 0.92 megapixels, below 2.03.
    assert_eq!(auto.as_perf_quality_value(UVec2::new(1280, 720)), PerfQualityValue::Dlaa);
    // 1920x1080 is 2.07 megapixels, below 3.68.
    assert_eq!(auto.as_perf_quality_value(UVec2::new(1920, 1080)), PerfQualityValue::MaxQuality);
    // 3840x1600 is 6.14 megapixels, below 8.29.
    assert_eq!(auto.as_perf_quality_value(UVec2::new(3840, 1600)), PerfQualityValue::MaxPerf);
    // 3840x2160 is 8.29 megapixels.
    assert_eq!(
        auto.as_perf_quality_value(UVec2::new(3840, 2160)),
        PerfQualityValue::UltraPerformance
    );
}

#[test]
fn automatic_tiers_agree_with_the_megapixel_comparison() {
    let auto = DlssPerfQualityMode::Auto;
    let by_megapixels = |pixels: u64| {
        let mega_pixels = pixels as f32 / 1_000_000.0;
        if mega_pixels < 2.03 {
            PerfQualityValue::Dlaa
        } else if mega_pixels < 3.68 {
            PerfQualityValue::MaxQuality
        } else if mega_pixels < 8.29 {
            PerfQualityValue::MaxPerf
        } else {
            PerfQualityValue::UltraPerformance
        }
    };
    for limit in [2_030_000u32, 3_680_000, 8_290_000] {
        for width in limit - 40..limit + 40 {
            assert_eq!(
                auto.as_perf_quality_value(UVec2::new(width, 1)),
                by_megapixels(width as u64),
                "{width}"
            );
        }
    }
    assert_eq!(
        auto.as_perf_quality_value(UVec2::new(u32::MAX, u32::MAX)),
        PerfQualityValue::UltraPerformance
    );
    assert_eq!(auto.as_perf_quality_value(UVec2::new(0, 5)), PerfQualityValue::Dlaa);
}

#[test]
fn configuration_defaults() {
    assert_eq!(DlssPerfQualityMode::default(), DlssPerfQualityMode::Auto);
    assert_eq!(RoughnessMode::default(), RoughnessMode::Unpacked);
    assert_eq!(DepthType::default(), DepthType::Hardware);
}

#[test]
fn as_flags_strips_the_synthetic_output_subrect_bit() {
    let with_subrect = DlssFeatureFlags::auto_exposure().union(DlssFeatureFlags::output_subrect());
    assert_eq!(with_subrect.as_flags(), DlssFeatureFlags::auto_exposure().as_flags());
    assert!(with_subrect.contains(DlssFeatureFlags::output_subrect()));
    assert_eq!(with_subrect.as_flags() & 256, 0);
}

#[test]
fn feature_flags_have_the_ngx_bits() {
    assert_eq!(DlssFeatureFlags::empty().as_flags(), 0);
    assert_eq!(DlssFeatureFlags::high_dynamic_range().as_flags(), 1);
    assert_eq!(DlssFeatureFlags::low_resolution_motion_vectors().as_flags(), 2);
    assert_eq!(DlssFeatureFlags::jittered_motion_vectors().as_flags(), 4);
    assert_eq!(DlssFeatureFlags::inverted_depth().as_flags(), 8);
    assert_eq!(DlssFeatureFlags::auto_exposure().as_flags(), 64);
    assert_eq!(DlssFeatureFlags::alpha_upscaling().as_flags(), 128);
    assert_eq!(DlssFeatureFlags::output_subrect().as_flags(), 0);
    assert!(!DlssFeatureFlags::empty().contains(DlssFeatureFlags::inverted_depth()));
    assert!(DlssFeatureFlags::empty().contains(DlssFeatureFlags::empty()));
}

#[test]
fn check_ngx_result_maps_known_and_unknown_codes() {
    assert!(check_ngx_result(NGX_RESULT_SUCCESS).is_ok());
    assert!(matches!(
        check_ngx_result(NGX_RESULT_FAIL_FEATURE_NOT_SUPPORTED),
        Err(DlssError::FeatureNotSupported)
    ));
    assert!(matches!(
        check_ngx_result(NGX_RESULT_FAIL_INVALID_PARAMETER),
        Err(DlssError::InvalidParameters)
    ));
    let unknown: i32 = 0xDEAD;
    assert!(matches!(
        check_ngx_result(unknown),
        Err(DlssError::Other(c)) if c == unknown
    ));
}

#[test]
fn every_failure_code_has_its_error() {
    let errors = [
        DlssError::FeatureNotSupported,
        DlssError::PlatformError,
        DlssError::FeatureAlreadyExists,
        DlssError::FeatureNotFound,
        DlssError::InvalidParameters,
        DlssError::ScratchBufferTooSmall,
        DlssError::NotInitialized,
        DlssError::UnsupportedInputFormat,
        DlssError::RWFlagMissing,
        DlssError::MissingInput,
        DlssError::UnableToInitializeFeature,
        DlssError::OutOfDate,
        DlssError::OutOfGPUMemory,
        DlssError::UnsupportedFormat,
        DlssError::UnableToWriteToAppDataPath,
        DlssError::UnsupportedParameter,
        DlssError::Denied,
        DlssError::NotImplemented,
    ];
    assert_eq!(NGX_RESULT_FAIL as u32, 0xBAD0_0000);
    for (i, error) in errors.iter().enumerate() {
        assert_eq!(check_ngx_result(NGX_RESULT_FAIL + 1 + i as i32), Err(*error));
    }
    for code in [NGX_RESULT_FAIL, NGX_RESULT_FAIL + 19, 0, -1] {
        assert_eq!(check_ngx_result(code), Err(DlssError::Other(code)));
    }
}

#[test]
fn dlss_error_messages() {
    assert_eq!(
        DlssError::MissingInput.message(),
        "A required input parameter was not provided."
    );
    assert_eq!(
        DlssError::FeatureNotSupported.message(),
        "The NGX SDK or a specific feature is not supported by the current system, hardware, and/or graphics API."
    );
    // Unnamed codes are shown as unsigned hexadecimal numbers.
    assert_eq!(DlssError::Other(0xDEAD).message(), "Unhandled NGX result code: 0xdead");
    assert_eq!(DlssError::Other(0).message(), "Unhandled NGX result code: 0x0");
    assert_eq!(DlssError::Other(-1).message(), "Unhandled NGX result code: 0xffffffff");
}

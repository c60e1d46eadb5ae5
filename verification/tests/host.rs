use dlss_wgpu_dx12::feature_info::{
    os_str_to_wchar, shared_library_paths, with_feature_info, FeatureInfo, IdentifierType,
    NgxEngineType, NgxFeatureId,
};
use dlss_wgpu_dx12::hal::adapter_luid;
use dlss_wgpu_dx12::ngx_log::{
    current_filter, min_logging_level, ngx_log_record, LogFilter, LogLevel, NGX_LOGGING_LEVEL_OFF,
    NGX_LOGGING_LEVEL_ON, NGX_LOGGING_LEVEL_VERBOSE,
};
use dlss_wgpu_dx12::streamline::result::SlResult;
use dlss_wgpu_dx12::{
    dxc_instance_descriptor, dxc_instance_descriptor_at, DlssError, Error, StreamlineError,
    DEFAULT_DXC_PATH,
};

fn wide(text: &str) -> Vec<u16> {
    let mut units: Vec<u16> = text.encode_utf16().collect();
    units.push(0);
    units
}

#[test]
fn project_id_is_the_hyphenated_uuid() {
    let id = 0x67e5_5044_10b1_426f_9247_bb68_0e5f_e0c8u128;
    let info = FeatureInfo::new(id, vec![67, 58], None, false);
    assert_eq!(info.project_id, "67e55044-10b1-426f-9247-bb680e5fe0c8");
    assert_eq!(info.project_id, uuid::Uuid::from_u128(id).to_string());
    assert_eq!(info.engine_version, "0.1.0");
    assert_eq!(info.data_path, vec![67, 58, 0]);
    assert_eq!(info.library_paths, vec![wide(".")]);
    assert_eq!(info.feature, NgxFeatureId::SuperSampling);
    assert_eq!(info.identifier_type, IdentifierType::ProjectId);
    assert_eq!(info.engine_type, NgxEngineType::Custom);
    assert!(!info.disable_other_logging_sinks);
    assert_eq!(
        FeatureInfo::new(0, Vec::new(), None, false).project_id,
        "00000000-0000-0000-0000-000000000000"
    );
}

#[test]
fn messages_are_forwarded_at_the_level_of_the_filter() {
    for (filter, level) in [
        (LogFilter::Off, NGX_LOGGING_LEVEL_OFF),
        (LogFilter::Error, NGX_LOGGING_LEVEL_ON),
        (LogFilter::Info, NGX_LOGGING_LEVEL_ON),
        (LogFilter::Debug, NGX_LOGGING_LEVEL_VERBOSE),
        (LogFilter::Trace, NGX_LOGGING_LEVEL_VERBOSE),
    ] {
        let info = FeatureInfo::for_filter(7, vec![67], Some("sdk"), true, filter);
        assert!(info.forwards_messages);
        assert_eq!(info.minimum_logging_level, level);
        assert_eq!(info.data_path, vec![67, 0]);
        assert_eq!(info.library_paths, vec![wide("."), wide("sdk/lib/Windows_x86_64/dev")]);
    }
}

#[test]
fn the_feature_info_is_handed_to_the_callback_once() {
    let mut calls = 0;
    let r = with_feature_info(0xab, vec![67, 58], None, false, |info: &FeatureInfo| {
        calls += 1;
        assert!(info.forwards_messages);
        assert_eq!(info.data_path, vec![67, 58, 0]);
        info.project_id.clone()
    });
    assert_eq!(r, "00000000-0000-0000-0000-0000000000ab");
    assert_eq!(calls, 1);
}

#[test]
fn library_paths_follow_the_build() {
    assert_eq!(shared_library_paths(None, true), vec![wide(".")]);
    assert_eq!(
        shared_library_paths(Some("C:/dlss"), false),
        vec![wide("."), wide("C:/dlss/lib/Windows_x86_64/rel")]
    );
    assert_eq!(
        shared_library_paths(Some("C:/dlss"), true),
        vec![wide("."), wide("C:/dlss/lib/Windows_x86_64/dev")]
    );
}

#[test]
fn wide_strings_are_utf16() {
    for text in ["", "abc", "Grüße", "\u{1d11e}music", "\u{ffff}\u{10000}\u{10ffff}"] {
        assert_eq!(os_str_to_wchar(text), wide(text));
    }
}

#[test]
fn logging_level_follows_the_logger() {
    log::set_max_level(log::LevelFilter::Off);
    assert_eq!(current_filter(), LogFilter::Off);
    assert_eq!(min_logging_level(), NGX_LOGGING_LEVEL_OFF);
    let requested = || FeatureInfo::new(1, Vec::new(), None, false).minimum_logging_level;
    assert_eq!(requested(), NGX_LOGGING_LEVEL_OFF);
    for level in [log::LevelFilter::Error, log::LevelFilter::Warn, log::LevelFilter::Info] {
        log::set_max_level(level);
        assert_eq!(min_logging_level(), NGX_LOGGING_LEVEL_ON);
        assert_eq!(requested(), NGX_LOGGING_LEVEL_ON);
    }
    for level in [log::LevelFilter::Debug, log::LevelFilter::Trace] {
        log::set_max_level(level);
        assert_eq!(min_logging_level(), NGX_LOGGING_LEVEL_VERBOSE);
        assert_eq!(requested(), NGX_LOGGING_LEVEL_VERBOSE);
    }
}

#[test]
fn filters_map_to_ngx_levels() {
    assert_eq!(LogFilter::Off.logging_level(), 0);
    assert_eq!(LogFilter::Error.logging_level(), 1);
    assert_eq!(LogFilter::Warn.logging_level(), 1);
    assert_eq!(LogFilter::Info.logging_level(), 1);
    assert_eq!(LogFilter::Debug.logging_level(), 2);
    assert_eq!(LogFilter::Trace.logging_level(), 2);
}

#[test]
fn ngx_messages_are_trimmed_and_leveled() {
    let record = ngx_log_record(Some("  loaded nvngx \r\n"), NGX_LOGGING_LEVEL_VERBOSE).unwrap();
    assert_eq!(record.text, "  loaded nvngx");
    assert_eq!(record.level, LogLevel::Debug);
    assert_eq!(record.target, "dlss_wgpu_dx12::ngx");
    assert_eq!(ngx_log_record(Some("x"), NGX_LOGGING_LEVEL_ON).unwrap().level, LogLevel::Info);
    assert_eq!(ngx_log_record(Some("x"), 77).unwrap().level, LogLevel::Info);
    assert!(ngx_log_record(None, NGX_LOGGING_LEVEL_ON).is_none());
    assert!(ngx_log_record(Some(""), NGX_LOGGING_LEVEL_ON).is_none());
    assert!(ngx_log_record(Some(" \t\u{3000}\n"), NGX_LOGGING_LEVEL_ON).is_none());
}

#[test]
fn trailing_whitespace_is_what_unicode_says() {
    let listed = |code: u32| {
        matches!(
            code,
            0x9..=0xd | 0x20 | 0x85 | 0xa0 | 0x1680 | 0x2000..=0x200a | 0x2028 | 0x2029 | 0x202f
                | 0x205f | 0x3000
        )
    };
    for code in 0..=0x10_ffffu32 {
        if let Some(c) = char::from_u32(code) {
            assert_eq!(c.is_whitespace(), listed(code), "{code:x}");
        }
    }
    for c in ['a', '\u{200b}', '\u{feff}', '\u{2029}', ' ', '\u{85}'] {
        let text = format!("x{c}");
        let record = ngx_log_record(Some(text.as_str()), 1).unwrap();
        assert_eq!(record.text, text.trim_end());
    }
}

#[test]
fn instance_descriptor_selects_dx12_and_dynamic_dxc() {
    assert_eq!(DEFAULT_DXC_PATH, "dxcompiler.dll");
    let descriptor = dxc_instance_descriptor();
    assert_eq!(descriptor.backends, wgpu::Backends::DX12);
    assert!(matches!(
        descriptor.backend_options.dx12.shader_compiler,
        wgpu::Dx12Compiler::DynamicDxc { dxc_path } if dxc_path == "dxcompiler.dll"
    ));
    let descriptor = dxc_instance_descriptor_at("bin/dxcompiler.dll".to_string());
    assert_eq!(descriptor.backends, wgpu::Backends::DX12);
    assert!(matches!(
        descriptor.backend_options.dx12.shader_compiler,
        wgpu::Dx12Compiler::DynamicDxc { dxc_path } if dxc_path == "bin/dxcompiler.dll"
    ));
    let defaults = wgpu::InstanceDescriptor::new_without_display_handle();
    assert_eq!(descriptor.flags, defaults.flags);
    assert!(descriptor.display.is_none());
}

#[test]
fn luid_bytes_are_little_endian() {
    assert_eq!(adapter_luid(0x0403_0201, 0x0807_0605), [1, 2, 3, 4, 5, 6, 7, 8]);
    assert_eq!(adapter_luid(0, -1), [0, 0, 0, 0, 255, 255, 255, 255]);
}

#[test]
fn umbrella_error_keeps_the_message() {
    let error = Error::from(DlssError::Denied);
    assert_eq!(error.message(), DlssError::Denied.message());
    assert_eq!(error, Error::Dlss(DlssError::Denied));
    let error = Error::from(StreamlineError::FeatureNotSupported(SlResult::ErrorOSDisabledHWS));
    assert_eq!(
        error.message(),
        "DLSS Frame Generation is not supported on this system: slIsFeatureSupported returned ErrorOSDisabledHWS"
    );
}

#[test]
fn errors_convert_by_question_mark() {
    let dlss: Result<(), Error> = (|| {
        Err(DlssError::NotInitialized)?;
        Ok(())
    })();
    assert_eq!(dlss, Err(Error::Dlss(DlssError::NotInitialized)));
    let streamline: Result<(), Error> = (|| {
        Err(StreamlineError::ContextAlreadyCreated)?;
        Ok(())
    })();
    assert_eq!(streamline, Err(Error::Streamline(StreamlineError::ContextAlreadyCreated)));
}

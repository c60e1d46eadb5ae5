use dlss_wgpu_dx12::streamline::ffi::{
    feature_fn, feature_function_list, files_have_equal_bytes, find_loader_shim,
    interposer_path_from, library_outcome, plugin_outcome, reject_loader_shims, resolve,
    resolve_existing_interposer, resolved_feature_fns, LoadStep, Loader,
    PluginDirectory,
};
use dlss_wgpu_dx12::streamline::result::SlResult;
use dlss_wgpu_dx12::streamline::security::{
    contains_ignoring_case, is_revocation_offline, unverified_signer_allowed_from,
    verify_interposer_signature, verify_signed_dll, VerifyReply, VerifyStep,
};
use dlss_wgpu_dx12::streamline::signer::{extract_signer_subject, SignerReply, SignerStep};
use dlss_wgpu_dx12::StreamlineError;

const TRUST_E_NOSIGNATURE: i32 = 0x800B_0100u32 as i32;
const CERT_E_REVOKED: i32 = 0x800B_010Cu32 as i32;
const CRYPT_E_REVOCATION_OFFLINE: i32 = 0x8009_2013u32 as i32;

#[test]
fn missing_sdk_env_is_reported() {
    assert!(matches!(interposer_path_from::<String>(None), Err(StreamlineError::SdkPathNotSet)));
    assert_eq!(
        StreamlineError::SdkPathNotSet.message(),
        "the STREAMLINE_SDK environment variable is not set; cannot locate sl.interposer.dll (expected at $STREAMLINE_SDK/bin/x64/sl.interposer.dll)"
    );
}

#[test]
fn path_is_built_under_bin_x64() {
    let p = interposer_path_from(Some("C:/some/sdk".to_string())).unwrap();
    assert_eq!(p.root, "C:/some/sdk");
    assert_eq!(p.below, vec!["bin", "x64", "sl.interposer.dll"]);
}

#[test]
fn missing_interposer_file_is_reported() {
    let result = resolve_existing_interposer("sdk/bin/x64/sl.interposer.dll".to_string(), false);
    assert!(matches!(result, Err(StreamlineError::InterposerNotFound(_))));
    assert_eq!(
        result.unwrap_err().message(),
        "sl.interposer.dll was not found at the expected path: sdk/bin/x64/sl.interposer.dll"
    );
    assert_eq!(resolve_existing_interposer("p".to_string(), true), Ok("p".to_string()));
}

#[test]
fn resolve_absent_symbol_maps_to_missing_export() {
    let result = resolve(
        "dlss_wgpu_dx12_definitely_not_a_real_export",
        Err("not found".to_string()),
    );
    match result {
        Err(StreamlineError::MissingExport { symbol, .. }) => {
            assert_eq!(symbol, "dlss_wgpu_dx12_definitely_not_a_real_export");
        }
        other => panic!("expected MissingExport, got {other:?}"),
    }
    assert_eq!(
        resolve("slInit", Err("gone".to_string())).unwrap_err().message(),
        "missing exported Streamline symbol \"slInit\": gone"
    );
}

#[test]
fn resolve_present_symbol_yields_non_null_pointer() {
    assert_ne!(resolve("GetCurrentProcessId", Ok(0x7ff8_0000_1000)).unwrap(), 0);
}

#[test]
fn loader_shim_detector_flags_only_interposer_copies() {
    let image = b"INTERPOSER-IMAGE-BYTES".to_vec();
    let search = |files: Vec<(&str, &[u8])>| {
        let bytes_of = |name: &str| {
            files.iter().find(|(n, _)| *n == name).map(|(_, bytes)| bytes.to_vec())
        };
        find_loader_shim(
            |name| bytes_of(name).is_some(),
            |name| files_have_equal_bytes(bytes_of(name).as_ref(), Some(&image)),
        )
    };
    let copy: &[u8] = b"INTERPOSER-IMAGE-BYTES";
    // dxgi.dll is an exact copy; d3d12.dll is unrelated.
    assert_eq!(
        search(vec![("dxgi.dll", copy), ("d3d12.dll", b"some-other-dll"), ("sl.common.dll", b"x")]),
        Some("dxgi.dll")
    );
    // dxgi.dll differs and d3d12.dll is the exact copy.
    assert_eq!(
        search(vec![("dxgi.dll", b"now-unrelated"), ("d3d12.dll", copy)]),
        Some("d3d12.dll")
    );
    // Neither is a copy.
    assert_eq!(search(vec![("dxgi.dll", b"now-unrelated"), ("d3d12.dll", b"y")]), None);
    // There is neither, though other names have copies.
    assert_eq!(search(vec![("sl.common.dll", copy)]), None);
    assert_eq!(search(vec![]), None);
    // The first of two shims is reported.
    assert_eq!(search(vec![("dxgi.dll", copy), ("d3d12.dll", copy)]), Some("dxgi.dll"));
}

#[test]
fn loader_shim_detector_reads_no_file_in_vain() {
    let asked = |present: [bool; 2], shims: [bool; 2]| {
        let place = |name: &str| usize::from(name == "d3d12.dll");
        let read = std::cell::RefCell::new(Vec::new());
        let found = find_loader_shim(
            |name| present[place(name)],
            |name| {
                read.borrow_mut().push(name);
                shims[place(name)]
            },
        );
        (found, read.into_inner())
    };
    assert_eq!(asked([false, false], [true, true]), (None, vec![]));
    assert_eq!(asked([true, true], [true, true]), (Some("dxgi.dll"), vec!["dxgi.dll"]));
    assert_eq!(asked([false, true], [true, true]), (Some("d3d12.dll"), vec!["d3d12.dll"]));
    assert_eq!(asked([true, true], [false, false]), (None, vec!["dxgi.dll", "d3d12.dll"]));
    assert_eq!(asked([true, false], [false, true]), (None, vec!["dxgi.dll"]));
}

#[test]
fn unreadable_files_are_not_equal() {
    let bytes = vec![1u8, 2, 3];
    assert!(files_have_equal_bytes(Some(&bytes), Some(&vec![1, 2, 3])));
    assert!(!files_have_equal_bytes(Some(&bytes), Some(&vec![1, 2, 4])));
    assert!(!files_have_equal_bytes(Some(&bytes), Some(&vec![1, 2])));
    assert!(!files_have_equal_bytes(None, Some(&bytes)));
    assert!(!files_have_equal_bytes(Some(&bytes), None));
    assert!(!files_have_equal_bytes(None, None));
}

#[test]
fn loader_shims_are_rejected() {
    assert_eq!(reject_loader_shims(None, "unused".to_string()), Ok(()));
    let error = reject_loader_shims(Some("dxgi.dll"), "C:/app/dxgi.dll".to_string()).unwrap_err();
    assert_eq!(error, StreamlineError::LoaderShimConflict("C:/app/dxgi.dll".to_string()));
    assert!(error.message().ends_with("C:/app/dxgi.dll"));
}

const PLUGINS: [&str; 5] =
    ["sl.common.dll", "sl.dlss_g.dll", "sl.reflex.dll", "sl.pcl.dll", "nvngx_dlssg.dll"];
const EXPORTS: [&str; 9] = [
    "slInit",
    "slShutdown",
    "slSetD3DDevice",
    "slIsFeatureSupported",
    "slGetFeatureRequirements",
    "slGetNewFrameToken",
    "slSetConstants",
    "slSetTagForFrame",
    "slGetFeatureFunction",
];

fn planned(executable_known: bool, same_directory: bool) -> Vec<LoadStep> {
    let mut loader = Loader::new(executable_known, same_directory);
    let mut steps = Vec::new();
    while let Some(step) = loader.current() {
        assert!(!loader.is_loaded());
        steps.push(step);
        loader.advance(Ok(())).unwrap();
    }
    assert!(loader.is_loaded());
    steps
}

fn expected(shims: bool, directories: &[PluginDirectory]) -> Vec<LoadStep> {
    let mut steps = vec![LoadStep::InterposerExists];
    if shims {
        steps.push(LoadStep::NoLoaderShim);
    }
    steps.push(LoadStep::VerifyInterposer);
    for &directory in directories {
        for name in PLUGINS {
            steps.push(LoadStep::VerifyPlugin { directory, name });
        }
    }
    steps.push(LoadStep::LoadLibrary);
    for name in EXPORTS {
        steps.push(LoadStep::ResolveExport(name));
    }
    steps
}

#[test]
fn loading_follows_the_checks() {
    assert_eq!(planned(true, false), expected(true, &[PluginDirectory::Executable, PluginDirectory::Interposer]));
    assert_eq!(planned(true, true), expected(true, &[PluginDirectory::Executable]));
    assert_eq!(planned(false, false), expected(false, &[PluginDirectory::Interposer]));
    assert_eq!(planned(false, true), expected(false, &[PluginDirectory::Interposer]));
}

#[test]
fn a_failed_check_stops_the_loading() {
    for failing in 0..13 {
        let mut loader = Loader::new(true, false);
        for _ in 0..failing {
            loader.advance(Ok(())).unwrap();
        }
        let error = loader.advance(Err(StreamlineError::SdkPathNotSet)).unwrap_err();
        assert_eq!(error, StreamlineError::SdkPathNotSet);
        assert_eq!(loader.current(), None);
        assert!(!loader.is_loaded());
        loader.advance(Ok(())).unwrap();
        assert_eq!(loader.current(), None);
    }
}

#[test]
fn absent_plugins_are_skipped_and_present_ones_verified() {
    let refused = || Err(StreamlineError::UntrustedSigner("Contoso".to_string()));
    assert_eq!(plugin_outcome(false, refused()), Ok(()));
    assert_eq!(plugin_outcome(true, refused()), refused());
    assert_eq!(plugin_outcome(true, Ok(())), Ok(()));
}

#[test]
fn library_failures_carry_path_and_report() {
    assert_eq!(library_outcome("p".to_string(), Ok(())), Ok(()));
    assert_eq!(
        library_outcome("p".to_string(), Err("denied".to_string())).unwrap_err().message(),
        "failed to load sl.interposer.dll from p: denied"
    );
}

#[test]
fn feature_functions_resolve_or_say_why() {
    let functions = feature_function_list();
    assert_eq!(functions.len(), 5);
    assert_eq!(feature_fn(functions[4], SlResult::Success, 16), Ok(16));
    assert_eq!(
        feature_fn(functions[4], SlResult::ErrorInvalidParameter, 16).unwrap_err().message(),
        "slGetFeatureFunction(feature=4, \"slPCLSetMarker\") failed: slGetFeatureFunction returned ErrorInvalidParameter"
    );
    assert_eq!(
        feature_fn(functions[0], SlResult::Success, 0).unwrap_err().message(),
        "slGetFeatureFunction(feature=1000, \"slDLSSGSetOptions\") failed: slGetFeatureFunction returned a null function pointer"
    );
    assert_eq!(
        resolved_feature_fns(3, "slReflexSleep", Some(SlResult::ErrorReflexAPI)),
        Ok(SlResult::ErrorReflexAPI)
    );
    assert_eq!(
        resolved_feature_fns(3, "slReflexSleep", None).unwrap_err().message(),
        "slGetFeatureFunction(feature=3, \"slReflexSleep\") failed: feature function not resolved (resolve_feature_functions not called)"
    );
}

#[test]
fn unverified_signer_disallowed_by_default_and_allowed_only_on_explicit_opt_out() {
    assert!(!unverified_signer_allowed_from(None, None));
    assert!(unverified_signer_allowed_from(Some("1"), None));
    assert!(!unverified_signer_allowed_from(Some("0"), None));
    assert!(!unverified_signer_allowed_from(Some("true"), None));
    assert!(!unverified_signer_allowed_from(Some(""), None));
    assert!(!unverified_signer_allowed_from(Some("1"), Some("1")));
    assert!(unverified_signer_allowed_from(Some("1"), Some("0")));
}

fn opened() -> VerifyReply {
    VerifyReply { open_error: None, status: 0, subject: Err(String::new()) }
}

fn status(status: i32) -> VerifyReply {
    VerifyReply { open_error: None, status, subject: Err(String::new()) }
}

fn signer(subject: Result<&str, &str>) -> VerifyReply {
    VerifyReply {
        open_error: None,
        status: 0,
        subject: subject.map(str::to_string).map_err(str::to_string),
    }
}

fn verify_from(
    first: VerifyStep,
    replies: Vec<VerifyReply>,
    allow_unverified: bool,
) -> VerifyStep {
    let mut step = first;
    for reply in replies {
        step = step.next("sl.interposer.dll", reply, allow_unverified);
    }
    step
}

fn verify(replies: Vec<VerifyReply>, allow_unverified: bool) -> VerifyStep {
    verify_from(verify_signed_dll(), replies, allow_unverified)
}

#[test]
fn the_interposer_and_its_plugins_are_verified_alike() {
    let courses: [fn() -> Vec<VerifyReply>; 5] = [
        || vec![opened(), status(0), signer(Ok("NVIDIA Corporation"))],
        || vec![opened(), status(0), signer(Ok("Microsoft Corporation"))],
        || vec![opened(), status(0), signer(Err("no certificate"))],
        || vec![opened(), status(TRUST_E_NOSIGNATURE)],
        || vec![opened()],
    ];
    for course in courses {
        for allow in [false, true] {
            assert_eq!(
                verify_from(verify_interposer_signature(), course(), allow),
                verify_from(verify_signed_dll(), course(), allow)
            );
        }
    }
}

#[test]
fn a_verification_has_an_outcome_once_it_has_ended() {
    assert_eq!(verify(vec![], false).outcome(), None);
    assert_eq!(verify(vec![opened()], false).outcome(), None);
    assert_eq!(verify(vec![opened(), status(0)], true).outcome(), None);
    assert_eq!(
        verify(vec![opened(), status(0), signer(Ok("NVIDIA Corporation"))], false).outcome(),
        Some(Ok(()))
    );
    assert_eq!(
        verify(vec![opened(), status(0), signer(Ok("Someone"))], false).outcome(),
        Some(Err(StreamlineError::UntrustedSigner("Someone".to_string())))
    );
}

#[test]
fn unsigned_file_is_rejected_by_the_trust_gate() {
    let result = verify_from(
        verify_interposer_signature(),
        vec![opened(), status(TRUST_E_NOSIGNATURE)],
        false,
    );
    assert!(
        matches!(result, VerifyStep::Refused(StreamlineError::SignatureVerificationFailed(_))),
        "{result:?}"
    );
}

#[test]
fn verify_signed_dll_rejects_unsigned_file() {
    for allow in [false, true] {
        match verify(vec![opened(), status(TRUST_E_NOSIGNATURE)], allow) {
            VerifyStep::Refused(error) => assert_eq!(
                error.message(),
                "sl.interposer.dll signature verification failed: WinVerifyTrust returned HRESULT 0x800b0100 for 'sl.interposer.dll'"
            ),
            other => panic!("expected a refusal, got {other:?}"),
        }
    }
}

#[test]
fn trusted_but_non_nvidia_signer_is_rejected() {
    for allow in [false, true] {
        match verify(vec![opened(), status(0), signer(Ok("Microsoft Corporation"))], allow) {
            VerifyStep::Refused(StreamlineError::UntrustedSigner(subject)) => {
                assert_eq!(subject, "Microsoft Corporation");
            }
            other => panic!("expected UntrustedSigner, got {other:?}"),
        }
    }
    assert_eq!(
        StreamlineError::UntrustedSigner("A \"B\"".to_string()).message(),
        "sl.interposer.dll is signed, but the signer subject is not NVIDIA (subject: \"A \\\"B\\\"\")"
    );
}

#[test]
fn nvidia_signers_pass() {
    for subject in ["NVIDIA Corporation", "nvidia", "The nViDiA PE signer"] {
        assert_eq!(
            verify(vec![opened(), status(0), signer(Ok(subject))], false),
            VerifyStep::Verified { revocation: true, signer_confirmed: true }
        );
    }
}

#[test]
fn offline_revocation_is_retried_once() {
    let offline = || status(CRYPT_E_REVOCATION_OFFLINE);
    assert_eq!(
        verify(vec![opened(), offline()], false),
        VerifyStep::CheckTrust { revocation: false }
    );
    assert_eq!(
        verify(vec![opened(), offline(), status(0), signer(Ok("NVIDIA"))], false),
        VerifyStep::Verified { revocation: false, signer_confirmed: true }
    );
    match verify(vec![opened(), offline(), offline()], false) {
        VerifyStep::Refused(error) => assert_eq!(
            error.message(),
            "sl.interposer.dll signature verification failed: WinVerifyTrust (offline no-revocation retry) returned HRESULT 0x80092013 for 'sl.interposer.dll'"
        ),
        other => panic!("expected a refusal, got {other:?}"),
    }
}

#[test]
fn revoked_certificates_are_refused() {
    assert!(!is_revocation_offline(CERT_E_REVOKED));
    assert!(!is_revocation_offline(0));
    for code in [0x800B_010Eu32, 0x8009_2013, 0x8009_2012] {
        assert!(is_revocation_offline(code as i32));
    }
    assert!(matches!(
        verify(vec![opened(), status(CERT_E_REVOKED)], true),
        VerifyStep::Refused(StreamlineError::SignatureVerificationFailed(_))
    ));
}

#[test]
fn unreadable_signers_fail_closed() {
    match verify(vec![opened(), status(0), signer(Err("no signer"))], false) {
        VerifyStep::Refused(error) => assert_eq!(
            error.message(),
            "sl.interposer.dll signature verification failed: could not confirm the signer is NVIDIA (fail-closed default; set STREAMLINE_ALLOW_UNVERIFIED_SIGNER=1 to allow an unverifiable signer): no signer"
        ),
        other => panic!("expected a refusal, got {other:?}"),
    }
    assert_eq!(
        verify(vec![opened(), status(0), signer(Err("no signer"))], true),
        VerifyStep::Verified { revocation: true, signer_confirmed: false }
    );
}

#[test]
fn files_that_cannot_be_opened_are_refused() {
    let reply = VerifyReply {
        open_error: Some("access denied".to_string()),
        status: 0,
        subject: Ok("NVIDIA".to_string()),
    };
    match verify(vec![reply], true) {
        VerifyStep::Refused(error) => assert_eq!(
            error.message(),
            "sl.interposer.dll signature verification failed: could not open 'sl.interposer.dll' for verification with a deny-write share lock: access denied"
        ),
        other => panic!("expected a refusal, got {other:?}"),
    }
}

#[test]
fn subjects_are_searched_in_any_case() {
    assert!(contains_ignoring_case("xxNVidIAyy", "NVIDIA"));
    assert!(contains_ignoring_case("NVIDIA", "NVIDIA"));
    assert!(!contains_ignoring_case("NVIDI", "NVIDIA"));
    assert!(!contains_ignoring_case("NVID IA", "NVIDIA"));
    assert!(contains_ignoring_case("nvidnvidia", "NVIDIA"));
    assert!(!contains_ignoring_case("", "NVIDIA"));
    assert!(contains_ignoring_case("", ""));
}

fn system(length: u32) -> SignerReply {
    SignerReply { error: None, length, found: true, name: Vec::new() }
}

fn failure(text: &str) -> SignerReply {
    SignerReply { error: Some(text.to_string()), length: 0, found: false, name: Vec::new() }
}

fn name(text: &str, length: u32) -> SignerReply {
    let mut units: Vec<u16> = text.encode_utf16().collect();
    units.push(0);
    units.push(88);
    SignerReply { error: None, length, found: true, name: units }
}

fn read_signer(replies: Vec<SignerReply>) -> SignerStep {
    let mut step = extract_signer_subject();
    for reply in replies {
        step = step.next(reply, 100);
    }
    step
}

#[test]
fn signer_subject_is_read_up_to_its_terminator() {
    let steps = |text: &str| {
        read_signer(vec![
            system(0),
            system(100),
            system(0),
            system(0),
            system(20),
            name(text, 19),
        ])
    };
    assert_eq!(
        steps("NVIDIA Corporation"),
        SignerStep::Done(Ok("NVIDIA Corporation".to_string()))
    );
    assert_eq!(steps("\u{1d11e} Grüße"), SignerStep::Done(Ok("\u{1d11e} Grüße".to_string())));
    let mut lone = name("", 3);
    lone.name = vec![0xd800, 65, 0];
    let step = SignerStep::ReadName { length: 3 }.next(lone, 100);
    assert_eq!(step, SignerStep::Done(Ok("\u{fffd}A".to_string())));
    // Each surrogate without a partner is replaced; a high one does not take what follows with it.
    for (units, text) in [
        (vec![0xd834, 0xdd1e, 109, 0xdd1e, 105, 0xd834], "\u{1d11e}m\u{fffd}i\u{fffd}"),
        (vec![0xd800, 0xd834, 0xdd1e], "\u{fffd}\u{1d11e}"),
        (vec![0xdfff, 0xdbff, 0xdfff, 0xe000], "\u{fffd}\u{10ffff}\u{e000}"),
    ] {
        let mut reply = name("", 6);
        reply.name = units;
        assert_eq!(
            SignerStep::ReadName { length: 6 }.next(reply, 100),
            SignerStep::Done(Ok(text.to_string()))
        );
    }
}

#[test]
fn signer_steps_ask_for_sizes_first() {
    assert_eq!(read_signer(vec![]), SignerStep::OpenSignature);
    assert_eq!(read_signer(vec![system(0)]), SignerStep::MeasureSignerInfo);
    assert_eq!(
        read_signer(vec![system(0), system(120)]),
        SignerStep::ReadSignerInfo { size: 120 }
    );
    assert_eq!(
        read_signer(vec![system(0), system(120), system(0), system(0), system(9)]),
        SignerStep::ReadName { length: 9 }
    );
}

#[test]
fn signer_failures_say_which_call_failed() {
    let error = |step: SignerStep| match step {
        SignerStep::Done(Err(text)) => text,
        other => panic!("expected an error, got {other:?}"),
    };
    assert_eq!(error(read_signer(vec![failure("e1")])), "CryptQueryObject failed: e1");
    assert_eq!(
        error(read_signer(vec![system(0), failure("e2")])),
        "CryptMsgGetParam(size) failed: e2"
    );
    assert_eq!(
        error(read_signer(vec![system(0), system(99)])),
        "CMSG_SIGNER_INFO blob too small (99 bytes)"
    );
    assert_eq!(
        error(read_signer(vec![system(0), system(100), failure("e3")])),
        "CryptMsgGetParam(data) failed: e3"
    );
    let mut absent = system(0);
    absent.found = false;
    assert_eq!(
        error(read_signer(vec![system(0), system(100), system(0), absent])),
        "CertFindCertificateInStore found no signer certificate"
    );
    assert_eq!(
        error(read_signer(vec![system(0), system(100), system(0), system(0), system(1)])),
        "certificate has an empty subject name"
    );
    assert_eq!(
        error(read_signer(vec![
            system(0),
            system(100),
            system(0),
            system(0),
            system(2),
            name("x", 0),
        ])),
        "CertGetNameStringW returned an empty name"
    );
}

use dlss_wgpu_dx12::streamline::api::{SlReply, SlRequest};
use dlss_wgpu_dx12::streamline::dlssg_status;
use dlss_wgpu_dx12::streamline::frame::{begin_frame_with, OrderError, Step, SurfaceStatus};
use dlss_wgpu_dx12::streamline::frame_gen::{
    apply_dlssg_options, dlssg_options_applied, query_state_request, query_state_with, Interposer,
    SetupStep, SL_SDK_VERSION,
};
use dlss_wgpu_dx12::streamline::result::SlResult;
use dlss_wgpu_dx12::streamline::tagging::TextureFormat;
use dlss_wgpu_dx12::streamline::types::{
    Boolean, BufferType, DLSSGMode, DLSSGState, EngineType, Feature, LogLevel, PCLMarker,
    ReflexMode, ReflexOptions, RenderAPI, Resource, ResourceLifecycle, ResourceTag, ResourceType,
    ViewportHandle, K_BUFFER_TYPE_DEPTH, K_BUFFER_TYPE_HUD_LESS_COLOR,
    K_BUFFER_TYPE_MOTION_VECTORS, K_BUFFER_TYPE_UI_ALPHA, K_BUFFER_TYPE_UI_COLOR_AND_ALPHA,
    K_FEATURE_DLSS_G, K_FEATURE_PCL, K_FEATURE_REFLEX,
};
use dlss_wgpu_dx12::vector::UVec2;
use dlss_wgpu_dx12::{
    FgConstants, FgResource, FgResources, FgUi, Frame, FrameGenerationContext, FrameGenerationMode,
    FrameGenerationOptions, FrameGenerationState, Streamline, StreamlineError,
    DEFAULT_ENGINE_VERSION, DEFAULT_PROJECT_ID,
};

/// One recorded call, with the values that the tests look at.
#[derive(Debug, Clone, PartialEq)]
enum Call {
    Init,
    SetD3DDevice,
    GetFeatureFunction(Feature, &'static str),
    IsFeatureSupported(Feature),
    ReflexSetOptions(ReflexMode),
    DlssgSetOptions {
        mode: DLSSGMode,
        num_frames: u32,
        color_format: u32,
        ui_recomp: bool,
        ui_format: u32,
    },
    DlssgGetState {
        query_mode: DLSSGMode,
    },
    GetNewFrameToken(u32),
    ReflexSleep,
    SetMarker(PCLMarker),
    SetConstants {
        reset: bool,
    },
    SetTagForFrame {
        buffer_types: Vec<BufferType>,
    },
    Shutdown,
}

/// Makes the requested calls in memory: records them and returns what it was told to.
struct MockApi {
    calls: Vec<Call>,
    set_d3d_device_result: Option<SlResult>,
    is_feature_supported_result: SlResult,
    reflex_set_options_result: SlResult,
    dlssg_set_options_result: SlResult,
    dlssg_get_state_result: SlResult,
    get_new_frame_token_result: SlResult,
    set_constants_result: SlResult,
    set_tag_result: SlResult,
    token_null: bool,
    features_unresolved: bool,
    function_result: SlResult,
    function_null: bool,
    state_status: u32,
    state_num_presented: u32,
}

impl Default for MockApi {
    fn default() -> Self {
        Self {
            calls: Vec::new(),
            set_d3d_device_result: Some(SlResult::Success),
            is_feature_supported_result: SlResult::Success,
            reflex_set_options_result: SlResult::Success,
            dlssg_set_options_result: SlResult::Success,
            dlssg_get_state_result: SlResult::Success,
            get_new_frame_token_result: SlResult::Success,
            set_constants_result: SlResult::Success,
            set_tag_result: SlResult::Success,
            token_null: false,
            features_unresolved: false,
            function_result: SlResult::Success,
            function_null: false,
            state_status: dlssg_status::OK,
            state_num_presented: 0,
        }
    }
}

fn answer(result: SlResult) -> SlReply {
    SlReply { result: Some(result), address: 0 }
}

impl MockApi {
    fn make(&mut self, request: SlRequest) -> SlReply {
        let unresolved = SlReply { result: None, address: 0 };
        match request {
            SlRequest::Init { .. } => {
                self.calls.push(Call::Init);
                answer(SlResult::Success)
            }
            SlRequest::SetD3DDevice => {
                self.calls.push(Call::SetD3DDevice);
                SlReply { result: self.set_d3d_device_result, address: 0 }
            }
            SlRequest::GetFeatureFunction { feature, name } => {
                self.calls.push(Call::GetFeatureFunction(feature, name));
                let address = if self.function_null { 0 } else { 0x1000 };
                SlReply { result: Some(self.function_result), address }
            }
            SlRequest::IsFeatureSupported { feature, .. } => {
                self.calls.push(Call::IsFeatureSupported(feature));
                answer(self.is_feature_supported_result)
            }
            SlRequest::ReflexSetOptions(options) => {
                if self.features_unresolved {
                    return unresolved;
                }
                self.calls.push(Call::ReflexSetOptions(options.mode));
                answer(self.reflex_set_options_result)
            }
            SlRequest::DlssgSetOptions { options, .. } => {
                if self.features_unresolved {
                    return unresolved;
                }
                self.calls.push(Call::DlssgSetOptions {
                    mode: options.mode,
                    num_frames: options.num_frames_to_generate,
                    color_format: options.color_buffer_format,
                    ui_recomp: options.enable_user_interface_recomposition == Boolean::True,
                    ui_format: options.ui_buffer_format,
                });
                answer(self.dlssg_set_options_result)
            }
            SlRequest::DlssgGetState { options, .. } => {
                if self.features_unresolved {
                    return unresolved;
                }
                self.calls.push(Call::DlssgGetState { query_mode: options.mode });
                answer(self.dlssg_get_state_result)
            }
            SlRequest::GetNewFrameToken(index) => {
                self.calls.push(Call::GetNewFrameToken(index));
                let address = if self.token_null { 0 } else { 8 };
                SlReply { result: Some(self.get_new_frame_token_result), address }
            }
            SlRequest::ReflexSleep(_) => {
                self.calls.push(Call::ReflexSleep);
                answer(SlResult::Success)
            }
            SlRequest::SetMarker { marker, .. } => {
                self.calls.push(Call::SetMarker(marker));
                answer(SlResult::Success)
            }
            SlRequest::SetConstants { constants, .. } => {
                let reset = constants.reset == Boolean::True;
                self.calls.push(Call::SetConstants { reset });
                answer(self.set_constants_result)
            }
            SlRequest::SetTagForFrame { tags, .. } => {
                let buffer_types = tags.iter().map(|t| t.buffer_type).collect();
                self.calls.push(Call::SetTagForFrame { buffer_types });
                answer(self.set_tag_result)
            }
            SlRequest::Present | SlRequest::WaitForGpu => answer(SlResult::Success),
            SlRequest::Shutdown => {
                self.calls.push(Call::Shutdown);
                answer(SlResult::Success)
            }
        }
    }

    fn begin(&mut self, frame_index: u32) -> Result<Frame, StreamlineError> {
        let reply = self.make(SlRequest::GetNewFrameToken(frame_index));
        let (frame, requests) = begin_frame_with(ViewportHandle::new(0), frame_index, reply)?;
        for request in requests {
            self.make(request);
        }
        Ok(frame)
    }

    fn set_constants(
        &mut self,
        frame: &mut Frame,
        constants: &FgConstants,
    ) -> Result<(), StreamlineError> {
        let request = frame.set_constants(constants);
        let reply = self.make(request);
        frame.constants_set(reply.result.unwrap())
    }

    fn acquire(&mut self, frame: &mut Frame) {
        let request = frame.acquire();
        self.make(request);
    }

    fn tag(&mut self, frame: &mut Frame, tags: Vec<ResourceTag>) -> Result<(), StreamlineError> {
        let request = frame.tag_core(tags);
        let reply = self.make(request);
        frame.tagged(reply.result.unwrap())
    }

    fn end_render(&mut self, frame: &mut Frame) {
        let request = frame.end_render();
        self.make(request);
    }

    fn present(&mut self, frame: &mut Frame) {
        for request in frame.present() {
            self.make(request);
        }
    }

    fn query_state(&mut self, mode: DLSSGMode) -> Result<FrameGenerationState, StreamlineError> {
        let reply = self.make(query_state_request(ViewportHandle::new(0), mode, 1));
        let mut state = DLSSGState::new();
        state.status = self.state_status;
        state.num_frames_actually_presented = self.state_num_presented;
        query_state_with(reply, &state)
    }

    fn apply_options(
        &mut self,
        options: &FrameGenerationOptions,
        color_format: u32,
    ) -> Result<(), StreamlineError> {
        let reply = self.make(apply_dlssg_options(ViewportHandle::new(0), options, color_format));
        dlssg_options_applied(reply)
    }
}

fn make_tags(buffer_types: &[BufferType]) -> Vec<ResourceTag> {
    buffer_types
        .iter()
        .map(|&bt| {
            let resource = Resource::new_tex2d(0, 0, 0, 0, 0);
            ResourceTag::new(resource, bt, ResourceLifecycle::ValidUntilPresent)
        })
        .collect()
}

#[test]
fn begin_frame_emits_token_sleep_and_sim_markers_in_order() {
    let mut mock = MockApi::default();
    let frame = mock.begin(7).unwrap();
    assert_eq!(frame.frame_index(), 7);
    assert_eq!(frame.progress.step, Step::Begun);
    assert!(!frame.progress.presented);
    assert_eq!(
        mock.calls,
        vec![
            Call::GetNewFrameToken(7),
            Call::ReflexSleep,
            Call::SetMarker(PCLMarker::SimulationStart),
            Call::SetMarker(PCLMarker::SimulationEnd),
        ]
    );
}

#[test]
fn full_happy_path_emits_the_proven_call_sequence() {
    let mut mock = MockApi::default();
    let mut frame = mock.begin(3).unwrap();
    mock.set_constants(&mut frame, &FgConstants::new()).unwrap();
    mock.acquire(&mut frame);
    let tags = make_tags(&[K_BUFFER_TYPE_DEPTH, K_BUFFER_TYPE_MOTION_VECTORS]);
    mock.tag(&mut frame, tags).unwrap();
    mock.end_render(&mut frame);
    mock.present(&mut frame);
    assert!(frame.progress.presented);
    assert_eq!(
        mock.calls,
        vec![
            Call::GetNewFrameToken(3),
            Call::ReflexSleep,
            Call::SetMarker(PCLMarker::SimulationStart),
            Call::SetMarker(PCLMarker::SimulationEnd),
            Call::SetConstants { reset: false },
            Call::SetMarker(PCLMarker::RenderSubmitStart),
            Call::SetTagForFrame {
                buffer_types: vec![K_BUFFER_TYPE_DEPTH, K_BUFFER_TYPE_MOTION_VECTORS],
            },
            Call::SetMarker(PCLMarker::RenderSubmitEnd),
            Call::SetMarker(PCLMarker::PresentStart),
            Call::SetMarker(PCLMarker::PresentEnd),
        ]
    );
}

#[test]
fn presentation_stands_between_its_markers() {
    let mut mock = MockApi::default();
    let mut frame = mock.begin(3).unwrap();
    let token = frame.token;
    assert_eq!(
        frame.present(),
        vec![
            SlRequest::SetMarker { marker: PCLMarker::PresentStart, token },
            SlRequest::Present,
            SlRequest::SetMarker { marker: PCLMarker::PresentEnd, token },
        ]
    );
}

#[test]
fn auto_reset_is_forced_on_frame_zero() {
    let mut mock = MockApi::default();
    let mut frame = mock.begin(0).unwrap();
    mock.set_constants(&mut frame, &FgConstants::new()).unwrap();
    assert!(mock.calls.contains(&Call::SetConstants { reset: true }));
}

#[test]
fn reset_is_honored_after_frame_zero() {
    let mut mock = MockApi::default();
    let mut frame = mock.begin(5).unwrap();
    let mut c = FgConstants::new();
    c.reset = false;
    mock.set_constants(&mut frame, &c).unwrap();
    assert!(mock.calls.contains(&Call::SetConstants { reset: false }));

    let mut mock2 = MockApi::default();
    let mut frame2 = mock2.begin(5).unwrap();
    let mut c2 = FgConstants::new();
    c2.reset = true;
    mock2.set_constants(&mut frame2, &c2).unwrap();
    assert!(mock2.calls.contains(&Call::SetConstants { reset: true }));
}

#[test]
fn tag_core_passes_buffer_types_in_proven_order() {
    let mut mock = MockApi::default();
    let mut frame = mock.begin(1).unwrap();
    mock.set_constants(&mut frame, &FgConstants::new()).unwrap();
    mock.acquire(&mut frame);
    let order = [
        K_BUFFER_TYPE_DEPTH,
        K_BUFFER_TYPE_MOTION_VECTORS,
        K_BUFFER_TYPE_HUD_LESS_COLOR,
        K_BUFFER_TYPE_UI_COLOR_AND_ALPHA,
    ];
    mock.tag(&mut frame, make_tags(&order)).unwrap();
    assert!(mock.calls.contains(&Call::SetTagForFrame { buffer_types: order.to_vec() }));
}

#[test]
fn out_of_order_step_is_flagged_in_release() {
    let mut mock = MockApi::default();
    let mut frame = mock.begin(1).unwrap();
    mock.end_render(&mut frame);
    assert!(frame.progress.misordered);
}

#[test]
fn order_errors_say_what_went_wrong() {
    let mut mock = MockApi::default();
    let mut frame = mock.begin(1).unwrap();
    mock.end_render(&mut frame);
    let error = frame.progress.order_error.unwrap();
    assert_eq!(
        error,
        OrderError { to: Step::RenderEnded, expected: Step::Tagged, found: Step::Begun }
    );
    assert_eq!(
        error.message(),
        "DLSS-G Frame: end_render called out of order (expected previous step Tagged, found Begun); \
         the proven per-frame sequence was violated and DLSS-G may decline to generate"
    );
    // The frame goes on from where it was taken, and stays marked.
    mock.present(&mut frame);
    assert_eq!(frame.progress.order_error, None);
    assert!(frame.progress.misordered);
    assert!(frame.progress.presented);
}

#[test]
fn correctly_ordered_frame_is_not_flagged() {
    let mut mock = MockApi::default();
    let mut frame = mock.begin(2).unwrap();
    mock.set_constants(&mut frame, &FgConstants::new()).unwrap();
    mock.acquire(&mut frame);
    mock.tag(&mut frame, make_tags(&[K_BUFFER_TYPE_DEPTH])).unwrap();
    mock.end_render(&mut frame);
    mock.present(&mut frame);
    assert!(!frame.progress.misordered);
    assert!(frame.progress.presented);
    assert_eq!(frame.dropped(), None);
}

#[test]
fn unpresented_frame_reads_as_aborted_before_drop() {
    let mut mock = MockApi::default();
    let mut frame = mock.begin(1).unwrap();
    mock.set_constants(&mut frame, &FgConstants::new()).unwrap();
    assert!(!frame.progress.presented);
    assert_eq!(frame.progress.step, Step::Constants);
    assert_eq!(
        frame.dropped().unwrap(),
        "DLSS-G Frame (index 1) was dropped before present() (last step: Constants); the frame was \
         aborted and DLSS-G saw an incomplete per-frame sequence"
    );
}

#[test]
fn get_new_frame_token_error_propagates() {
    let mut mock = MockApi {
        get_new_frame_token_result: SlResult::ErrorDeviceNotCreated,
        ..Default::default()
    };
    let result = mock.begin(0);
    assert!(matches!(
        result,
        Err(StreamlineError::SlCall { result: SlResult::ErrorDeviceNotCreated, .. })
    ));
}

#[test]
fn null_frame_token_is_reported() {
    let mut mock = MockApi { token_null: true, ..Default::default() };
    let result = mock.begin(0);
    assert!(matches!(result, Err(StreamlineError::FeatureFunctionUnavailable { .. })));
}

#[test]
fn set_constants_error_propagates() {
    let mut mock = MockApi {
        set_constants_result: SlResult::ErrorMissingConstants,
        ..Default::default()
    };
    let mut frame = mock.begin(5).unwrap();
    let err = mock.set_constants(&mut frame, &FgConstants::new()).unwrap_err();
    assert!(matches!(
        err,
        StreamlineError::SlCall { result: SlResult::ErrorMissingConstants, .. }
    ));
}

#[test]
fn tag_core_error_propagates() {
    let mut mock = MockApi {
        set_tag_result: SlResult::ErrorMissingResourceState,
        ..Default::default()
    };
    let mut frame = mock.begin(1).unwrap();
    mock.set_constants(&mut frame, &FgConstants::new()).unwrap();
    mock.acquire(&mut frame);
    let err = mock.tag(&mut frame, make_tags(&[K_BUFFER_TYPE_DEPTH])).unwrap_err();
    assert!(matches!(
        err,
        StreamlineError::SlCall { result: SlResult::ErrorMissingResourceState, .. }
    ));
}

#[test]
fn query_state_decodes_status_and_uses_given_mode() {
    let mut mock = MockApi {
        state_status: dlssg_status::OK,
        state_num_presented: 2,
        ..Default::default()
    };
    let st = mock.query_state(DLSSGMode::On).unwrap();
    assert!(st.is_ok);
    assert_eq!(st.num_frames_actually_presented, 2);
    assert_eq!(st.status_text, "eOk");
    assert!(mock.calls.contains(&Call::DlssgGetState { query_mode: DLSSGMode::On }));
}

#[test]
fn query_state_reports_failure_status() {
    let mut mock = MockApi {
        state_status: dlssg_status::FAIL_GET_CURRENT_BACK_BUFFER_INDEX_NOT_CALLED,
        ..Default::default()
    };
    let st = mock.query_state(DLSSGMode::On).unwrap();
    assert!(!st.is_ok);
    assert!(st.status_text.contains("eFailGetCurrentBackBufferIndexNotCalled"));
}

#[test]
fn query_state_error_propagates() {
    let mut mock = MockApi {
        dlssg_get_state_result: SlResult::ErrorNotInitialized,
        ..Default::default()
    };
    let err = mock.query_state(DLSSGMode::On).unwrap_err();
    assert!(matches!(
        err,
        StreamlineError::SlCall { result: SlResult::ErrorNotInitialized, .. }
    ));
}

#[test]
fn apply_dlssg_options_maps_options_through() {
    let mut mock = MockApi::default();
    let opts = FrameGenerationOptions::enabled();
    mock.apply_options(&opts, 87).unwrap();
    assert!(mock.calls.contains(&Call::DlssgSetOptions {
        mode: DLSSGMode::On,
        num_frames: 1,
        color_format: 87,
        ui_recomp: false,
        ui_format: 0,
    }));
}

#[test]
fn apply_dlssg_options_enables_ui_recomposition() {
    let mut mock = MockApi::default();
    let opts = FrameGenerationOptions::enabled().with_ui_recomposition(TextureFormat::R8Unorm);
    mock.apply_options(&opts, 0).unwrap();
    assert!(mock.calls.contains(&Call::DlssgSetOptions {
        mode: DLSSGMode::On,
        num_frames: 1,
        color_format: 0,
        ui_recomp: true,
        ui_format: 61,
    }));
}

#[test]
fn apply_dlssg_options_unresolved_feature_is_reported() {
    let mut mock = MockApi { features_unresolved: true, ..Default::default() };
    let err = mock.apply_options(&FrameGenerationOptions::enabled(), 0).unwrap_err();
    assert!(matches!(err, StreamlineError::FeatureFunctionUnavailable { .. }));
}

#[test]
fn apply_dlssg_options_call_error_propagates() {
    let mut mock = MockApi {
        dlssg_set_options_result: SlResult::ErrorFeatureNotSupported,
        ..Default::default()
    };
    let err = mock.apply_options(&FrameGenerationOptions::enabled(), 0).unwrap_err();
    assert!(matches!(
        err,
        StreamlineError::SlCall { result: SlResult::ErrorFeatureNotSupported, .. }
    ));
}

#[test]
fn reflex_set_options_records_the_mode() {
    let mut mock = MockApi::default();
    let r = mock.make(SlRequest::ReflexSetOptions(ReflexOptions::new(ReflexMode::LowLatency)));
    assert!(r.result.unwrap().is_ok());
    assert!(mock.calls.contains(&Call::ReflexSetOptions(ReflexMode::LowLatency)));
}

#[test]
fn options_carry_every_format() {
    let mut options = FrameGenerationOptions::default()
        .with_color_format(TextureFormat::Bgra8Unorm)
        .with_ui_recomposition(TextureFormat::Rgba8Unorm);
    options.mvec_format = Some(34);
    options.depth_format = Some(41);
    options.num_frames_to_generate = 3;
    options.mode = FrameGenerationMode::Auto;
    let viewport = ViewportHandle::new(0);
    match apply_dlssg_options(viewport, &options, 87) {
        SlRequest::DlssgSetOptions { viewport: v, options: sl } => {
            assert_eq!(v, viewport);
            assert_eq!(sl.mode, DLSSGMode::Auto);
            assert_eq!(sl.num_frames_to_generate, 3);
            assert_eq!((sl.color_buffer_format, sl.hud_less_buffer_format), (87, 87));
            assert_eq!((sl.mvec_buffer_format, sl.depth_buffer_format), (34, 41));
            assert_eq!(sl.ui_buffer_format, 28);
            assert_eq!(sl.enable_user_interface_recomposition, Boolean::True);
            assert_eq!(sl.base.struct_version, 5);
        }
        other => panic!("unexpected request {other:?}"),
    }
}

fn handle() -> Streamline {
    Streamline::initialized(Interposer { id: 1 }, SlResult::Success).unwrap()
}

fn set_up(
    mock: &mut MockApi,
    streamline: &mut Streamline,
    options: &FrameGenerationOptions,
) -> Result<FrameGenerationContext, StreamlineError> {
    let mut setup = FrameGenerationContext::new(streamline, options)?;
    while let Some(request) = setup.request(Some([1, 2, 3, 4, 5, 6, 7, 8])) {
        if let SlRequest::IsFeatureSupported { adapter, .. } = &request {
            assert_eq!(adapter.device_luid, Some([1, 2, 3, 4, 5, 6, 7, 8]));
        }
        let reply = mock.make(request);
        setup.reply(reply)?;
    }
    assert_eq!(setup.current(), SetupStep::Complete);
    setup.finish(streamline)
}

#[test]
fn context_setup_makes_its_calls_in_order() {
    let mut mock = MockApi::default();
    let mut streamline = handle();
    let options = FrameGenerationOptions::enabled().with_color_format(TextureFormat::Rgba16Float);
    let context = set_up(&mut mock, &mut streamline, &options).unwrap();
    assert!(context.is_enabled());
    assert_eq!(
        mock.calls,
        vec![
            Call::SetD3DDevice,
            Call::GetFeatureFunction(K_FEATURE_DLSS_G, "slDLSSGSetOptions"),
            Call::GetFeatureFunction(K_FEATURE_DLSS_G, "slDLSSGGetState"),
            Call::GetFeatureFunction(K_FEATURE_REFLEX, "slReflexSetOptions"),
            Call::GetFeatureFunction(K_FEATURE_REFLEX, "slReflexSleep"),
            Call::GetFeatureFunction(K_FEATURE_PCL, "slPCLSetMarker"),
            Call::IsFeatureSupported(K_FEATURE_DLSS_G),
            Call::ReflexSetOptions(ReflexMode::LowLatency),
            Call::DlssgSetOptions {
                mode: DLSSGMode::On,
                num_frames: 1,
                color_format: 10,
                ui_recomp: false,
                ui_format: 0,
            },
        ]
    );
    // The interposer now belongs to the context, which shuts it down.
    assert_eq!(streamline.teardown(), vec![]);
    for request in context.teardown() {
        mock.make(request);
    }
    assert_eq!(mock.calls.iter().filter(|c| **c == Call::Shutdown).count(), 1);
    assert_eq!(mock.calls.last(), Some(&Call::Shutdown));
    assert!(matches!(
        FrameGenerationContext::new(&streamline, &options),
        Err(StreamlineError::ContextAlreadyCreated)
    ));
}

#[test]
fn failed_setup_leaves_the_handle_reusable() {
    let options = FrameGenerationOptions::enabled();
    let mut streamline = handle();
    let cases: Vec<(MockApi, &str)> = vec![
        (
            MockApi { set_d3d_device_result: None, ..Default::default() },
            "slGetFeatureFunction(feature=1000, \"slSetD3DDevice\") failed: the wgpu device is not a Dx12 device",
        ),
        (
            MockApi { set_d3d_device_result: Some(SlResult::ErrorD3DAPI), ..Default::default() },
            "slSetD3DDevice returned ErrorD3DAPI",
        ),
        (
            MockApi { function_result: SlResult::ErrorFeatureMissing, ..Default::default() },
            "slGetFeatureFunction(feature=1000, \"slDLSSGSetOptions\") failed: slGetFeatureFunction returned ErrorFeatureMissing",
        ),
        (
            MockApi { function_null: true, ..Default::default() },
            "slGetFeatureFunction(feature=1000, \"slDLSSGSetOptions\") failed: slGetFeatureFunction returned a null function pointer",
        ),
        (
            MockApi {
                is_feature_supported_result: SlResult::ErrorAdapterNotSupported,
                ..Default::default()
            },
            "DLSS Frame Generation is not supported on this system: slIsFeatureSupported returned ErrorAdapterNotSupported",
        ),
        (
            MockApi { reflex_set_options_result: SlResult::ErrorReflexAPI, ..Default::default() },
            "slReflexSetOptions returned ErrorReflexAPI",
        ),
        (
            MockApi { features_unresolved: true, ..Default::default() },
            "slGetFeatureFunction(feature=3, \"slReflexSetOptions\") failed: feature function not resolved (resolve_feature_functions not called)",
        ),
        (
            MockApi { dlssg_set_options_result: SlResult::ErrorNGXFailed, ..Default::default() },
            "slDLSSGSetOptions returned ErrorNGXFailed",
        ),
    ];
    for (mut mock, message) in cases {
        let error = set_up(&mut mock, &mut streamline, &options).unwrap_err();
        assert_eq!(error.message(), message);
        assert_eq!(streamline.teardown(), vec![SlRequest::Shutdown]);
    }
    assert!(set_up(&mut MockApi::default(), &mut streamline, &options).is_ok());
}

#[test]
fn a_failed_setup_makes_no_further_calls() {
    let mut setup =
        FrameGenerationContext::new(&handle(), &FrameGenerationOptions::enabled()).unwrap();
    assert_eq!(setup.request(None), Some(SlRequest::SetD3DDevice));
    assert!(setup.reply(answer(SlResult::ErrorInvalidState)).is_err());
    assert_eq!(setup.current(), SetupStep::Failed);
    assert_eq!(setup.request(None), None);
    assert!(setup.reply(answer(SlResult::Success)).is_ok());
    assert_eq!(setup.current(), SetupStep::Failed);
}

#[test]
fn a_handle_yields_one_context() {
    let options = FrameGenerationOptions::enabled();
    let mut streamline = handle();
    let mut mock = MockApi::default();
    let mut first = FrameGenerationContext::new(&streamline, &options).unwrap();
    while let Some(request) = first.request(None) {
        let reply = mock.make(request);
        first.reply(reply).unwrap();
    }
    assert!(first.finish(&mut streamline).is_ok());
    assert!(matches!(
        first.finish(&mut streamline),
        Err(StreamlineError::ContextAlreadyCreated)
    ));
}

#[test]
fn a_setup_yields_a_context_only_on_its_own_interposer() {
    let streamline = handle();
    let mut other = Streamline::initialized(Interposer { id: 2 }, SlResult::Success).unwrap();
    let mut mock = MockApi::default();
    let mut setup =
        FrameGenerationContext::new(&streamline, &FrameGenerationOptions::enabled()).unwrap();
    while let Some(request) = setup.request(None) {
        let reply = mock.make(request);
        setup.reply(reply).unwrap();
    }
    assert_eq!(setup.current(), SetupStep::Complete);
    assert!(setup.finish(&mut other).is_err());
    // The other handle still owns its interposer.
    assert_eq!(other.teardown(), vec![SlRequest::Shutdown]);
}

#[test]
fn queries_never_ask_for_off() {
    let mut mock = MockApi::default();
    let mut options = FrameGenerationOptions::enabled();
    options.mode = FrameGenerationMode::Off;
    let mut context = set_up(&mut mock, &mut handle(), &options).unwrap();
    assert!(!context.is_enabled());
    let query_mode = |context: &FrameGenerationContext| match context.query_state() {
        SlRequest::DlssgGetState { options, .. } => options.mode,
        other => panic!("unexpected request {other:?}"),
    };
    assert_eq!(query_mode(&context), DLSSGMode::On);

    let request = context.set_mode(FrameGenerationMode::Auto);
    let reply = mock.make(request);
    context.mode_set(reply).unwrap();
    assert!(context.is_enabled());
    assert_eq!(query_mode(&context), DLSSGMode::Auto);

    let request = context.set_mode(FrameGenerationMode::Off);
    let reply = mock.make(request);
    context.mode_set(reply).unwrap();
    assert!(!context.is_enabled());
    assert_eq!(query_mode(&context), DLSSGMode::Auto);

    // A mode that could not be set changes neither.
    mock.dlssg_set_options_result = SlResult::ErrorInvalidState;
    let request = context.set_mode(FrameGenerationMode::On);
    let reply = mock.make(request);
    assert!(context.mode_set(reply).is_err());
    assert!(!context.is_enabled());
    assert_eq!(query_mode(&context), DLSSGMode::Auto);
}

#[test]
fn contexts_begin_frames() {
    let mut mock = MockApi::default();
    let context =
        set_up(&mut mock, &mut handle(), &FrameGenerationOptions::enabled()).unwrap();
    assert_eq!(context.begin_frame(9), SlRequest::GetNewFrameToken(9));
    let (frame, requests) = context
        .frame_begun(9, SlReply { result: Some(SlResult::Success), address: 77 })
        .unwrap();
    assert_eq!(frame.token.address, 77);
    assert_eq!(requests.len(), 3);
    let error = context.frame_begun(9, answer(SlResult::Success)).unwrap_err();
    assert_eq!(
        error.message(),
        "slGetFeatureFunction(feature=1000, \"slGetNewFrameToken\") failed: returned eOk but a null frame token"
    );
}

#[test]
fn initialization_carries_the_identity() {
    assert_eq!(SL_SDK_VERSION, (2u64 << 48) | (11u64 << 32) | (1u64 << 16) | 0xfedc);
    match Streamline::init().unwrap() {
        SlRequest::Init { preferences, sdk_version } => {
            assert_eq!(sdk_version, SL_SDK_VERSION);
            assert_eq!(preferences.project_id.as_deref(), Some(DEFAULT_PROJECT_ID));
            assert_eq!(preferences.engine_version.as_deref(), Some(DEFAULT_ENGINE_VERSION));
            assert_eq!(preferences.features_to_load, vec![1000, 3, 4]);
            assert_eq!(preferences.flags, (1 << 7) | 1);
            assert_eq!(preferences.render_api, RenderAPI::D3D12);
            assert_eq!(preferences.engine, EngineType::Custom);
            assert_eq!(preferences.log_level, LogLevel::Default);
            assert!(!preferences.show_console);
        }
        other => panic!("unexpected request {other:?}"),
    }
    assert_eq!(
        Streamline::init_with_identity("a\0b", "1.0").unwrap_err().message(),
        "slInit (project_id contained an interior NUL) returned ErrorInvalidParameter"
    );
    assert_eq!(
        Streamline::init_with_identity("ab", "1\0").unwrap_err().message(),
        "slInit (engine_version contained an interior NUL) returned ErrorInvalidParameter"
    );
    assert_eq!(
        Streamline::initialized(Interposer { id: 1 }, SlResult::ErrorNoPlugins)
            .unwrap_err()
            .message(),
        "slInit returned ErrorNoPlugins"
    );
}

fn resource(native: u64, format: TextureFormat) -> FgResource {
    FgResource::new(Some(native), UVec2::new(1280, 720), format)
}

#[test]
fn tagging_describes_each_resource() {
    let mut mock = MockApi::default();
    let mut frame = mock.begin(4).unwrap();
    mock.set_constants(&mut frame, &FgConstants::new()).unwrap();
    mock.acquire(&mut frame);
    let resources = FgResources {
        depth: resource(1, TextureFormat::R32Float),
        motion_vectors: resource(2, TextureFormat::Rg16Float).with_resource_state(0x40),
        hudless_color: None,
        ui: Some(FgUi::Alpha(resource(3, TextureFormat::R8Unorm))),
    };
    match frame.tag(&resources, true).unwrap() {
        SlRequest::SetTagForFrame { tags, token, .. } => {
            assert_eq!(token, frame.token);
            let types: Vec<BufferType> = tags.iter().map(|t| t.buffer_type).collect();
            assert_eq!(
                types,
                vec![K_BUFFER_TYPE_DEPTH, K_BUFFER_TYPE_MOTION_VECTORS, K_BUFFER_TYPE_UI_ALPHA]
            );
            let natives: Vec<u64> = tags.iter().map(|t| t.resource.native).collect();
            assert_eq!(natives, vec![1, 2, 3]);
            let formats: Vec<u32> = tags.iter().map(|t| t.resource.native_format).collect();
            assert_eq!(formats, vec![41, 34, 61]);
            let states: Vec<u32> = tags.iter().map(|t| t.resource.state).collect();
            assert_eq!(states, vec![0x80, 0x40, 0x80]);
            for tag in &tags {
                assert_eq!((tag.resource.width, tag.resource.height), (1280, 720));
                assert_eq!(tag.lifecycle, ResourceLifecycle::ValidUntilPresent);
                assert_eq!(tag.resource.resource_type, ResourceType::Tex2d);
            }
        }
        other => panic!("unexpected request {other:?}"),
    }
    assert_eq!(frame.progress.step, Step::Tagged);
}

#[test]
fn tagging_failures_do_not_take_the_step() {
    let mut mock = MockApi::default();
    let mut frame = mock.begin(4).unwrap();
    mock.set_constants(&mut frame, &FgConstants::new()).unwrap();
    mock.acquire(&mut frame);
    let mut resources = FgResources {
        depth: resource(1, TextureFormat::R32Float),
        motion_vectors: resource(2, TextureFormat::Rg16Float),
        hudless_color: None,
        ui: None,
    };
    assert_eq!(
        frame.tag(&resources, false).unwrap_err().message(),
        "slGetFeatureFunction(feature=1000, \"slSetTagForFrame\") failed: the tagging encoder is not a Dx12 encoder with an open command list"
    );
    resources.motion_vectors.resource = None;
    assert_eq!(
        frame.tag(&resources, false).unwrap_err().message(),
        "slGetFeatureFunction(feature=1000, \"slSetTagForFrame\") failed: a tagged FgResource is not a Dx12 texture"
    );
    assert_eq!(frame.progress.step, Step::Acquired);
}

#[test]
fn acquisition_needs_the_back_buffer_index() {
    let mut mock = MockApi::default();
    let mut frame = mock.begin(4).unwrap();
    mock.acquire(&mut frame);
    assert_eq!(frame.acquired(SurfaceStatus::Success, Some(2)), Ok(2));
    assert_eq!(frame.acquired(SurfaceStatus::Suboptimal, Some(1)), Ok(1));
    assert_eq!(
        frame.acquired(SurfaceStatus::Success, None).unwrap_err().message(),
        "slGetFeatureFunction(feature=1000, \"IDXGISwapChain3::GetCurrentBackBufferIndex\") failed: the surface is not a configured Dx12 surface (cannot perform the per-frame GetCurrentBackBufferIndex call DLSS-G requires)"
    );
    assert_eq!(
        frame
            .acquired(SurfaceStatus::Unavailable("Outdated".to_string()), Some(1))
            .unwrap_err()
            .message(),
        "the wgpu surface is unavailable this frame (Outdated); reconfigure the surface and retry"
    );
}

#[test]
fn step_labels_name_the_operations() {
    let steps = [
        (Step::Begun, "begin_frame"),
        (Step::Constants, "set_constants"),
        (Step::Acquired, "acquire"),
        (Step::Tagged, "tag"),
        (Step::RenderEnded, "end_render"),
        (Step::Presented, "present"),
    ];
    for (step, label) in steps {
        assert_eq!(step.label(), label);
    }
}

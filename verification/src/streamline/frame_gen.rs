//! The Streamline handle, the frame generation context that is made from it, and its options.
//!
//! Streamline is initialized before the graphics instance exists; a context is set up after the
//! device exists and before its swapchain is configured. A handle yields one context, which then
//! owns the loaded interposer and shuts it down; a setup that fails leaves the handle as it was.

use crate::streamline::api::{SlReply, SlRequest};
use crate::streamline::dlssg_status;
use crate::streamline::error::StreamlineError;
use crate::streamline::ffi::{feature_fn, feature_function_list, resolved_feature_fns};
use crate::streamline::frame::{begin_frame_with, check_call, Frame};
use crate::streamline::preference_flags;
use crate::streamline::result::SlResult;
use crate::streamline::tagging::{dxgi_format_of, TextureFormat};
use crate::streamline::types::{
    AdapterInfo, Boolean, BufferFormats, DLSSGMode, DLSSGOptions, DLSSGState, EngineType, LogLevel,
    Preferences, ReflexMode, ReflexOptions, RenderAPI, ViewportHandle, K_FEATURE_DLSS_G,
    K_FEATURE_PCL, K_FEATURE_REFLEX,
};
use vstd::prelude::*;

verus! {

/// The version of the Streamline SDK, 2.11.1, as Streamline encodes it.
pub const SL_SDK_VERSION: u64 = 0x0002_000b_0001_fedc;

/// The default project id. A real integration may need one that NVIDIA issued.
pub const DEFAULT_PROJECT_ID: &'static str = "a0f57b54-1daf-4934-90ae-c4035c19df04";

/// The default engine version.
pub const DEFAULT_ENGINE_VERSION: &'static str = "0.1.0";

/// The call that is reported for a project id that is no C string.
pub const PROJECT_ID_NUL_TEXT: &'static str = "slInit (project_id contained an interior NUL)";

/// The call that is reported for an engine version that is no C string.
pub const ENGINE_VERSION_NUL_TEXT: &'static str =
    "slInit (engine_version contained an interior NUL)";

/// The number of a loaded, verified interposer.
#[derive(Clone, Copy, Debug, PartialEq, Eq, Structural)]
pub struct Interposer {
    /// The number.
    pub id: u64,
}

/// The process-wide Streamline handle: a loaded interposer that has been initialized for frame
/// generation, Reflex and the latency markers.
#[derive(Debug, PartialEq, Eq)]
pub struct Streamline {
    api: Option<Interposer>,
}

/// Whether a text holds a NUL character.
pub open spec fn has_nul(text: Seq<char>) -> bool {
    exists|i: int| 0 <= i < text.len() && #[trigger] text[i] == '\0'
}

fn contains_nul(text: &str) -> (r: bool)
    ensures
        r == has_nul(text@),
{
    let len: usize = text.unicode_len();
    let mut i: usize = 0;
    while i < len
        invariant
            i <= len == text@.len(),
            forall|j: int| 0 <= j < i ==> #[trigger] text@[j] != '\0',
        decreases len - i,
    {
        if text.get_char(i) == '\0' {
            assert(text@[i as int] == '\0');
            return true;
        }
        i = i + 1;
    }
    false
}

impl Streamline {
    /// The interposer that the handle owns, until a context takes it.
    pub closed spec fn owned(self) -> Option<Interposer> {
        self.api
    }

    /// Whether `request` initializes Streamline for frame generation under the given identity.
    pub open spec fn initializes(
        request: SlRequest,
        project_id: Seq<char>,
        engine_version: Seq<char>,
    ) -> bool {
        request matches SlRequest::Init { preferences, sdk_version } && {
            &&& sdk_version == SL_SDK_VERSION
            &&& preferences.has_header()
            &&& !preferences.show_console
            &&& preferences.log_level == LogLevel::Default
            &&& preferences.flags == preference_flags::USE_FRAME_BASED_RESOURCE_TAGGING
                | preference_flags::DISABLE_CL_STATE_TRACKING
            &&& preferences.features_to_load@ == seq![
                K_FEATURE_DLSS_G,
                K_FEATURE_REFLEX,
                K_FEATURE_PCL,
            ]
            &&& preferences.application_id == 0
            &&& preferences.engine == EngineType::Custom
            &&& preferences.engine_version is Some
            &&& preferences.engine_version->0@ == engine_version
            &&& preferences.project_id is Some
            &&& preferences.project_id->0@ == project_id
            &&& preferences.render_api == RenderAPI::D3D12
        }
    }

    /// The initialization call under the default identity, once the interposer is loaded.
    pub fn init() -> (r: Result<SlRequest, StreamlineError>)
        ensures
            r is Ok <==> !has_nul(DEFAULT_PROJECT_ID@) && !has_nul(DEFAULT_ENGINE_VERSION@),
            r matches Ok(request) ==> Streamline::initializes(
                request,
                DEFAULT_PROJECT_ID@,
                DEFAULT_ENGINE_VERSION@,
            ),
            r is Ok,
    {
        proof {
            default_identity_has_no_nul();
        }
        Streamline::init_with_identity(DEFAULT_PROJECT_ID, DEFAULT_ENGINE_VERSION)
    }

    /// The initialization call under the given identity, once the interposer is loaded. Resources are
    /// tagged for single frames, and Streamline does not track command lists, whose state the
    /// graphics API already tracks.
    ///
    /// Neither text may hold a NUL character.
    pub fn init_with_identity(project_id: &str, engine_version: &str) -> (r: Result<
        SlRequest,
        StreamlineError,
    >)
        ensures
            r is Ok <==> !has_nul(project_id@) && !has_nul(engine_version@),
            r matches Ok(request) ==> Streamline::initializes(
                request,
                project_id@,
                engine_version@,
            ),
            r matches Err(e) ==> e@ == crate::streamline::frame::call_error(
                if has_nul(project_id@) {
                    PROJECT_ID_NUL_TEXT@
                } else {
                    ENGINE_VERSION_NUL_TEXT@
                },
                SlResult::ErrorInvalidParameter,
            ),
    {
        if contains_nul(project_id) {
            return Err(
                StreamlineError::SlCall {
                    function: PROJECT_ID_NUL_TEXT.to_string(),
                    result: SlResult::ErrorInvalidParameter,
                },
            );
        }
        if contains_nul(engine_version) {
            return Err(
                StreamlineError::SlCall {
                    function: ENGINE_VERSION_NUL_TEXT.to_string(),
                    result: SlResult::ErrorInvalidParameter,
                },
            );
        }
        let mut preferences = Preferences::new();
        preferences.features_to_load = vec![K_FEATURE_DLSS_G, K_FEATURE_REFLEX, K_FEATURE_PCL];
        preferences.flags = preference_flags::USE_FRAME_BASED_RESOURCE_TAGGING
            | preference_flags::DISABLE_CL_STATE_TRACKING;
        preferences.engine_version = Some(engine_version.to_string());
        preferences.project_id = Some(project_id.to_string());
        Ok(SlRequest::Init { preferences, sdk_version: SL_SDK_VERSION })
    }

    /// The handle, once the interposer was initialized.
    pub fn initialized(interposer: Interposer, result: SlResult) -> (r: Result<
        Streamline,
        StreamlineError,
    >)
        ensures
            match r {
                Ok(streamline) => result == SlResult::Success && streamline.owned() == Some(
                    interposer,
                ),
                Err(e) => result != SlResult::Success && e@
                    == crate::streamline::frame::call_error("slInit"@, result),
            },
    {
        match check_call("slInit", result) {
            Ok(()) => Ok(Streamline { api: Some(interposer) }),
            Err(e) => Err(e),
        }
    }

    /// The calls that the handle makes when it is dropped: none once a context owns the interposer.
    pub open spec fn teardown_requests(self) -> Seq<SlRequest> {
        if self.owned() is Some {
            seq![SlRequest::Shutdown]
        } else {
            seq![]
        }
    }

    /// The calls to make when the handle is dropped.
    pub fn teardown(&self) -> (r: Vec<SlRequest>)
        ensures
            r@ == self.teardown_requests(),
    {
        let mut requests: Vec<SlRequest> = Vec::new();
        if self.api.is_some() {
            requests.push(SlRequest::Shutdown);
        }
        assert(requests@ =~= self.teardown_requests());
        requests
    }
}

/// The default identity can be handed on as C strings.
pub proof fn default_identity_has_no_nul()
    ensures
        !has_nul(DEFAULT_PROJECT_ID@),
        !has_nul(DEFAULT_ENGINE_VERSION@),
{
    reveal_strlit("a0f57b54-1daf-4934-90ae-c4035c19df04");
    reveal_strlit("0.1.0");
}

/// The mode of frame generation.
#[derive(Clone, Copy, Debug, PartialEq, Eq, Structural)]
pub enum FrameGenerationMode {
    /// No frames are generated.
    Off,
    /// Frames are generated, as many as the options say.
    On,
    /// The runtime decides.
    Auto,
}

impl FrameGenerationMode {
    /// The Streamline mode.
    pub open spec fn sl_mode(self) -> DLSSGMode {
        match self {
            FrameGenerationMode::Off => DLSSGMode::Off,
            FrameGenerationMode::On => DLSSGMode::On,
            FrameGenerationMode::Auto => DLSSGMode::Auto,
        }
    }

    /// The Streamline mode.
    pub fn to_sl(self) -> (r: DLSSGMode)
        ensures
            r == self.sl_mode(),
            r == DLSSGMode::Off <==> self == FrameGenerationMode::Off,
            r == DLSSGMode::On <==> self == FrameGenerationMode::On,
            r == DLSSGMode::Auto <==> self == FrameGenerationMode::Auto,
    {
        match self {
            FrameGenerationMode::Off => DLSSGMode::Off,
            FrameGenerationMode::On => DLSSGMode::On,
            FrameGenerationMode::Auto => DLSSGMode::Auto,
        }
    }
}

/// Options selected when a context is created.
#[derive(Clone, Copy, Debug, PartialEq, Eq, Structural)]
pub struct FrameGenerationOptions {
    /// The mode.
    pub mode: FrameGenerationMode,
    /// How many frames to generate between each pair of rendered frames.
    pub num_frames_to_generate: u32,
    /// DXGI format of the back buffer and of color without the user interface; inferred if `None`.
    pub color_format: Option<u32>,
    /// DXGI format of the motion vectors; inferred if `None`.
    pub mvec_format: Option<u32>,
    /// DXGI format of depth; inferred if `None`.
    pub depth_format: Option<u32>,
    /// Whether a separately tagged user interface layer is recomposited over generated frames. A
    /// layer may be tagged without it, but is then not recomposited.
    pub enable_ui_recomposition: bool,
    /// DXGI format of the user interface, used only for recomposition; inferred if `None`.
    pub ui_format: Option<u32>,
}

/// The format, or zero for one to be inferred.
pub open spec fn format_or_inferred(format: Option<u32>) -> u32 {
    match format {
        Some(format) => format,
        None => 0,
    }
}

impl FrameGenerationOptions {
    /// Frame generation on, with one generated frame, formats inferred, and no recomposition.
    pub open spec fn enabled_value() -> FrameGenerationOptions {
        FrameGenerationOptions {
            mode: FrameGenerationMode::On,
            num_frames_to_generate: 1,
            color_format: None,
            mvec_format: None,
            depth_format: None,
            enable_ui_recomposition: false,
            ui_format: None,
        }
    }

    /// Frame generation on, with one generated frame, formats inferred, and no recomposition.
    pub fn enabled() -> (r: FrameGenerationOptions)
        ensures
            r == FrameGenerationOptions::enabled_value(),
    {
        FrameGenerationOptions {
            mode: FrameGenerationMode::On,
            num_frames_to_generate: 1,
            color_format: None,
            mvec_format: None,
            depth_format: None,
            enable_ui_recomposition: false,
            ui_format: None,
        }
    }

    /// The same options with the format of color.
    pub fn with_color_format(self, format: TextureFormat) -> (r: FrameGenerationOptions)
        ensures
            r == (FrameGenerationOptions { color_format: Some(format.dxgi()), ..self }),
    {
        let mut options = self;
        options.color_format = Some(dxgi_format_of(format));
        options
    }

    /// The same options with recomposition of a user interface of the given format.
    pub fn with_ui_recomposition(self, format: TextureFormat) -> (r: FrameGenerationOptions)
        ensures
            r == (FrameGenerationOptions {
                enable_ui_recomposition: true,
                ui_format: Some(format.dxgi()),
                ..self
            }),
    {
        let mut options = self;
        options.enable_ui_recomposition = true;
        options.ui_format = Some(dxgi_format_of(format));
        options
    }

    /// The formats that Streamline is told.
    pub open spec fn formats(self, color_format: u32) -> BufferFormats {
        BufferFormats {
            color: color_format,
            mvec: format_or_inferred(self.mvec_format),
            depth: format_or_inferred(self.depth_format),
            ui: if self.enable_ui_recomposition {
                format_or_inferred(self.ui_format)
            } else {
                0
            },
            recomposition: if self.enable_ui_recomposition {
                Boolean::True
            } else {
                Boolean::False
            },
        }
    }
}

impl Default for FrameGenerationOptions {
    fn default() -> (r: Self)
        ensures
            r == FrameGenerationOptions::enabled_value(),
    {
        FrameGenerationOptions::enabled()
    }
}

fn or_inferred(format: Option<u32>) -> (r: u32)
    ensures
        r == format_or_inferred(format),
{
    match format {
        Some(format) => format,
        None => 0,
    }
}

/// Whether `request` sets the given options for a viewport.
pub open spec fn applies(
    request: SlRequest,
    viewport: ViewportHandle,
    options: FrameGenerationOptions,
    color_format: u32,
) -> bool {
    request matches SlRequest::DlssgSetOptions { viewport: v, options: sl } && v == viewport
        && sl.asks_for(
        options.mode.sl_mode(),
        options.num_frames_to_generate,
        options.formats(color_format),
    )
}

/// The call that sets the options.
pub fn apply_dlssg_options(
    viewport: ViewportHandle,
    options: &FrameGenerationOptions,
    color_format: u32,
) -> (r: SlRequest)
    ensures
        applies(r, viewport, *options, color_format),
        r matches SlRequest::DlssgSetOptions { viewport: v, options: sl } && {
            &&& v == viewport
            &&& sl.mode == DLSSGMode::Off <==> options.mode == FrameGenerationMode::Off
            &&& sl.mode == DLSSGMode::On <==> options.mode == FrameGenerationMode::On
            &&& sl.mode == DLSSGMode::Auto <==> options.mode == FrameGenerationMode::Auto
            &&& sl.num_frames_to_generate == options.num_frames_to_generate
            &&& sl.color_buffer_format == color_format
            &&& sl.hud_less_buffer_format == color_format
            &&& options.mvec_format matches Some(format) ==> sl.mvec_buffer_format == format
            &&& options.mvec_format is None ==> sl.mvec_buffer_format == 0
            &&& options.depth_format matches Some(format) ==> sl.depth_buffer_format == format
            &&& options.depth_format is None ==> sl.depth_buffer_format == 0
            &&& sl.enable_user_interface_recomposition == Boolean::True
                <==> options.enable_ui_recomposition
            &&& options.enable_ui_recomposition && options.ui_format is Some ==> Some(
                sl.ui_buffer_format,
            ) == options.ui_format
            &&& !options.enable_ui_recomposition || options.ui_format is None
                ==> sl.ui_buffer_format == 0
        },
{
    let mut sl = DLSSGOptions::new();
    sl.mode = options.mode.to_sl();
    sl.num_frames_to_generate = options.num_frames_to_generate;
    sl.color_buffer_format = color_format;
    sl.hud_less_buffer_format = color_format;
    sl.mvec_buffer_format = or_inferred(options.mvec_format);
    sl.depth_buffer_format = or_inferred(options.depth_format);
    if options.enable_ui_recomposition {
        sl.enable_user_interface_recomposition = Boolean::True;
        sl.ui_buffer_format = or_inferred(options.ui_format);
    }
    SlRequest::DlssgSetOptions { viewport, options: sl }
}

/// The error of a feature call, if it failed: the function was never resolved, or it returned a
/// failure.
pub open spec fn feature_call_error(
    feature: u32,
    function: Seq<char>,
    result: Option<SlResult>,
) -> Option<crate::streamline::error::StreamlineErrorView> {
    match result {
        None => Some(
            crate::streamline::ffi::unavailable(
                feature,
                function,
                crate::streamline::ffi::NOT_RESOLVED_TEXT@,
            ),
        ),
        Some(result) => if result == SlResult::Success {
            None
        } else {
            Some(crate::streamline::frame::call_error(function, result))
        },
    }
}

fn check_feature_call(feature: u32, function: &str, result: Option<SlResult>) -> (r: Result<
    (),
    StreamlineError,
>)
    ensures
        match r {
            Ok(()) => feature_call_error(feature, function@, result) is None,
            Err(e) => feature_call_error(feature, function@, result) == Some(e@),
        },
{
    match resolved_feature_fns(feature, function, result) {
        Ok(result) => check_call(function, result),
        Err(e) => Err(e),
    }
}

/// What comes of setting the options.
pub fn dlssg_options_applied(reply: SlReply) -> (r: Result<(), StreamlineError>)
    ensures
        match r {
            Ok(()) => reply.result == Some(SlResult::Success),
            Err(e) => feature_call_error(K_FEATURE_DLSS_G, "slDLSSGSetOptions"@, reply.result)
                == Some(e@),
        },
{
    check_feature_call(K_FEATURE_DLSS_G, "slDLSSGSetOptions", reply.result)
}

/// Decoded snapshot of the state of frame generation.
#[derive(Debug, PartialEq, Eq)]
pub struct FrameGenerationState {
    /// The status bits.
    pub status: u32,
    /// The status in words.
    pub status_text: String,
    /// Whether nothing is wrong.
    pub is_ok: bool,
    /// Frames the runtime presented for the last frame; more than one means that it generates.
    pub num_frames_actually_presented: u32,
    /// The maximum number of frames that can be generated on this hardware.
    pub num_frames_to_generate_max: u32,
    /// Estimated use of video memory, in bytes.
    pub estimated_vram_usage_in_bytes: u64,
}

/// Whether `request` queries the state for a mode and number of frames.
pub open spec fn queries(
    request: SlRequest,
    viewport: ViewportHandle,
    mode: DLSSGMode,
    num_frames_to_generate: u32,
) -> bool {
    request matches SlRequest::DlssgGetState { viewport: v, options } && v == viewport
        && options.asks_for(mode, num_frames_to_generate, BufferFormats::unset())
}

/// The call that queries the state.
pub fn query_state_request(
    viewport: ViewportHandle,
    mode: DLSSGMode,
    num_frames_to_generate: u32,
) -> (r: SlRequest)
    ensures
        queries(r, viewport, mode, num_frames_to_generate),
{
    let mut options = DLSSGOptions::new();
    options.mode = mode;
    options.num_frames_to_generate = num_frames_to_generate;
    SlRequest::DlssgGetState { viewport, options }
}

/// The snapshot of a state that was queried.
pub fn query_state_with(reply: SlReply, state: &DLSSGState) -> (r: Result<
    FrameGenerationState,
    StreamlineError,
>)
    ensures
        match r {
            Ok(snapshot) => {
                &&& reply.result == Some(SlResult::Success)
                &&& snapshot.status == state.status
                &&& snapshot.status_text@ == dlssg_status::status_text(state.status)
                &&& snapshot.is_ok == (state.status == dlssg_status::OK)
                &&& snapshot.num_frames_actually_presented == state.num_frames_actually_presented
                &&& snapshot.num_frames_to_generate_max == state.num_frames_to_generate_max
                &&& snapshot.estimated_vram_usage_in_bytes == state.estimated_vram_usage_in_bytes
            },
            Err(e) => feature_call_error(K_FEATURE_DLSS_G, "slDLSSGGetState"@, reply.result)
                == Some(e@),
        },
{
    match check_feature_call(K_FEATURE_DLSS_G, "slDLSSGGetState", reply.result) {
        Err(e) => Err(e),
        Ok(()) => Ok(
            FrameGenerationState {
                status: state.status,
                status_text: dlssg_status::decode(state.status),
                is_ok: state.status == dlssg_status::OK,
                num_frames_actually_presented: state.num_frames_actually_presented,
                num_frames_to_generate_max: state.num_frames_to_generate_max,
                estimated_vram_usage_in_bytes: state.estimated_vram_usage_in_bytes,
            },
        ),
    }
}

/// Where the setup of a context stands: the call to make next, or how it ended.
#[derive(Clone, Copy, Debug, PartialEq, Eq, Structural)]
pub enum SetupStep {
    /// Register the device.
    SetDevice,
    /// Resolve the feature function of this number.
    ResolveFunction(u64),
    /// Ask whether the adapter supports frame generation.
    CheckSupport,
    /// Set Reflex to low latency, without which frame generation fails.
    SetReflexMode,
    /// Set the options.
    SetOptions,
    /// All calls have succeeded.
    Complete,
    /// A call has failed.
    Failed,
}

impl SetupStep {
    /// The step after a call that succeeded.
    pub open spec fn following(self) -> SetupStep {
        match self {
            SetupStep::SetDevice => SetupStep::ResolveFunction(0),
            SetupStep::ResolveFunction(i) => if i < 4 {
                SetupStep::ResolveFunction((i + 1) as u64)
            } else {
                SetupStep::CheckSupport
            },
            SetupStep::CheckSupport => SetupStep::SetReflexMode,
            SetupStep::SetReflexMode => SetupStep::SetOptions,
            SetupStep::SetOptions => SetupStep::Complete,
            SetupStep::Complete => SetupStep::Complete,
            SetupStep::Failed => SetupStep::Failed,
        }
    }

    /// The error that a reply amounts to, if it does.
    pub open spec fn error(
        self,
        reply: SlReply,
    ) -> Option<crate::streamline::error::StreamlineErrorView> {
        match self {
            SetupStep::SetDevice => match reply.result {
                None => Some(
                    crate::streamline::ffi::unavailable(
                        K_FEATURE_DLSS_G,
                        "slSetD3DDevice"@,
                        NOT_A_DX12_DEVICE_TEXT@,
                    ),
                ),
                Some(result) => if result == SlResult::Success {
                    None
                } else {
                    Some(crate::streamline::frame::call_error("slSetD3DDevice"@, result))
                },
            },
            SetupStep::ResolveFunction(i) => {
                let function = crate::streamline::ffi::feature_functions()[i as int];
                let result = answered(reply);
                if result != SlResult::Success {
                    Some(
                        crate::streamline::ffi::unavailable(
                            function.feature,
                            function.name@,
                            crate::streamline::ffi::UNRESOLVED_PREFIX@ + result.text()@,
                        ),
                    )
                } else if reply.address == 0 {
                    Some(
                        crate::streamline::ffi::unavailable(
                            function.feature,
                            function.name@,
                            crate::streamline::ffi::NULL_FUNCTION_TEXT@,
                        ),
                    )
                } else {
                    None
                }
            },
            SetupStep::CheckSupport => if answered(reply) == SlResult::Success {
                None
            } else {
                Some(
                    crate::streamline::error::StreamlineErrorView::FeatureNotSupported(
                        answered(reply),
                    ),
                )
            },
            SetupStep::SetReflexMode => feature_call_error(
                K_FEATURE_REFLEX,
                "slReflexSetOptions"@,
                reply.result,
            ),
            SetupStep::SetOptions => feature_call_error(
                K_FEATURE_DLSS_G,
                "slDLSSGSetOptions"@,
                reply.result,
            ),
            SetupStep::Complete => None,
            SetupStep::Failed => None,
        }
    }
}

/// What an export returned. The exports are resolved when the interposer is loaded and can always be
/// called; a missing reply counts as an invalid state.
pub open spec fn answered(reply: SlReply) -> SlResult {
    match reply.result {
        Some(result) => result,
        None => SlResult::ErrorInvalidState,
    }
}

fn answer_of(reply: SlReply) -> (r: SlResult)
    ensures
        r == answered(reply),
{
    match reply.result {
        Some(result) => result,
        None => SlResult::ErrorInvalidState,
    }
}

/// The report of a device that is not a D3D12 one.
pub const NOT_A_DX12_DEVICE_TEXT: &'static str = "the wgpu device is not a Dx12 device";

/// The setup of a context, call by call.
#[derive(Clone, Copy, Debug, PartialEq, Eq)]
pub struct ContextSetup {
    interposer: Interposer,
    options: FrameGenerationOptions,
    viewport: ViewportHandle,
    step: SetupStep,
}

impl ContextSetup {
    #[verifier::type_invariant]
    spec fn is_valid(self) -> bool {
        &&& self.viewport.is_viewport(0)
        &&& self.step matches SetupStep::ResolveFunction(i) ==> i < 5
    }

    /// The interposer that the calls of the setup are made on.
    pub closed spec fn interposer(self) -> Interposer {
        self.interposer
    }

    /// The options that the context is set up with.
    pub closed spec fn chosen_options(self) -> FrameGenerationOptions {
        self.options
    }

    /// The viewport.
    pub closed spec fn viewport_handle(self) -> ViewportHandle {
        self.viewport
    }

    /// Where the setup stands.
    pub closed spec fn at(self) -> SetupStep {
        self.step
    }

    /// Where the setup stands.
    pub fn current(&self) -> (r: SetupStep)
        ensures
            r == self.at(),
    {
        self.step
    }

    /// Whether `request` is the call of the current step, for the adapter with the identifier `luid`.
    pub open spec fn asks(self, luid: Option<[u8; 8]>, request: SlRequest) -> bool {
        match self.at() {
            SetupStep::SetDevice => request == SlRequest::SetD3DDevice,
            SetupStep::ResolveFunction(i) => {
                let function = crate::streamline::ffi::feature_functions()[i as int];
                request == (SlRequest::GetFeatureFunction {
                    feature: function.feature,
                    name: function.name,
                })
            },
            SetupStep::CheckSupport => request matches SlRequest::IsFeatureSupported {
                feature,
                adapter,
            } && feature == K_FEATURE_DLSS_G && adapter.names(luid),
            SetupStep::SetReflexMode => request matches SlRequest::ReflexSetOptions(options)
                && options.asks_for(ReflexMode::LowLatency),
            SetupStep::SetOptions => applies(
                request,
                self.viewport_handle(),
                self.chosen_options(),
                format_or_inferred(self.chosen_options().color_format),
            ),
            SetupStep::Complete => false,
            SetupStep::Failed => false,
        }
    }

    /// The call to make now; `None` once the setup has ended. `luid` is the identifier of the adapter,
    /// if it could be read. Only [`SetupStep::CheckSupport`] needs it.
    pub fn request(&self, luid: Option<[u8; 8]>) -> (r: Option<SlRequest>)
        ensures
            match r {
                Some(request) => self.asks(luid, request),
                None => self.at() == SetupStep::Complete || self.at() == SetupStep::Failed,
            },
    {
        proof {
            use_type_invariant(self);
        }
        match self.step {
            SetupStep::SetDevice => Some(SlRequest::SetD3DDevice),
            SetupStep::ResolveFunction(i) => {
                let functions = feature_function_list();
                let function = functions[i as usize];
                Some(
                    SlRequest::GetFeatureFunction {
                        feature: function.feature,
                        name: function.name,
                    },
                )
            },
            SetupStep::CheckSupport => {
                let mut adapter = AdapterInfo::new();
                adapter.device_luid = luid;
                Some(SlRequest::IsFeatureSupported { feature: K_FEATURE_DLSS_G, adapter })
            },
            SetupStep::SetReflexMode => Some(
                SlRequest::ReflexSetOptions(ReflexOptions::new(ReflexMode::LowLatency)),
            ),
            SetupStep::SetOptions => Some(
                apply_dlssg_options(
                    self.viewport,
                    &self.options,
                    or_inferred(self.options.color_format),
                ),
            ),
            SetupStep::Complete => None,
            SetupStep::Failed => None,
        }
    }

    fn check(&self, reply: SlReply) -> (r: Result<(), StreamlineError>)
        ensures
            match r {
                Ok(()) => self.at().error(reply) is None,
                Err(e) => self.at().error(reply) == Some(e@),
            },
    {
        proof {
            use_type_invariant(self);
        }
        match self.step {
            SetupStep::SetDevice => match reply.result {
                None => Err(
                    StreamlineError::FeatureFunctionUnavailable {
                        feature: K_FEATURE_DLSS_G,
                        function: "slSetD3DDevice".to_string(),
                        detail: NOT_A_DX12_DEVICE_TEXT.to_string(),
                    },
                ),
                Some(result) => check_call("slSetD3DDevice", result),
            },
            SetupStep::ResolveFunction(i) => {
                let functions = feature_function_list();
                match feature_fn(functions[i as usize], answer_of(reply), reply.address) {
                    Ok(_) => Ok(()),
                    Err(e) => Err(e),
                }
            },
            SetupStep::CheckSupport => {
                let result = answer_of(reply);
                if result.is_ok() {
                    Ok(())
                } else {
                    Err(StreamlineError::FeatureNotSupported(result))
                }
            },
            SetupStep::SetReflexMode => check_feature_call(
                K_FEATURE_REFLEX,
                "slReflexSetOptions",
                reply.result,
            ),
            SetupStep::SetOptions => dlssg_options_applied(reply),
            SetupStep::Complete => Ok(()),
            SetupStep::Failed => Ok(()),
        }
    }

    /// Takes the reply to the current call. After a failure no further call is made.
    pub fn reply(&mut self, reply: SlReply) -> (r: Result<(), StreamlineError>)
        ensures
            final(self).interposer() == old(self).interposer(),
            final(self).chosen_options() == old(self).chosen_options(),
            final(self).viewport_handle() == old(self).viewport_handle(),
            match old(self).at().error(reply) {
                None => r is Ok && final(self).at() == old(self).at().following(),
                Some(error) => r is Err && r->Err_0@ == error && final(self).at()
                    == SetupStep::Failed,
            },
    {
        proof {
            use_type_invariant(&*self);
        }
        let outcome = self.check(reply);
        self.step = match &outcome {
            Err(_) => SetupStep::Failed,
            Ok(()) => match self.step {
                SetupStep::SetDevice => SetupStep::ResolveFunction(0),
                SetupStep::ResolveFunction(i) => {
                    if i < 4 {
                        SetupStep::ResolveFunction(i + 1)
                    } else {
                        SetupStep::CheckSupport
                    }
                },
                SetupStep::CheckSupport => SetupStep::SetReflexMode,
                SetupStep::SetReflexMode => SetupStep::SetOptions,
                SetupStep::SetOptions => SetupStep::Complete,
                SetupStep::Complete => SetupStep::Complete,
                SetupStep::Failed => SetupStep::Failed,
            },
        };
        outcome
    }

    /// The context, once the setup is complete. Only now does the interposer move from the handle
    /// into the context. A handle that does not own the interposer of this setup, or no longer owns
    /// it, yields no context and stays as it is.
    pub fn finish(&self, streamline: &mut Streamline) -> (r: Result<
        FrameGenerationContext,
        StreamlineError,
    >)
        requires
            self.at() == SetupStep::Complete,
        ensures
            match r {
                Err(e) => {
                    &&& old(streamline).owned() != Some(self.interposer())
                    &&& final(streamline).owned() == old(streamline).owned()
                    &&& e is ContextAlreadyCreated
                },
                Ok(context) => {
                    &&& old(streamline).owned() == Some(self.interposer())
                    &&& final(streamline).owned() is None
                    &&& context.interposer() == self.interposer()
                    &&& context.viewport_handle() == self.viewport_handle()
                    &&& context.chosen_options() == self.chosen_options()
                    &&& context.color() == format_or_inferred(self.chosen_options().color_format)
                    &&& context.enabled() == (self.chosen_options().mode
                        != FrameGenerationMode::Off)
                    &&& context.query_mode() == (if self.chosen_options().mode
                        == FrameGenerationMode::Off {
                        FrameGenerationMode::On
                    } else {
                        self.chosen_options().mode
                    })
                },
            },
    {
        proof {
            use_type_invariant(self);
        }
        match streamline.api {
            None => Err(StreamlineError::ContextAlreadyCreated),
            Some(interposer) => {
                if interposer != self.interposer {
                    return Err(StreamlineError::ContextAlreadyCreated);
                }
                streamline.api = None;
                let dlssg_enabled = self.options.mode != FrameGenerationMode::Off;
                let last_enabled_mode = if dlssg_enabled {
                    self.options.mode
                } else {
                    FrameGenerationMode::On
                };
                Ok(
                    FrameGenerationContext {
                        interposer,
                        viewport: self.viewport,
                        options: self.options,
                        color_format: or_inferred(self.options.color_format),
                        last_enabled_mode,
                        dlssg_enabled,
                    },
                )
            },
        }
    }
}

/// A frame generation context: it owns the interposer and shuts it down when it is dropped. Drive
/// one [`Frame`] per rendered frame.
#[derive(Debug, PartialEq, Eq)]
pub struct FrameGenerationContext {
    interposer: Interposer,
    viewport: ViewportHandle,
    options: FrameGenerationOptions,
    color_format: u32,
    last_enabled_mode: FrameGenerationMode,
    dlssg_enabled: bool,
}

impl FrameGenerationContext {
    #[verifier::type_invariant]
    spec fn is_valid(self) -> bool {
        self.last_enabled_mode != FrameGenerationMode::Off
    }

    /// The interposer that the context owns.
    pub closed spec fn interposer(self) -> Interposer {
        self.interposer
    }

    /// The viewport.
    pub closed spec fn viewport_handle(self) -> ViewportHandle {
        self.viewport
    }

    /// The options.
    pub closed spec fn chosen_options(self) -> FrameGenerationOptions {
        self.options
    }

    /// The DXGI format of color; zero for one to be inferred.
    pub closed spec fn color(self) -> u32 {
        self.color_format
    }

    /// Whether frames are generated.
    pub closed spec fn enabled(self) -> bool {
        self.dlssg_enabled
    }

    /// The last mode in which frames were generated, which the state is queried for.
    pub closed spec fn query_mode(self) -> FrameGenerationMode {
        self.last_enabled_mode
    }

    /// Starts the setup of a context: the device is registered, the feature functions are resolved,
    /// the adapter is asked for its support, Reflex is set to low latency, and the options are set.
    ///
    /// A handle yields one context.
    pub fn new(streamline: &Streamline, options: &FrameGenerationOptions) -> (r: Result<
        ContextSetup,
        StreamlineError,
    >)
        ensures
            match r {
                Ok(setup) => {
                    &&& streamline.owned() == Some(setup.interposer())
                    &&& setup.chosen_options() == *options
                    &&& setup.viewport_handle().is_viewport(0)
                    &&& setup.at() == SetupStep::SetDevice
                },
                Err(e) => streamline.owned() is None && e is ContextAlreadyCreated,
            },
    {
        match streamline.api {
            None => Err(StreamlineError::ContextAlreadyCreated),
            Some(interposer) => Ok(
                ContextSetup {
                    interposer,
                    options: *options,
                    viewport: ViewportHandle::new(0),
                    step: SetupStep::SetDevice,
                },
            ),
        }
    }

    /// Switches the mode: the returned call sets the options again. Its reply goes to
    /// [`FrameGenerationContext::mode_set`].
    pub fn set_mode(&mut self, mode: FrameGenerationMode) -> (r: SlRequest)
        ensures
            applies(
                r,
                old(self).viewport_handle(),
                (FrameGenerationOptions { mode, ..old(self).chosen_options() }),
                old(self).color(),
            ),
            r matches SlRequest::DlssgSetOptions { viewport, options: sl } && {
                &&& viewport == old(self).viewport_handle()
                &&& sl.mode == DLSSGMode::Off <==> mode == FrameGenerationMode::Off
                &&& sl.mode == DLSSGMode::On <==> mode == FrameGenerationMode::On
                &&& sl.mode == DLSSGMode::Auto <==> mode == FrameGenerationMode::Auto
            },
            final(self).chosen_options() == (FrameGenerationOptions {
                mode,
                ..old(self).chosen_options()
            }),
            final(self).interposer() == old(self).interposer(),
            final(self).viewport_handle() == old(self).viewport_handle(),
            final(self).color() == old(self).color(),
            final(self).enabled() == old(self).enabled(),
            final(self).query_mode() == old(self).query_mode(),
    {
        proof {
            use_type_invariant(&*self);
        }
        let mut options = self.options;
        options.mode = mode;
        self.options = options;
        apply_dlssg_options(self.viewport, &self.options, self.color_format)
    }

    /// What comes of a switched mode. Whether frames are generated follows the mode only where the
    /// call succeeded.
    pub fn mode_set(&mut self, reply: SlReply) -> (r: Result<(), StreamlineError>)
        ensures
            final(self).chosen_options() == old(self).chosen_options(),
            final(self).interposer() == old(self).interposer(),
            final(self).viewport_handle() == old(self).viewport_handle(),
            final(self).color() == old(self).color(),
            r is Ok <==> reply.result == Some(SlResult::Success),
            r is Ok ==> {
                let mode = old(self).chosen_options().mode;
                &&& final(self).enabled() == (mode != FrameGenerationMode::Off)
                &&& final(self).query_mode() == (if mode == FrameGenerationMode::Off {
                    old(self).query_mode()
                } else {
                    mode
                })
            },
            r matches Err(e) ==> {
                &&& final(self).enabled() == old(self).enabled()
                &&& final(self).query_mode() == old(self).query_mode()
                &&& feature_call_error(K_FEATURE_DLSS_G, "slDLSSGSetOptions"@, reply.result)
                    == Some(e@)
            },
    {
        proof {
            use_type_invariant(&*self);
        }
        match dlssg_options_applied(reply) {
            Err(e) => Err(e),
            Ok(()) => {
                self.dlssg_enabled = self.options.mode != FrameGenerationMode::Off;
                if self.dlssg_enabled {
                    self.last_enabled_mode = self.options.mode;
                }
                Ok(())
            },
        }
    }

    /// Whether frames are generated (the mode that was last set is not off).
    pub fn is_enabled(&self) -> (r: bool)
        ensures
            r == self.enabled(),
    {
        self.dlssg_enabled
    }

    /// Begins a frame: the returned call gets its token. The reply goes to
    /// [`FrameGenerationContext::frame_begun`].
    pub fn begin_frame(&self, frame_index: u32) -> (r: SlRequest)
        ensures
            r == SlRequest::GetNewFrameToken(frame_index),
    {
        SlRequest::GetNewFrameToken(frame_index)
    }

    /// The frame, and the calls that open it.
    pub fn frame_begun(&self, frame_index: u32, reply: SlReply) -> (r: Result<
        (Frame, Vec<SlRequest>),
        StreamlineError,
    >)
        ensures
            r is Ok <==> reply.result == Some(SlResult::Success) && reply.address != 0,
            r matches Ok((frame, requests)) ==> {
                &&& frame.viewport == self.viewport_handle()
                &&& frame.token.address == reply.address
                &&& frame.index == frame_index
                &&& frame.progress == crate::streamline::frame::Progress::begun()
                &&& requests@ == seq![
                    SlRequest::ReflexSleep(frame.token),
                    crate::streamline::frame::marker_request(
                        crate::streamline::types::PCLMarker::SimulationStart,
                        frame.token,
                    ),
                    crate::streamline::frame::marker_request(
                        crate::streamline::types::PCLMarker::SimulationEnd,
                        frame.token,
                    ),
                ]
            },
            r matches Err(e) ==> e@ == crate::streamline::frame::token_error(reply),
    {
        begin_frame_with(self.viewport, frame_index, reply)
    }

    /// The call that queries the state. It is made for the last mode in which frames were generated,
    /// so that a temporary switch to off does not mask the status. The reply goes to
    /// [`query_state_with`].
    pub fn query_state(&self) -> (r: SlRequest)
        ensures
            queries(
                r,
                self.viewport_handle(),
                self.query_mode().sl_mode(),
                self.chosen_options().num_frames_to_generate,
            ),
            r matches SlRequest::DlssgGetState { options, .. } && options.mode != DLSSGMode::Off,
    {
        proof {
            use_type_invariant(self);
        }
        query_state_request(
            self.viewport,
            self.last_enabled_mode.to_sl(),
            self.options.num_frames_to_generate,
        )
    }

    /// Whether these are the calls that end the context: frame generation is switched off, the GPU
    /// becomes idle, and Streamline is shut down.
    pub open spec fn is_teardown(self, requests: Seq<SlRequest>) -> bool {
        &&& requests.len() == 3
        &&& requests[0] matches SlRequest::DlssgSetOptions { viewport, options }
            && viewport == self.viewport_handle() && options.asks_for(
            DLSSGMode::Off,
            1,
            BufferFormats::unset(),
        )
        &&& requests[1] == SlRequest::WaitForGpu
        &&& requests[2] == SlRequest::Shutdown
    }

    /// The calls to make when the context is dropped. Failures are logged and not passed on.
    pub fn teardown(&self) -> (r: Vec<SlRequest>)
        ensures
            self.is_teardown(r@),
    {
        let mut requests: Vec<SlRequest> = Vec::new();
        requests.push(
            SlRequest::DlssgSetOptions { viewport: self.viewport, options: DLSSGOptions::new() },
        );
        requests.push(SlRequest::WaitForGpu);
        requests.push(SlRequest::Shutdown);
        requests
    }
}

/// How many of the calls shut Streamline down.
pub open spec fn shutdowns(requests: Seq<SlRequest>) -> nat
    decreases requests.len(),
{
    if requests.len() == 0 {
        0
    } else {
        shutdowns(requests.drop_last()) + (if requests.last() == SlRequest::Shutdown {
            1nat
        } else {
            0
        })
    }
}

/// Streamline is shut down once: by the handle as long as it owns the interposer, and by the context
/// after that.
pub proof fn streamline_is_shut_down_once(
    streamline: Streamline,
    context: FrameGenerationContext,
    context_calls: Seq<SlRequest>,
)
    requires
        context.is_teardown(context_calls),
    ensures
        streamline.owned() is Some ==> shutdowns(streamline.teardown_requests()) == 1,
        streamline.owned() is None ==> shutdowns(streamline.teardown_requests()) == 0,
        shutdowns(context_calls) == 1,
{
    reveal_with_fuel(shutdowns, 4);
    assert(seq![SlRequest::Shutdown].drop_last() =~= seq![]);
}

/// The step that a setup has reached after `replies`.
pub open spec fn setup_after(replies: Seq<SlReply>) -> SetupStep
    decreases replies.len(),
{
    if replies.len() == 0 {
        SetupStep::SetDevice
    } else {
        let before = setup_after(replies.drop_last());
        if before.error(replies.last()) is Some {
            SetupStep::Failed
        } else {
            before.following()
        }
    }
}

/// The step of a setup whose first `n` calls have succeeded.
pub open spec fn setup_step(n: int) -> SetupStep {
    if n <= 0 {
        SetupStep::SetDevice
    } else if n <= 5 {
        SetupStep::ResolveFunction((n - 1) as u64)
    } else if n == 6 {
        SetupStep::CheckSupport
    } else if n == 7 {
        SetupStep::SetReflexMode
    } else if n == 8 {
        SetupStep::SetOptions
    } else {
        SetupStep::Complete
    }
}

/// A setup makes its calls in order: the device, the five feature functions, the support, Reflex,
/// the options. It is complete exactly when each of the nine calls has succeeded.
pub proof fn setup_succeeds_only_as_a_whole(replies: Seq<SlReply>)
    requires
        replies.len() <= 9,
    ensures
        setup_after(replies) == SetupStep::Failed || setup_after(replies) == setup_step(
            replies.len() as int,
        ),
        setup_after(replies) != SetupStep::Failed <==> forall|i: int|
            0 <= i < replies.len() ==> setup_step(i).error(#[trigger] replies[i]) is None,
        setup_after(replies) == SetupStep::Complete ==> replies.len() == 9,
    decreases replies.len(),
{
    if replies.len() > 0 {
        let before = replies.drop_last();
        let n = before.len() as int;
        setup_succeeds_only_as_a_whole(before);
        if setup_after(before) != SetupStep::Failed {
            assert forall|i: int| 0 <= i < n implies setup_step(i).error(#[trigger] replies[i])
                is None by {
                assert(setup_step(i).error(before[i]) is None);
            }
        } else {
            let i = choose|i: int|
                0 <= i < n && !(setup_step(i).error(#[trigger] before[i]) is None);
            assert(!(setup_step(i).error(replies[i]) is None));
        }
    }
}

} // verus!

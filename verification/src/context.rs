//! Super Resolution: what NGX is asked for when a context is created and when a frame is upscaled.

use crate::config::{DlssFeatureFlags, DlssPerfQualityMode, PerfQualityValue};
use crate::jitter::Jitter;
use crate::ngx_feature::{
    EvaluationEncoder, FeatureReply, NgxFeature, OptimalSettings, ReleaseStep, ResolutionRange,
    Resolutions, SettingsQuery,
};
use crate::nvsdk_ngx::{check_ngx_result, DlssError, NgxResult, NGX_RESULT_SUCCESS};
use crate::render_parameters::{
    DlssExposure, DlssRenderParameters, RawResource, TextureTransition,
};
use crate::vector::{FloatBits, UVec2, Vec2};
use vstd::prelude::*;

verus! {

/// The parameters of the Super Resolution creation call.
#[derive(Clone, Copy, Debug, PartialEq, Eq, Structural)]
pub struct DlssCreateParams {
    /// The render resolution.
    pub render: UVec2,
    /// The output resolution.
    pub target: UVec2,
    /// The quality tier.
    pub perf_quality: PerfQualityValue,
    /// The NGX create flags.
    pub feature_create_flags: i32,
    /// Whether DLSS may write to a subrect of the output.
    pub enable_output_subrects: bool,
}

/// The parameters of the Super Resolution evaluation. Whatever else the NGX structure holds is zero
/// or null: sharpness, the transparency mask, the subrect bases, the indicator axes, the G-buffer,
/// the tone mapper and the optional guide textures.
#[derive(Clone, Copy, Debug, PartialEq, Eq, Structural)]
pub struct DlssEvalParams {
    /// The color input.
    pub color: RawResource,
    /// The output.
    pub output: RawResource,
    /// The depth input.
    pub depth: RawResource,
    /// The motion vectors.
    pub motion_vectors: RawResource,
    /// The jitter of this frame.
    pub jitter_offset: Vec2,
    /// The part of the inputs to evaluate.
    pub render_subrect: UVec2,
    /// One to reset the temporal history, zero to keep it.
    pub reset: i32,
    /// The scale of the motion vectors.
    pub motion_vector_scale: Vec2,
    /// The exposure texture; null for automatic exposure.
    pub exposure_texture: RawResource,
    /// The bias mask; null where there is none.
    pub bias_mask: RawResource,
    /// The pre-exposure.
    pub pre_exposure: FloatBits,
    /// The exposure multiplier.
    pub exposure_scale: FloatBits,
}

/// The Super Resolution creation call.
#[derive(Clone, Copy, Debug, PartialEq, Eq, Structural)]
pub struct DlssCreateCall {
    /// The resolutions that the feature is created with.
    pub resolutions: Resolutions,
    /// The parameters.
    pub params: DlssCreateParams,
}

/// One upscaled frame: the transitions that come first and the evaluation that follows.
#[derive(Debug, PartialEq, Eq)]
pub struct DlssEvaluation<T> {
    /// The resource transitions, in order.
    pub transitions: Vec<TextureTransition<T>>,
    /// The parameters of the evaluation.
    pub eval: DlssEvalParams,
}

/// A Super Resolution context that is being created.
#[derive(Clone, Copy, Debug, PartialEq, Eq, Structural)]
pub struct DlssContextCreation {
    /// The output resolution.
    pub upscaled_resolution: UVec2,
    /// The quality mode.
    pub perf_quality_mode: DlssPerfQualityMode,
    /// The feature flags.
    pub feature_flags: DlssFeatureFlags,
}

impl DlssContextCreation {
    /// The tier that NGX is asked for throughout.
    pub open spec fn tier(self) -> PerfQualityValue {
        self.perf_quality_mode.tier(self.upscaled_resolution)
    }

    /// The creation parameters for given resolutions.
    pub open spec fn create_params(self, resolutions: Resolutions) -> DlssCreateParams {
        DlssCreateParams {
            render: resolutions.optimal,
            target: resolutions.upscaled,
            perf_quality: self.tier(),
            feature_create_flags: self.feature_flags.ngx_flags(),
            enable_output_subrects: self.feature_flags.has(
                (DlssFeatureFlags { bits: crate::config::OUTPUT_SUBRECT_BIT }),
            ),
        }
    }

    /// The first question: which render resolutions suit this output.
    pub fn settings_query(&self) -> (r: SettingsQuery)
        ensures
            r.upscaled == self.upscaled_resolution,
            r.perf_quality == self.tier(),
    {
        SettingsQuery {
            upscaled: self.upscaled_resolution,
            perf_quality: self.perf_quality_mode.as_perf_quality_value(self.upscaled_resolution),
        }
    }

    /// The second question, once the first is answered: create the feature, with these parameters.
    pub fn create_call(&self, settings: OptimalSettings) -> (r: Result<
        DlssCreateCall,
        DlssError,
    >)
        ensures
            r == (if settings.result == NGX_RESULT_SUCCESS {
                let resolutions = Resolutions::settled(
                    self.upscaled_resolution,
                    self.perf_quality_mode,
                    settings,
                );
                Ok((DlssCreateCall { resolutions, params: self.create_params(resolutions) }))
            } else {
                Err(crate::nvsdk_ngx::error_of(settings.result))
            }),
    {
        match Resolutions::settle(self.upscaled_resolution, self.perf_quality_mode, settings) {
            Err(e) => Err(e),
            Ok(resolutions) => Ok(
                DlssCreateCall {
                    resolutions,
                    params: DlssCreateParams {
                        render: resolutions.optimal,
                        target: resolutions.upscaled,
                        perf_quality: self.perf_quality_mode.as_perf_quality_value(
                            self.upscaled_resolution,
                        ),
                        feature_create_flags: self.feature_flags.as_flags(),
                        enable_output_subrects: self.feature_flags.contains(
                            DlssFeatureFlags::output_subrect(),
                        ),
                    },
                },
            ),
        }
    }
}

/// A per-camera DLSS Super Resolution feature.
///
/// Creating a context is expensive; cache it and only recreate it when settings (output resolution,
/// quality mode, or feature flags) change.
#[derive(Clone, Copy, Debug, PartialEq, Eq, Structural)]
pub struct DlssContext {
    /// The NGX feature.
    pub feature: NgxFeature,
}

impl DlssContext {
    /// Starts the creation of a context for a camera outputting at `upscaled_resolution`.
    pub fn new(
        upscaled_resolution: UVec2,
        perf_quality_mode: DlssPerfQualityMode,
        feature_flags: DlssFeatureFlags,
    ) -> (r: DlssContextCreation)
        ensures
            r == (DlssContextCreation { upscaled_resolution, perf_quality_mode, feature_flags }),
    {
        DlssContextCreation { upscaled_resolution, perf_quality_mode, feature_flags }
    }

    /// Finishes the creation with NGX's reply to the creation call; `None` where the encoder is not a
    /// D3D12 one. On `Ok` the creation encoder is submitted. The context has the resolutions that NGX
    /// was created with.
    pub fn created(call: &DlssCreateCall, created: Option<FeatureReply>) -> (r: Result<
        DlssContext,
        DlssError,
    >)
        ensures
            r is Ok <==> (created matches Some(reply) && reply.result == NGX_RESULT_SUCCESS),
            r matches Ok(context) ==> context.feature == (NgxFeature {
                resolutions: call.resolutions,
                feature: created->0.handle,
            }),
            created is None ==> r == Err::<DlssContext, DlssError>(DlssError::FeatureNotSupported),
            created matches Some(reply) ==> (r matches Err(e) ==> e == crate::nvsdk_ngx::error_of(
                reply.result,
            )),
    {
        match NgxFeature::create(call.resolutions, created) {
            Ok(feature) => Ok(DlssContext { feature }),
            Err(e) => Err(e),
        }
    }

    /// The part of the inputs to evaluate: what the parameters ask for, or all that the context can
    /// render.
    pub open spec fn subrect(self, partial_texture_size: Option<UVec2>) -> UVec2 {
        match partial_texture_size {
            Some(size) => size,
            None => self.feature.resolutions.max,
        }
    }

    /// The evaluation parameters for given render parameters.
    pub open spec fn eval_params<T: Copy>(
        self,
        parameters: DlssRenderParameters<T>,
    ) -> DlssEvalParams {
        DlssEvalParams {
            color: parameters.color.address(),
            output: parameters.dlss_output.address(),
            depth: parameters.depth.address(),
            motion_vectors: parameters.motion_vectors.address(),
            jitter_offset: parameters.jitter_offset,
            render_subrect: self.subrect(parameters.partial_texture_size),
            reset: if parameters.reset {
                1
            } else {
                0
            },
            motion_vector_scale: match parameters.motion_vector_scale {
                Some(scale) => scale,
                None => Vec2::one_value(),
            },
            exposure_texture: match parameters.exposure {
                DlssExposure::Manual { exposure, .. } => exposure.address(),
                DlssExposure::Automatic => 0,
            },
            bias_mask: match parameters.bias {
                Some(bias) => bias.address(),
                None => 0,
            },
            pre_exposure: match parameters.exposure {
                DlssExposure::Manual { pre_exposure: Some(value), .. } => value,
                _ => FloatBits::zero_value(),
            },
            exposure_scale: match parameters.exposure {
                DlssExposure::Manual { exposure_scale: Some(value), .. } => value,
                DlssExposure::Manual { exposure_scale: None, .. } => FloatBits::one_value(),
                DlssExposure::Automatic => FloatBits::zero_value(),
            },
        }
    }

    /// What upscaling a frame takes: the transitions, and then the NGX evaluation. NGX's reply to
    /// the evaluation goes to [`DlssContext::evaluated`].
    ///
    /// Submit any scene rendering that produces the inputs before this, so that the state tracker
    /// reflects their current states and the GPU executes the scene first.
    pub fn render<T: Copy>(&self, render_parameters: DlssRenderParameters<T>) -> (r: Result<
        DlssEvaluation<T>,
        DlssError,
    >)
        ensures
            r is Ok <==> render_parameters.is_complete(),
            r matches Ok(evaluation) ==> evaluation.transitions@ == render_parameters.transitions()
                && evaluation.eval == self.eval_params(render_parameters),
            r matches Ok(evaluation) ==> {
                let p = render_parameters;
                let eval = evaluation.eval;
                &&& p.color.resource == Some(eval.color)
                &&& p.dlss_output.resource == Some(eval.output)
                &&& p.depth.resource == Some(eval.depth)
                &&& p.motion_vectors.resource == Some(eval.motion_vectors)
                &&& eval.jitter_offset.x == p.jitter_offset.x
                &&& eval.jitter_offset.y == p.jitter_offset.y
                &&& eval.reset == 1 <==> p.reset
                &&& eval.reset == 0 <==> !p.reset
                &&& p.partial_texture_size matches Some(size) ==> eval.render_subrect == size
                &&& p.partial_texture_size is None ==> eval.render_subrect
                    == self.feature.resolutions.max
                &&& p.motion_vector_scale matches Some(scale) ==> eval.motion_vector_scale == scale
                &&& p.motion_vector_scale is None ==> eval.motion_vector_scale.x.bits
                    == 0x3f80_0000 && eval.motion_vector_scale.y.bits == 0x3f80_0000
                &&& p.exposure matches DlssExposure::Manual {
                    exposure,
                    exposure_scale,
                    pre_exposure,
                } ==> {
                    &&& exposure.resource matches Some(address) ==> eval.exposure_texture == address
                    &&& exposure.resource is None ==> eval.exposure_texture == 0
                    &&& exposure_scale matches Some(value) ==> eval.exposure_scale == value
                    &&& exposure_scale is None ==> eval.exposure_scale.bits == 0x3f80_0000
                    &&& pre_exposure matches Some(value) ==> eval.pre_exposure == value
                    &&& pre_exposure is None ==> eval.pre_exposure.bits == 0
                }
                &&& p.exposure is Automatic ==> eval.exposure_texture == 0
                    && eval.exposure_scale.bits == 0 && eval.pre_exposure.bits == 0
                &&& p.bias matches Some(bias) ==> {
                    &&& bias.resource matches Some(address) ==> eval.bias_mask == address
                    &&& bias.resource is None ==> eval.bias_mask == 0
                }
                &&& p.bias is None ==> eval.bias_mask == 0
            },
            r matches Err(e) ==> e == DlssError::MissingInput,
    {
        if let Err(e) = render_parameters.validate() {
            return Err(e);
        }
        let render_subrect = match render_parameters.partial_texture_size {
            Some(size) => size,
            None => self.feature.max_render_resolution(),
        };
        let (exposure_texture, exposure_scale, pre_exposure) = match render_parameters.exposure {
            DlssExposure::Manual { exposure, exposure_scale, pre_exposure } => (
                exposure.raw(),
                match exposure_scale {
                    Some(value) => value,
                    None => FloatBits::one(),
                },
                match pre_exposure {
                    Some(value) => value,
                    None => FloatBits::zero(),
                },
            ),
            DlssExposure::Automatic => (0, FloatBits::zero(), FloatBits::zero()),
        };
        let motion_vector_scale = match render_parameters.motion_vector_scale {
            Some(scale) => scale,
            None => Vec2::one(),
        };
        let bias_mask = match render_parameters.bias {
            Some(bias) => bias.raw(),
            None => 0,
        };
        let eval = DlssEvalParams {
            color: render_parameters.color.raw(),
            output: render_parameters.dlss_output.raw(),
            depth: render_parameters.depth.raw(),
            motion_vectors: render_parameters.motion_vectors.raw(),
            jitter_offset: render_parameters.jitter_offset,
            render_subrect,
            reset: if render_parameters.reset {
                1
            } else {
                0
            },
            motion_vector_scale,
            exposure_texture,
            bias_mask,
            pre_exposure,
            exposure_scale,
        };
        Ok(DlssEvaluation { transitions: render_parameters.barrier_list(), eval })
    }

    /// Takes NGX's reply to the evaluation; `None` where the encoder is not a D3D12 one. On `Ok` the
    /// encoders are submitted in the returned order, transitions first.
    pub fn evaluated(&self, evaluated: Option<NgxResult>) -> (r: Result<
        Vec<EvaluationEncoder>,
        DlssError,
    >)
        ensures
            match crate::ngx_feature::command_list_outcome(evaluated) {
                Ok(()) => r matches Ok(order) && order@ == seq![
                    EvaluationEncoder::Transitions,
                    EvaluationEncoder::Evaluate,
                ],
                Err(e) => r == Err::<Vec<EvaluationEncoder>, DlssError>(e),
            },
    {
        self.feature.evaluate(evaluated)
    }

    /// Suggested subpixel camera jitter (Halton sequence) for a given frame.
    pub fn suggested_jitter(&self, frame_number: u32, render_resolution: UVec2) -> (r: Jitter)
        ensures
            r.is_suggested(frame_number, self.feature.resolutions.upscaled.x, render_resolution.x),
    {
        self.feature.suggested_jitter(frame_number, render_resolution)
    }

    /// The upscaled (output) resolution DLSS will produce.
    pub fn upscaled_resolution(&self) -> (r: UVec2)
        ensures
            r == self.feature.resolutions.upscaled,
    {
        self.feature.upscaled_resolution()
    }

    /// The recommended (optimal) render resolution for the chosen quality mode, before upscaling.
    /// This is the resolution NGX was created with, so the caller must render here to avoid a
    /// per-frame feature recreate or a poor reconstruction.
    pub fn render_resolution(&self) -> (r: UVec2)
        ensures
            r == self.feature.resolutions.optimal,
    {
        self.feature.render_resolution()
    }

    /// Render-resolution range for dynamic resolution scaling.
    pub fn render_resolution_range(&self) -> (r: ResolutionRange)
        ensures
            r.min == self.feature.resolutions.min,
            r.max == self.feature.resolutions.max,
    {
        self.feature.render_resolution_range()
    }

    /// How the context is released: never while the GPU may still use it.
    pub fn release(&self) -> (r: Vec<ReleaseStep>)
        ensures
            r@ == seq![ReleaseStep::WaitForGpu, ReleaseStep::ReleaseFeature(self.feature.feature)],
    {
        self.feature.release()
    }

    /// What to log after the context was released: nothing, or why it failed. A failure to release is
    /// not passed on.
    pub fn released(result: NgxResult) -> (r: Option<String>)
        ensures
            match r {
                None => result == NGX_RESULT_SUCCESS,
                Some(text) => result != NGX_RESULT_SUCCESS && text@
                    == CONTEXT_RELEASE_FAILURE_PREFIX@ + crate::nvsdk_ngx::error_of(
                    result,
                ).spec_message(),
            },
    {
        match check_ngx_result(result) {
            Ok(()) => None,
            Err(e) => Some(CONTEXT_RELEASE_FAILURE_PREFIX.to_string().concat(e.message().as_str())),
        }
    }
}

/// What the log line of a failed release of a context starts with; the error follows.
pub const CONTEXT_RELEASE_FAILURE_PREFIX: &'static str = "Failed to release DlssContext feature: ";

/// NGX is never handed a null resource where it requires one.
pub proof fn required_resources_are_never_null<T: Copy>(
    context: DlssContext,
    parameters: DlssRenderParameters<T>,
)
    requires
        parameters.is_complete(),
    ensures
        ({
            let eval = context.eval_params(parameters);
            eval.color != 0 && eval.depth != 0 && eval.motion_vectors != 0 && eval.output != 0
        }),
{
}

/// NGX is created at the resolution that the context then tells its caller to render at, and for the
/// output resolution that the caller asked for.
pub proof fn ngx_is_created_at_the_render_resolution(
    creation: DlssContextCreation,
    settings: OptimalSettings,
)
    ensures
        ({
            let resolutions = Resolutions::settled(
                creation.upscaled_resolution,
                creation.perf_quality_mode,
                settings,
            );
            let params = creation.create_params(resolutions);
            params.render == resolutions.optimal && params.target == creation.upscaled_resolution
        }),
{
}

} // verus!

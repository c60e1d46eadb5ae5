//! Ray Reconstruction: denoises and upscales path-traced input in one pass.
//!
//! It is mutually exclusive with Super Resolution: create either a Super Resolution context or a
//! Ray Reconstruction context for a given upscale pass, never both.

use crate::config::{
    DepthType, DlssFeatureFlags, DlssPerfQualityMode, PerfQualityValue, RoughnessMode,
};
use crate::jitter::Jitter;
use crate::ngx_feature::{
    EvaluationEncoder, FeatureReply, NgxFeature, OptimalSettings, ReleaseStep, ResolutionRange,
    Resolutions, SettingsQuery,
};
use crate::nvsdk_ngx::{DlssError, NgxResult, NGX_RESULT_SUCCESS};
use crate::render_parameters::{DlssTexture, RawResource, TextureTransition, TextureUses};
use crate::vector::{UVec2, Vec2};
use vstd::prelude::*;

verus! {

/// Inputs and output for a Ray Reconstruction evaluation. All guide buffers are at render
/// resolution; `output` is at the upscaled resolution and must be UAV-capable.
#[derive(Clone, Copy, Debug, PartialEq, Eq)]
pub struct DlssRayReconstructionParameters<T> {
    /// Noisy ray-traced color input.
    pub color: DlssTexture<T>,
    /// 3-channel linear diffuse albedo.
    pub diffuse_albedo: DlssTexture<T>,
    /// Specular albedo.
    pub specular_albedo: DlssTexture<T>,
    /// Normalized shading normals (with roughness packed into `.w` if [`RoughnessMode::Packed`]).
    pub normals: DlssTexture<T>,
    /// Linear roughness (ignored when using [`RoughnessMode::Packed`]).
    pub roughness: DlssTexture<T>,
    /// Depth buffer (linear or hardware, per the context's [`DepthType`]).
    pub depth: DlssTexture<T>,
    /// Screen-space motion vectors.
    pub motion_vectors: DlssTexture<T>,
    /// Denoised, upscaled destination.
    pub output: DlssTexture<T>,
    /// Reset temporal history (for example on camera cuts).
    pub reset: bool,
    /// Subpixel jitter applied to the camera this frame.
    pub jitter_offset: Vec2,
    /// Optionally evaluate only a subrect of the inputs.
    pub partial_texture_size: Option<UVec2>,
    /// Optional scale applied to motion-vector values.
    pub motion_vector_scale: Option<Vec2>,
}

fn input<T: Copy>(texture: &DlssTexture<T>) -> (r: TextureTransition<T>)
    ensures
        r == (TextureTransition { texture: texture.texture, state: TextureUses::Resource }),
{
    TextureTransition { texture: texture.texture, state: TextureUses::Resource }
}

impl<T: Copy> DlssRayReconstructionParameters<T> {
    /// Whether every resource that NGX requires is there. Roughness is not among them: packed, it
    /// rides in the normals and NGX ignores the separate texture.
    pub open spec fn is_complete(self) -> bool {
        &&& self.color.is_bound()
        &&& self.diffuse_albedo.is_bound()
        &&& self.specular_albedo.is_bound()
        &&& self.normals.is_bound()
        &&& self.depth.is_bound()
        &&& self.motion_vectors.is_bound()
        &&& self.output.is_bound()
    }

    /// The transitions of this evaluation: the seven inputs readable, then the output writable.
    pub open spec fn transitions(self) -> Seq<TextureTransition<T>> {
        seq![
            self.color.texture,
            self.diffuse_albedo.texture,
            self.specular_albedo.texture,
            self.normals.texture,
            self.roughness.texture,
            self.depth.texture,
            self.motion_vectors.texture,
        ].map_values(|texture: T| TextureTransition { texture, state: TextureUses::Resource }).push(
            TextureTransition { texture: self.output.texture, state: TextureUses::StorageReadWrite },
        )
    }

    /// Rejects parameters in which a required resource is null, before NGX sees them.
    pub fn validate(&self) -> (r: Result<(), DlssError>)
        ensures
            r == (if self.is_complete() {
                Ok(())
            } else {
                Err::<(), DlssError>(DlssError::MissingInput)
            }),
    {
        if self.color.raw() == 0 || self.diffuse_albedo.raw() == 0 || self.specular_albedo.raw()
            == 0 || self.normals.raw() == 0 || self.depth.raw() == 0 || self.motion_vectors.raw()
            == 0 || self.output.raw() == 0 {
            return Err(DlssError::MissingInput);
        }
        Ok(())
    }

    /// The transitions to apply before evaluating.
    pub fn barrier_list(&self) -> (r: Vec<TextureTransition<T>>)
        ensures
            r@ == self.transitions(),
    {
        let list = vec![
            input(&self.color),
            input(&self.diffuse_albedo),
            input(&self.specular_albedo),
            input(&self.normals),
            input(&self.roughness),
            input(&self.depth),
            input(&self.motion_vectors),
            TextureTransition { texture: self.output.texture, state: TextureUses::StorageReadWrite },
        ];
        assert(list@ =~= self.transitions());
        list
    }
}

/// The quality modes that a render preset is hinted for.
#[derive(Clone, Copy, Debug, PartialEq, Eq, Structural)]
pub enum PresetHint {
    /// Anti-aliasing only.
    Dlaa,
    /// Quality.
    Quality,
    /// Balanced.
    Balanced,
    /// Performance.
    Performance,
    /// Ultra performance.
    UltraPerformance,
    /// Ultra quality.
    UltraQuality,
}

/// The render presets of Ray Reconstruction.
#[derive(Clone, Copy, Debug, PartialEq, Eq, Structural)]
pub enum RenderPreset {
    /// The transformer model of DLSS 4.
    D,
}

/// The parameters of the Ray Reconstruction creation call. Denoising is always the unified deep
/// learning one.
#[derive(Clone, Copy, Debug, PartialEq, Eq, Structural)]
pub struct RayReconstructionCreateParams {
    /// How roughness is supplied.
    pub roughness_mode: RoughnessMode,
    /// How depth is supplied.
    pub depth_type: DepthType,
    /// The render resolution.
    pub render: UVec2,
    /// The output resolution.
    pub target: UVec2,
    /// The quality tier.
    pub perf_quality: PerfQualityValue,
    /// The NGX create flags.
    pub feature_create_flags: i32,
    /// Whether DLSS may write to a subrect of the output.
    pub enable_output_subrects: bool,
}

/// The parameters of the Ray Reconstruction evaluation. Whatever else the NGX structure holds is
/// zero or null.
#[derive(Clone, Copy, Debug, PartialEq, Eq, Structural)]
pub struct RayReconstructionEvalParams {
    /// The color input.
    pub color: RawResource,
    /// The output.
    pub output: RawResource,
    /// The depth input.
    pub depth: RawResource,
    /// The motion vectors.
    pub motion_vectors: RawResource,
    /// The diffuse albedo.
    pub diffuse_albedo: RawResource,
    /// The specular albedo.
    pub specular_albedo: RawResource,
    /// The normals.
    pub normals: RawResource,
    /// The roughness.
    pub roughness: RawResource,
    /// The jitter of this frame.
    pub jitter_offset: Vec2,
    /// The part of the inputs to evaluate.
    pub render_subrect: UVec2,
    /// One to reset the temporal history, zero to keep it.
    pub reset: i32,
    /// The scale of the motion vectors.
    pub motion_vector_scale: Vec2,
}

/// One reconstructed frame: the transitions that come first and the evaluation that follows.
#[derive(Debug, PartialEq, Eq)]
pub struct RayReconstructionEvaluation<T> {
    /// The resource transitions, in order.
    pub transitions: Vec<TextureTransition<T>>,
    /// The parameters of the evaluation.
    pub eval: RayReconstructionEvalParams,
}

/// A Ray Reconstruction context that is being created.
#[derive(Clone, Copy, Debug, PartialEq, Eq, Structural)]
pub struct RayReconstructionCreation {
    /// The output resolution.
    pub upscaled_resolution: UVec2,
    /// The quality mode.
    pub perf_quality_mode: DlssPerfQualityMode,
    /// How roughness is supplied.
    pub roughness_mode: RoughnessMode,
    /// How depth is supplied.
    pub depth_type: DepthType,
    /// The feature flags, with those that Ray Reconstruction mandates.
    pub feature_flags: DlssFeatureFlags,
}

/// What is asked of NGX to create the feature, in this order: the preset hints, then the feature.
#[derive(Debug, PartialEq, Eq)]
pub struct RayReconstructionCreateCall {
    /// The resolutions of the feature.
    pub resolutions: Resolutions,
    /// The render preset to hint for each quality mode.
    pub preset_hints: Vec<(PresetHint, RenderPreset)>,
    /// The creation parameters.
    pub params: RayReconstructionCreateParams,
}

/// Every quality mode is pinned to the same preset: without a hint NGX rejects the creation.
pub open spec fn pinned_presets() -> Seq<(PresetHint, RenderPreset)> {
    seq![
        PresetHint::Dlaa,
        PresetHint::Quality,
        PresetHint::Balanced,
        PresetHint::Performance,
        PresetHint::UltraPerformance,
        PresetHint::UltraQuality,
    ].map_values(|hint: PresetHint| (hint, RenderPreset::D))
}

/// No quality mode is left without a preset hint.
pub proof fn every_quality_mode_is_pinned(hint: PresetHint)
    ensures
        pinned_presets().contains((hint, RenderPreset::D)),
{
    let place: int = match hint {
        PresetHint::Dlaa => 0,
        PresetHint::Quality => 1,
        PresetHint::Balanced => 2,
        PresetHint::Performance => 3,
        PresetHint::UltraPerformance => 4,
        PresetHint::UltraQuality => 5,
    };
    assert(pinned_presets()[place] == (hint, RenderPreset::D));
}

/// The caller's flags with HDR color and low-resolution motion vectors, which Ray Reconstruction
/// mandates.
pub open spec fn mandated_flags(flags: DlssFeatureFlags) -> DlssFeatureFlags {
    DlssFeatureFlags {
        bits: flags.bits | crate::config::HIGH_DYNAMIC_RANGE_BIT
            | crate::config::LOW_RESOLUTION_MOTION_VECTORS_BIT,
    }
}

/// NGX is always asked for HDR color and low-resolution motion vectors, whatever the caller passes,
/// and every flag of the caller's is kept.
pub proof fn mandated_flags_reach_ngx(flags: DlssFeatureFlags)
    ensures
        mandated_flags(flags).ngx_flags() & crate::config::HIGH_DYNAMIC_RANGE_BIT
            == crate::config::HIGH_DYNAMIC_RANGE_BIT,
        mandated_flags(flags).ngx_flags() & crate::config::LOW_RESOLUTION_MOTION_VECTORS_BIT
            == crate::config::LOW_RESOLUTION_MOTION_VECTORS_BIT,
        mandated_flags(flags).has(flags),
{
    let b = flags.bits;
    assert(((b | 1i32 | 2i32) & !256i32) & 1i32 == 1i32) by (bit_vector);
    assert(((b | 1i32 | 2i32) & !256i32) & 2i32 == 2i32) by (bit_vector);
    assert((b | 1i32 | 2i32) & b == b) by (bit_vector);
}

impl RayReconstructionCreation {
    /// The tier that NGX is asked for throughout.
    pub open spec fn tier(self) -> PerfQualityValue {
        self.perf_quality_mode.tier(self.upscaled_resolution)
    }

    /// The creation parameters for given resolutions.
    pub open spec fn create_params(
        self,
        resolutions: Resolutions,
    ) -> RayReconstructionCreateParams {
        RayReconstructionCreateParams {
            roughness_mode: self.roughness_mode,
            depth_type: self.depth_type,
            render: resolutions.optimal,
            target: resolutions.upscaled,
            perf_quality: self.tier(),
            feature_create_flags: self.feature_flags.ngx_flags(),
            enable_output_subrects: self.feature_flags.has(
                (DlssFeatureFlags { bits: crate::config::OUTPUT_SUBRECT_BIT }),
            ),
        }
    }

    /// The first question: which render resolutions suit this output. Ray Reconstruction has a
    /// settings call of its own, which also primes what its creation reads.
    pub fn settings_query(&self) -> (r: SettingsQuery)
        ensures
            r.upscaled == self.upscaled_resolution,
            r.perf_quality == self.tier(),
    {
        SettingsQuery {
            upscaled: self.upscaled_resolution,
            perf_quality: self.perf_quality_mode.as_perf_quality_value(self.upscaled_resolution),
        }
    }

    /// The second question, once the first is answered: pin the presets and create the feature.
    pub fn create_call(&self, settings: OptimalSettings) -> (r: Result<
        RayReconstructionCreateCall,
        DlssError,
    >)
        ensures
            r is Ok <==> settings.result == NGX_RESULT_SUCCESS,
            r matches Ok(call) ==> {
                &&& call.resolutions == Resolutions::settled(
                    self.upscaled_resolution,
                    self.perf_quality_mode,
                    settings,
                )
                &&& call.preset_hints@ == pinned_presets()
                &&& call.params == self.create_params(call.resolutions)
                &&& call.params.depth_type == self.depth_type
                &&& call.params.roughness_mode == self.roughness_mode
                &&& call.params.target == self.upscaled_resolution
                &&& call.params.render == call.resolutions.optimal
            },
            r matches Err(e) ==> e == crate::nvsdk_ngx::error_of(settings.result),
    {
        match Resolutions::settle(self.upscaled_resolution, self.perf_quality_mode, settings) {
            Err(e) => Err(e),
            Ok(resolutions) => {
                let preset_hints = vec![
                    (PresetHint::Dlaa, RenderPreset::D),
                    (PresetHint::Quality, RenderPreset::D),
                    (PresetHint::Balanced, RenderPreset::D),
                    (PresetHint::Performance, RenderPreset::D),
                    (PresetHint::UltraPerformance, RenderPreset::D),
                    (PresetHint::UltraQuality, RenderPreset::D),
                ];
                assert(preset_hints@ =~= pinned_presets());
                let params = RayReconstructionCreateParams {
                    roughness_mode: self.roughness_mode,
                    depth_type: self.depth_type,
                    render: resolutions.optimal,
                    target: resolutions.upscaled,
                    perf_quality: self.perf_quality_mode.as_perf_quality_value(
                        self.upscaled_resolution,
                    ),
                    feature_create_flags: self.feature_flags.as_flags(),
                    enable_output_subrects: self.feature_flags.contains(
                        DlssFeatureFlags::output_subrect(),
                    ),
                };
                Ok(RayReconstructionCreateCall { resolutions, preset_hints, params })
            },
        }
    }
}

/// A per-camera DLSS Ray Reconstruction feature. Cache and recreate only when settings change.
#[derive(Clone, Copy, Debug, PartialEq, Eq, Structural)]
pub struct DlssRayReconstructionContext {
    /// The NGX feature.
    pub feature: NgxFeature,
}

impl DlssRayReconstructionContext {
    /// Starts the creation of a Ray Reconstruction context.
    ///
    /// Ray Reconstruction mandates HDR color and low-resolution motion vectors; both flags are set
    /// here so that callers cannot omit them.
    pub fn new(
        upscaled_resolution: UVec2,
        perf_quality_mode: DlssPerfQualityMode,
        roughness_mode: RoughnessMode,
        depth_type: DepthType,
        feature_flags: DlssFeatureFlags,
    ) -> (r: RayReconstructionCreation)
        ensures
            r == (RayReconstructionCreation {
                upscaled_resolution,
                perf_quality_mode,
                roughness_mode,
                depth_type,
                feature_flags: mandated_flags(feature_flags),
            }),
    {
        RayReconstructionCreation {
            upscaled_resolution,
            perf_quality_mode,
            roughness_mode,
            depth_type,
            feature_flags: feature_flags.union(DlssFeatureFlags::high_dynamic_range()).union(
                DlssFeatureFlags::low_resolution_motion_vectors(),
            ),
        }
    }

    /// Finishes the creation with NGX's reply to the creation call; `None` where the encoder is not a
    /// D3D12 one. On `Ok` the creation encoder is submitted. The context has the resolutions that NGX
    /// was created with.
    pub fn created(call: &RayReconstructionCreateCall, created: Option<FeatureReply>) -> (r: Result<
        DlssRayReconstructionContext,
        DlssError,
    >)
        ensures
            r is Ok <==> (created matches Some(reply) && reply.result == NGX_RESULT_SUCCESS),
            r matches Ok(context) ==> context.feature == (NgxFeature {
                resolutions: call.resolutions,
                feature: created->0.handle,
            }),
            created is None ==> r == Err::<DlssRayReconstructionContext, DlssError>(
                DlssError::FeatureNotSupported,
            ),
            created matches Some(reply) ==> (r matches Err(e) ==> e == crate::nvsdk_ngx::error_of(
                reply.result,
            )),
    {
        match NgxFeature::create(call.resolutions, created) {
            Ok(feature) => Ok(DlssRayReconstructionContext { feature }),
            Err(e) => Err(e),
        }
    }

    /// The evaluation parameters for given parameters.
    pub open spec fn eval_params<T: Copy>(
        self,
        parameters: DlssRayReconstructionParameters<T>,
    ) -> RayReconstructionEvalParams {
        RayReconstructionEvalParams {
            color: parameters.color.address(),
            output: parameters.output.address(),
            depth: parameters.depth.address(),
            motion_vectors: parameters.motion_vectors.address(),
            diffuse_albedo: parameters.diffuse_albedo.address(),
            specular_albedo: parameters.specular_albedo.address(),
            normals: parameters.normals.address(),
            roughness: parameters.roughness.address(),
            jitter_offset: parameters.jitter_offset,
            render_subrect: match parameters.partial_texture_size {
                Some(size) => size,
                None => self.feature.resolutions.max,
            },
            reset: if parameters.reset {
                1
            } else {
                0
            },
            motion_vector_scale: match parameters.motion_vector_scale {
                Some(scale) => scale,
                None => Vec2::one_value(),
            },
        }
    }

    /// What reconstructing a frame takes: the transitions, and then the NGX evaluation. NGX's reply
    /// to the evaluation goes to [`DlssRayReconstructionContext::evaluated`].
    pub fn render<T: Copy>(&self, params: DlssRayReconstructionParameters<T>) -> (r: Result<
        RayReconstructionEvaluation<T>,
        DlssError,
    >)
        ensures
            r is Ok <==> params.is_complete(),
            r matches Ok(evaluation) ==> evaluation.transitions@ == params.transitions()
                && evaluation.eval == self.eval_params(params),
            r matches Ok(evaluation) ==> {
                let eval = evaluation.eval;
                &&& params.color.resource == Some(eval.color)
                &&& params.output.resource == Some(eval.output)
                &&& params.depth.resource == Some(eval.depth)
                &&& params.motion_vectors.resource == Some(eval.motion_vectors)
                &&& params.diffuse_albedo.resource == Some(eval.diffuse_albedo)
                &&& params.specular_albedo.resource == Some(eval.specular_albedo)
                &&& params.normals.resource == Some(eval.normals)
                &&& params.roughness.resource matches Some(address) ==> eval.roughness == address
                &&& params.roughness.resource is None ==> eval.roughness == 0
                &&& eval.jitter_offset.x == params.jitter_offset.x
                &&& eval.jitter_offset.y == params.jitter_offset.y
                &&& eval.reset == 1 <==> params.reset
                &&& eval.reset == 0 <==> !params.reset
                &&& params.partial_texture_size matches Some(size) ==> eval.render_subrect == size
                &&& params.partial_texture_size is None ==> eval.render_subrect
                    == self.feature.resolutions.max
                &&& params.motion_vector_scale matches Some(scale) ==> eval.motion_vector_scale
                    == scale
                &&& params.motion_vector_scale is None ==> eval.motion_vector_scale.x.bits
                    == 0x3f80_0000 && eval.motion_vector_scale.y.bits == 0x3f80_0000
            },
            r matches Err(e) ==> e == DlssError::MissingInput,
    {
        if let Err(e) = params.validate() {
            return Err(e);
        }
        let render_subrect = match params.partial_texture_size {
            Some(size) => size,
            None => self.feature.max_render_resolution(),
        };
        let motion_vector_scale = match params.motion_vector_scale {
            Some(scale) => scale,
            None => Vec2::one(),
        };
        let eval = RayReconstructionEvalParams {
            color: params.color.raw(),
            output: params.output.raw(),
            depth: params.depth.raw(),
            motion_vectors: params.motion_vectors.raw(),
            diffuse_albedo: params.diffuse_albedo.raw(),
            specular_albedo: params.specular_albedo.raw(),
            normals: params.normals.raw(),
            roughness: params.roughness.raw(),
            jitter_offset: params.jitter_offset,
            render_subrect,
            reset: if params.reset {
                1
            } else {
                0
            },
            motion_vector_scale,
        };
        Ok(RayReconstructionEvaluation { transitions: params.barrier_list(), eval })
    }

    /// Takes NGX's reply to the evaluation; `None` where the encoder is not a D3D12 one. On `Ok` the
    /// encoders are submitted in the returned order, transitions first.
    pub fn evaluated(&self, evaluated: Option<NgxResult>) -> (r: Result<
        Vec<EvaluationEncoder>,
        DlssError,
    >)
        ensures
            match crate::ngx_feature::command_list_outcome(evaluated) {
                Ok(()) => r matches Ok(order) && order@ == seq![
                    EvaluationEncoder::Transitions,
                    EvaluationEncoder::Evaluate,
                ],
                Err(e) => r == Err::<Vec<EvaluationEncoder>, DlssError>(e),
            },
    {
        self.feature.evaluate(evaluated)
    }

    /// Suggested subpixel camera jitter (Halton sequence) for a given frame.
    pub fn suggested_jitter(&self, frame_number: u32, render_resolution: UVec2) -> (r: Jitter)
        ensures
            r.is_suggested(frame_number, self.feature.resolutions.upscaled.x, render_resolution.x),
    {
        self.feature.suggested_jitter(frame_number, render_resolution)
    }

    /// The upscaled (output) resolution.
    pub fn upscaled_resolution(&self) -> (r: UVec2)
        ensures
            r == self.feature.resolutions.upscaled,
    {
        self.feature.upscaled_resolution()
    }

    /// The recommended (optimal) render resolution for the chosen quality mode, before upscaling.
    /// This is the resolution NGX was created with, so the caller must render here.
    pub fn render_resolution(&self) -> (r: UVec2)
        ensures
            r == self.feature.resolutions.optimal,
    {
        self.feature.render_resolution()
    }

    /// Render-resolution range for dynamic resolution scaling.
    pub fn render_resolution_range(&self) -> (r: ResolutionRange)
        ensures
            r.min == self.feature.resolutions.min,
            r.max == self.feature.resolutions.max,
    {
        self.feature.render_resolution_range()
    }

    /// How the context is released: never while the GPU may still use it.
    pub fn release(&self) -> (r: Vec<ReleaseStep>)
        ensures
            r@ == seq![ReleaseStep::WaitForGpu, ReleaseStep::ReleaseFeature(self.feature.feature)],
    {
        self.feature.release()
    }

    /// What to log after the context was released: nothing, or why it failed. A failure to release is
    /// not passed on.
    pub fn released(result: NgxResult) -> (r: Option<String>)
        ensures
            match r {
                None => result == NGX_RESULT_SUCCESS,
                Some(text) => result != NGX_RESULT_SUCCESS && text@
                    == crate::ngx_feature::RELEASE_FAILURE_PREFIX@ + crate::nvsdk_ngx::error_of(
                    result,
                ).spec_message(),
            },
    {
        NgxFeature::released(result)
    }
}

/// NGX is never handed a null resource where it requires one.
pub proof fn required_guides_are_never_null<T: Copy>(
    context: DlssRayReconstructionContext,
    parameters: DlssRayReconstructionParameters<T>,
)
    requires
        parameters.is_complete(),
    ensures
        ({
            let eval = context.eval_params(parameters);
            &&& eval.color != 0 && eval.depth != 0 && eval.motion_vectors != 0 && eval.output != 0
            &&& eval.diffuse_albedo != 0 && eval.specular_albedo != 0 && eval.normals != 0
        }),
{
}

/// Every input of an evaluation is made readable, and the output, which comes last, is the only
/// resource that shaders write.
pub proof fn only_the_output_is_written<T: Copy>(parameters: DlssRayReconstructionParameters<T>)
    ensures
        ({
            let list = parameters.transitions();
            &&& list.len() == 8
            &&& list.last() == (TextureTransition {
                texture: parameters.output.texture,
                state: TextureUses::StorageReadWrite,
            })
            &&& forall|i: int| 0 <= i < 7 ==> (#[trigger] list[i]).state == TextureUses::Resource
        }),
{
}

/// NGX is created at the resolution that the context then tells its caller to render at, and for the
/// output resolution that the caller asked for.
pub proof fn reconstruction_is_created_at_the_render_resolution(
    creation: RayReconstructionCreation,
    settings: OptimalSettings,
)
    ensures
        ({
            let resolutions = Resolutions::settled(
                creation.upscaled_resolution,
                creation.perf_quality_mode,
                settings,
            );
            let params = creation.create_params(resolutions);
            params.render == resolutions.optimal && params.target == creation.upscaled_resolution
        }),
{
}

} // verus!

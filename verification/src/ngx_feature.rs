//! What Super Resolution and Ray Reconstruction share: the resolutions of a feature, its creation,
//! its evaluation and its release.
//!
//! NGX itself is called by the application. A function here says what to ask of NGX, or takes what
//! NGX replied and decides what follows.

use crate::config::{DlssPerfQualityMode, PerfQualityValue};
use crate::jitter::Jitter;
use crate::nvsdk_ngx::{check_ngx_result, DlssError, NgxResult, NGX_RESULT_SUCCESS};
use crate::vector::UVec2;
use vstd::prelude::*;

verus! {

/// The optimal-settings query of a feature: which render resolutions suit this output and tier.
#[derive(Clone, Copy, Debug, PartialEq, Eq, Structural)]
pub struct SettingsQuery {
    /// The upscaled (output) resolution.
    pub upscaled: UVec2,
    /// The quality tier.
    pub perf_quality: PerfQualityValue,
}

/// The reply to a [`SettingsQuery`].
#[derive(Clone, Copy, Debug, PartialEq, Eq, Structural)]
pub struct OptimalSettings {
    /// The result code of the query.
    pub result: NgxResult,
    /// The recommended render resolution.
    pub optimal: UVec2,
    /// The smallest render resolution for dynamic scaling.
    pub min: UVec2,
    /// The largest render resolution for dynamic scaling.
    pub max: UVec2,
}

/// The resolutions a feature is created with.
#[derive(Clone, Copy, Debug, PartialEq, Eq, Structural)]
pub struct Resolutions {
    /// The upscaled (output) resolution.
    pub upscaled: UVec2,
    /// The render resolution that NGX is created with.
    pub optimal: UVec2,
    /// The minimum render resolution for dynamic-resolution scaling.
    pub min: UVec2,
    /// The maximum render resolution for dynamic-resolution scaling.
    pub max: UVec2,
}

/// The render resolutions between which dynamic scaling may move, both included.
#[derive(Clone, Copy, Debug, PartialEq, Eq, Structural)]
pub struct ResolutionRange {
    /// The smallest.
    pub min: UVec2,
    /// The largest.
    pub max: UVec2,
}

impl Resolutions {
    /// What NGX recommends, or, in DLAA mode, the output resolution throughout: DLAA only
    /// anti-aliases.
    pub open spec fn settled(
        upscaled: UVec2,
        mode: DlssPerfQualityMode,
        settings: OptimalSettings,
    ) -> Resolutions {
        if mode == DlssPerfQualityMode::Dlaa {
            Resolutions { upscaled, optimal: upscaled, min: upscaled, max: upscaled }
        } else {
            Resolutions {
                upscaled,
                optimal: settings.optimal,
                min: settings.min,
                max: settings.max,
            }
        }
    }

    /// The resolutions for an output of `upscaled`, after NGX replied to the settings query.
    pub fn settle(
        upscaled: UVec2,
        mode: DlssPerfQualityMode,
        settings: OptimalSettings,
    ) -> (r: Result<Resolutions, DlssError>)
        ensures
            r == (if settings.result == NGX_RESULT_SUCCESS {
                Ok(Resolutions::settled(upscaled, mode, settings))
            } else {
                Err(crate::nvsdk_ngx::error_of(settings.result))
            }),
    {
        match check_ngx_result(settings.result) {
            Err(e) => Err(e),
            Ok(()) => {
                if mode == DlssPerfQualityMode::Dlaa {
                    Ok(Resolutions { upscaled, optimal: upscaled, min: upscaled, max: upscaled })
                } else {
                    Ok(
                        Resolutions {
                            upscaled,
                            optimal: settings.optimal,
                            min: settings.min,
                            max: settings.max,
                        },
                    )
                }
            },
        }
    }
}

/// A feature in DLAA mode renders at the output resolution and at no other.
pub proof fn dlaa_does_not_upscale(upscaled: UVec2, settings: OptimalSettings)
    ensures
        ({
            let r = Resolutions::settled(upscaled, DlssPerfQualityMode::Dlaa, settings);
            r.optimal == r.upscaled && r.min == r.upscaled && r.max == r.upscaled && r.upscaled
                == upscaled
        }),
{
}

/// The address of an NGX feature.
pub type FeatureHandle = u64;

/// NGX's reply to a creation call.
#[derive(Clone, Copy, Debug, PartialEq, Eq, Structural)]
pub struct FeatureReply {
    /// The result code.
    pub result: NgxResult,
    /// The created feature.
    pub handle: FeatureHandle,
}

/// The command encoders of an evaluation. Two are needed: transitions are recorded through the
/// graphics API's own interface, the evaluation on a raw command list, and one encoder cannot take
/// both.
#[derive(Clone, Copy, Debug, PartialEq, Eq, Structural)]
pub enum EvaluationEncoder {
    /// The one with the resource transitions.
    Transitions,
    /// The one with the NGX evaluation.
    Evaluate,
}

/// A step in the release of a feature.
#[derive(Clone, Copy, Debug, PartialEq, Eq, Structural)]
pub enum ReleaseStep {
    /// Wait until the GPU no longer uses the feature.
    WaitForGpu,
    /// Release the feature.
    ReleaseFeature(FeatureHandle),
}

/// A created NGX feature.
#[derive(Clone, Copy, Debug, PartialEq, Eq, Structural)]
pub struct NgxFeature {
    /// The resolutions it was created with.
    pub resolutions: Resolutions,
    /// Its handle.
    pub feature: FeatureHandle,
}

/// What comes of an NGX call that needs the open command list of an encoder: `None` stands for an
/// encoder that has none, because it belongs to another backend than D3D12.
pub open spec fn command_list_outcome(result: Option<NgxResult>) -> Result<(), DlssError> {
    match result {
        None => Err(DlssError::FeatureNotSupported),
        Some(result) => crate::nvsdk_ngx::outcome_of(result),
    }
}

fn check_command_list_result(result: Option<NgxResult>) -> (r: Result<(), DlssError>)
    ensures
        r == command_list_outcome(result),
{
    match result {
        None => Err(DlssError::FeatureNotSupported),
        Some(result) => check_ngx_result(result),
    }
}

impl NgxFeature {
    /// Takes NGX's reply to the creation call. On `Ok` the creation encoder is submitted; otherwise
    /// nothing is.
    pub fn create(resolutions: Resolutions, created: Option<FeatureReply>) -> (r: Result<
        NgxFeature,
        DlssError,
    >)
        ensures
            match command_list_outcome(
                match created {
                    Some(reply) => Some(reply.result),
                    None => None,
                },
            ) {
                Ok(()) => r == Ok::<NgxFeature, DlssError>(
                    (NgxFeature { resolutions, feature: created->0.handle }),
                ),
                Err(e) => r == Err::<NgxFeature, DlssError>(e),
            },
    {
        match created {
            None => Err(DlssError::FeatureNotSupported),
            Some(reply) => match check_ngx_result(reply.result) {
                Ok(()) => Ok(NgxFeature { resolutions, feature: reply.handle }),
                Err(e) => Err(e),
            },
        }
    }

    /// Takes NGX's reply to the evaluation. On `Ok` the encoders are submitted as one submission, in
    /// the returned order; otherwise nothing is.
    pub fn evaluate(&self, evaluated: Option<NgxResult>) -> (r: Result<
        Vec<EvaluationEncoder>,
        DlssError,
    >)
        ensures
            match command_list_outcome(evaluated) {
                Ok(()) => r matches Ok(order) && order@ == seq![
                    EvaluationEncoder::Transitions,
                    EvaluationEncoder::Evaluate,
                ],
                Err(e) => r == Err::<Vec<EvaluationEncoder>, DlssError>(e),
            },
    {
        match check_command_list_result(evaluated) {
            Ok(()) => Ok(vec![EvaluationEncoder::Transitions, EvaluationEncoder::Evaluate]),
            Err(e) => Err(e),
        }
    }

    /// The upscaled (output) resolution.
    pub fn upscaled_resolution(&self) -> (r: UVec2)
        ensures
            r == self.resolutions.upscaled,
    {
        self.resolutions.upscaled
    }

    /// The recommended render resolution.
    pub fn render_resolution(&self) -> (r: UVec2)
        ensures
            r == self.resolutions.optimal,
    {
        self.resolutions.optimal
    }

    /// The largest render resolution.
    pub fn max_render_resolution(&self) -> (r: UVec2)
        ensures
            r == self.resolutions.max,
    {
        self.resolutions.max
    }

    /// The render resolutions for dynamic scaling.
    pub fn render_resolution_range(&self) -> (r: ResolutionRange)
        ensures
            r.min == self.resolutions.min,
            r.max == self.resolutions.max,
    {
        ResolutionRange { min: self.resolutions.min, max: self.resolutions.max }
    }

    /// Suggested subpixel camera jitter for a frame rendered at `render_resolution`.
    pub fn suggested_jitter(&self, frame_number: u32, render_resolution: UVec2) -> (r: Jitter)
        ensures
            r.is_suggested(frame_number, self.resolutions.upscaled.x, render_resolution.x),
    {
        crate::jitter::suggested_jitter(
            frame_number,
            self.resolutions.upscaled.x,
            render_resolution.x,
        )
    }

    /// How the feature is released: never while the GPU may still use it.
    pub fn release(&self) -> (r: Vec<ReleaseStep>)
        ensures
            r@ == seq![ReleaseStep::WaitForGpu, ReleaseStep::ReleaseFeature(self.feature)],
    {
        vec![ReleaseStep::WaitForGpu, ReleaseStep::ReleaseFeature(self.feature)]
    }

    /// What to log after the feature was released: nothing, or why it failed. A failure to release
    /// is not passed on.
    pub fn released(result: NgxResult) -> (r: Option<String>)
        ensures
            match r {
                None => result == NGX_RESULT_SUCCESS,
                Some(text) => result != NGX_RESULT_SUCCESS && text@ == RELEASE_FAILURE_PREFIX@
                    + crate::nvsdk_ngx::error_of(result).spec_message(),
            },
    {
        match check_ngx_result(result) {
            Ok(()) => None,
            Err(e) => Some(RELEASE_FAILURE_PREFIX.to_string().concat(e.message().as_str())),
        }
    }
}

/// What the log line of a failed release starts with; the error follows.
pub const RELEASE_FAILURE_PREFIX: &'static str = "Failed to release DLSS feature: ";

} // verus!

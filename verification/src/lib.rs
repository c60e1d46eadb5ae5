//! NVIDIA DLSS for the wgpu D3D12 backend: Super Resolution, Ray Reconstruction and Frame
//! Generation.
//!
//! This library decides: which tier and resolutions to ask for, what to hand to NGX and Streamline
//! and in which order, what a reply means, whether a library may be loaded. It calls no driver. The
//! application makes the calls that the library returns as values, and hands the replies back.
//!
//! * Super Resolution: [`DlssContext`], [`DlssRenderParameters`].
//! * Ray Reconstruction: [`DlssRayReconstructionContext`], [`DlssRayReconstructionParameters`].
//! * Both share one [`DlssSdk`] per application.
//! * Frame Generation: [`Streamline`], [`FrameGenerationContext`], [`Frame`].

pub mod binary32;
pub mod config;
pub mod context;
pub mod error;
pub mod feature_info;
pub mod hal;
pub mod instance;
pub mod jitter;
pub mod laws;
mod logger;
pub mod ngx_feature;
pub mod ngx_log;
pub mod nvsdk_ngx;
pub mod ray_reconstruction;
pub mod render_parameters;
pub mod sdk;
pub mod streamline;
pub mod text;
pub mod vector;

pub use config::{DepthType, DlssFeatureFlags, DlssPerfQualityMode, RoughnessMode};
pub use context::DlssContext;
pub use error::Error;
pub use instance::{dxc_instance_descriptor, dxc_instance_descriptor_at, DEFAULT_DXC_PATH};
pub use nvsdk_ngx::DlssError;
pub use ray_reconstruction::{DlssRayReconstructionContext, DlssRayReconstructionParameters};
pub use render_parameters::{DlssExposure, DlssRenderParameters, DlssTexture};
pub use sdk::DlssSdk;
pub use streamline::error::StreamlineError;
pub use streamline::frame::Frame;
pub use streamline::frame_gen::{
    FrameGenerationContext, FrameGenerationMode, FrameGenerationOptions, FrameGenerationState,
    Streamline, DEFAULT_ENGINE_VERSION, DEFAULT_PROJECT_ID,
};
pub use streamline::tagging::{
    FgConstants, FgResource, FgResources, FgUi, D3D12_RESOURCE_STATE_PIXEL_SHADER_RESOURCE,
};

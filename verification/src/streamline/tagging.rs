//! What the application hands over each frame: the tagged resources and the constants.

use crate::ray_reconstruction::DlssRayReconstructionParameters;
use crate::render_parameters::{DlssRenderParameters, RawResource};
use crate::streamline::types::{
    Boolean, BufferType, Constants, Float2, Float4, Float4x4, MotionScale, MotionScale2,
    K_BUFFER_TYPE_DEPTH, K_BUFFER_TYPE_HUD_LESS_COLOR, K_BUFFER_TYPE_MOTION_VECTORS,
    K_BUFFER_TYPE_UI_ALPHA, K_BUFFER_TYPE_UI_COLOR_AND_ALPHA, TENTH_BITS, THOUSAND_BITS,
    WIDE_ASPECT_BITS,
};
use crate::vector::{FloatBits, UVec2, Vec2};
use vstd::prelude::*;

verus! {

/// The D3D12 state of a texture that pixel shaders read: the state that tagged inputs are expected
/// to be in when they are consumed.
pub const D3D12_RESOURCE_STATE_PIXEL_SHADER_RESOURCE: u32 = 0x80;

/// The texture formats that have a DXGI counterpart here.
#[derive(Clone, Copy, Debug, PartialEq, Eq, Structural)]
pub enum TextureFormat {
    /// Blue, green, red and alpha, eight bits each.
    Bgra8Unorm,
    /// The same, in the sRGB color space.
    Bgra8UnormSrgb,
    /// Red, green, blue and alpha, eight bits each.
    Rgba8Unorm,
    /// The same, in the sRGB color space.
    Rgba8UnormSrgb,
    /// Red, green, blue and alpha as half-precision values.
    Rgba16Float,
    /// Red, green and blue of ten bits, alpha of two.
    Rgb10a2Unorm,
    /// Red in single precision.
    R32Float,
    /// Depth in single precision.
    Depth32Float,
    /// Depth of at least 24 bits.
    Depth24Plus,
    /// Depth of at least 24 bits, and stencil.
    Depth24PlusStencil8,
    /// Red and green in half precision.
    Rg16Float,
    /// Red and green in single precision.
    Rg32Float,
    /// Red of eight bits.
    R8Unorm,
    /// Red in half precision.
    R16Float,
    /// Any other format.
    Other,
}

impl TextureFormat {
    /// The DXGI number of the format; zero, which stands for an unknown format, for all others.
    pub open spec fn dxgi(self) -> u32 {
        match self {
            TextureFormat::Bgra8Unorm => 87,
            TextureFormat::Bgra8UnormSrgb => 91,
            TextureFormat::Rgba8Unorm => 28,
            TextureFormat::Rgba8UnormSrgb => 29,
            TextureFormat::Rgba16Float => 10,
            TextureFormat::Rgb10a2Unorm => 24,
            TextureFormat::R32Float => 41,
            TextureFormat::Depth32Float => 40,
            TextureFormat::Depth24Plus | TextureFormat::Depth24PlusStencil8 => 45,
            TextureFormat::Rg16Float => 34,
            TextureFormat::Rg32Float => 16,
            TextureFormat::R8Unorm => 61,
            TextureFormat::R16Float => 54,
            TextureFormat::Other => 0,
        }
    }
}

/// The DXGI number of a format. Formats that frame generation does not deal with have none, and
/// Streamline infers the format.
pub fn dxgi_format_of(format: TextureFormat) -> (r: u32)
    ensures
        r == format.dxgi(),
{
    match format {
        TextureFormat::Bgra8Unorm => 87,
        TextureFormat::Bgra8UnormSrgb => 91,
        TextureFormat::Rgba8Unorm => 28,
        TextureFormat::Rgba8UnormSrgb => 29,
        TextureFormat::Rgba16Float => 10,
        TextureFormat::Rgb10a2Unorm => 24,
        TextureFormat::R32Float => 41,
        TextureFormat::Depth32Float => 40,
        TextureFormat::Depth24Plus | TextureFormat::Depth24PlusStencil8 => 45,
        TextureFormat::Rg16Float => 34,
        TextureFormat::Rg32Float => 16,
        TextureFormat::R8Unorm => 61,
        TextureFormat::R16Float => 54,
        TextureFormat::Other => 0,
    }
}

/// A texture handed to frame generation, with the D3D12 state that it is in.
#[derive(Clone, Copy, Debug, PartialEq, Eq, Structural)]
pub struct FgResource {
    /// The D3D12 resource of the texture; `None` for a texture of another backend.
    pub resource: Option<RawResource>,
    /// Its dimensions.
    pub size: UVec2,
    /// Its format.
    pub format: TextureFormat,
    /// Its D3D12 state.
    pub resource_state: u32,
}

impl FgResource {
    /// A texture in the state that pixel shaders read.
    pub fn new(resource: Option<RawResource>, size: UVec2, format: TextureFormat) -> (r: FgResource)
        ensures
            r == (FgResource {
                resource,
                size,
                format,
                resource_state: D3D12_RESOURCE_STATE_PIXEL_SHADER_RESOURCE,
            }),
    {
        FgResource {
            resource,
            size,
            format,
            resource_state: D3D12_RESOURCE_STATE_PIXEL_SHADER_RESOURCE,
        }
    }

    /// The same texture in another D3D12 state, which must be the one that it has been left in.
    pub fn with_resource_state(self, state: u32) -> (r: FgResource)
        ensures
            r == (FgResource { resource_state: state, ..self }),
    {
        FgResource {
            resource: self.resource,
            size: self.size,
            format: self.format,
            resource_state: state,
        }
    }

    /// The dimensions of the texture.
    pub fn dimensions(&self) -> (r: UVec2)
        ensures
            r == self.size,
    {
        self.size
    }

    /// The DXGI format of the texture.
    pub fn native_format(&self) -> (r: u32)
        ensures
            r == self.format.dxgi(),
    {
        dxgi_format_of(self.format)
    }
}

/// How the user interface layer is supplied, if at all. Frame generation can recomposite it over the
/// generated frame so that it stays crisp.
#[derive(Clone, Copy, Debug, PartialEq, Eq, Structural)]
pub enum FgUi {
    /// A texture with both color and alpha.
    ColorAndAlpha(FgResource),
    /// An alpha-only mask.
    Alpha(FgResource),
}

/// Which kind of user interface layer there is.
#[derive(Clone, Copy, Debug, PartialEq, Eq, Structural)]
pub enum UiTagKind {
    /// Color and alpha.
    ColorAndAlpha,
    /// Alpha only.
    Alpha,
}

impl FgUi {
    /// The texture of the layer.
    pub open spec fn layer(self) -> FgResource {
        match self {
            FgUi::ColorAndAlpha(resource) => resource,
            FgUi::Alpha(resource) => resource,
        }
    }

    /// The kind of the layer.
    pub open spec fn kind(self) -> UiTagKind {
        match self {
            FgUi::ColorAndAlpha(_) => UiTagKind::ColorAndAlpha,
            FgUi::Alpha(_) => UiTagKind::Alpha,
        }
    }
}

impl UiTagKind {
    /// The kind of a layer.
    pub fn of(ui: &FgUi) -> (r: UiTagKind)
        ensures
            r == ui.kind(),
    {
        match ui {
            FgUi::ColorAndAlpha(_) => UiTagKind::ColorAndAlpha,
            FgUi::Alpha(_) => UiTagKind::Alpha,
        }
    }
}

/// The textures tagged for frame generation each frame.
///
/// Depth and motion vectors are required. Provide color without the user interface together with a
/// user interface layer for a crisp recomposition; omit both to interpolate the back buffer as it
/// is.
#[derive(Clone, Copy, Debug, PartialEq, Eq, Structural)]
pub struct FgResources {
    /// Depth at render resolution.
    pub depth: FgResource,
    /// Screen-space motion vectors at render resolution.
    pub motion_vectors: FgResource,
    /// Optional color without the user interface, in the format of the back buffer.
    pub hudless_color: Option<FgResource>,
    /// Optional user interface layer.
    pub ui: Option<FgUi>,
}

/// What the tagged buffers hold, in order: depth, motion vectors, then, where there are any, color
/// without the user interface and the user interface layer.
pub open spec fn tag_order(has_hudless: bool, ui: Option<UiTagKind>) -> Seq<BufferType> {
    seq![K_BUFFER_TYPE_DEPTH, K_BUFFER_TYPE_MOTION_VECTORS] + (if has_hudless {
        seq![K_BUFFER_TYPE_HUD_LESS_COLOR]
    } else {
        seq![]
    }) + (match ui {
        Some(UiTagKind::ColorAndAlpha) => seq![K_BUFFER_TYPE_UI_COLOR_AND_ALPHA],
        Some(UiTagKind::Alpha) => seq![K_BUFFER_TYPE_UI_ALPHA],
        None => seq![],
    })
}

/// What the tagged buffers hold, in order.
pub fn tag_buffer_types(has_hudless: bool, ui: Option<UiTagKind>) -> (r: Vec<BufferType>)
    ensures
        r@ == tag_order(has_hudless, ui),
{
    let mut out: Vec<BufferType> = vec![K_BUFFER_TYPE_DEPTH, K_BUFFER_TYPE_MOTION_VECTORS];
    if has_hudless {
        out.push(K_BUFFER_TYPE_HUD_LESS_COLOR);
    }
    match ui {
        Some(UiTagKind::ColorAndAlpha) => {
            out.push(K_BUFFER_TYPE_UI_COLOR_AND_ALPHA);
        },
        Some(UiTagKind::Alpha) => {
            out.push(K_BUFFER_TYPE_UI_ALPHA);
        },
        None => {},
    }
    assert(out@ =~= tag_order(has_hudless, ui));
    out
}

impl FgResources {
    /// The kind of the user interface layer, if there is one.
    pub open spec fn ui_kind(self) -> Option<UiTagKind> {
        match self.ui {
            Some(ui) => Some(ui.kind()),
            None => None,
        }
    }

    /// The tagged textures, in order.
    pub open spec fn tagged(self) -> Seq<FgResource> {
        seq![self.depth, self.motion_vectors] + (match self.hudless_color {
            Some(hudless) => seq![hudless],
            None => seq![],
        }) + (match self.ui {
            Some(ui) => seq![ui.layer()],
            None => seq![],
        })
    }

    /// What the tagged textures hold, in the same order.
    pub open spec fn buffer_types(self) -> Seq<BufferType> {
        tag_order(self.hudless_color is Some, self.ui_kind())
    }

    /// The textures to tag, each with what it holds.
    pub fn tags(&self) -> (r: Vec<(FgResource, BufferType)>)
        ensures
            r.len() == self.tagged().len(),
            forall|i: int|
                0 <= i < r.len() ==> #[trigger] r[i] == (
                    self.tagged()[i],
                    self.buffer_types()[i],
                ),
    {
        let mut resources: Vec<FgResource> = vec![self.depth, self.motion_vectors];
        if let Some(hudless) = self.hudless_color {
            resources.push(hudless);
        }
        let ui_kind = match self.ui {
            Some(ui) => {
                match ui {
                    FgUi::ColorAndAlpha(resource) | FgUi::Alpha(resource) => {
                        resources.push(resource);
                    },
                }
                Some(UiTagKind::of(&ui))
            },
            None => None,
        };
        assert(resources@ =~= self.tagged());
        let types = tag_buffer_types(self.hudless_color.is_some(), ui_kind);
        let mut out: Vec<(FgResource, BufferType)> = Vec::new();
        let mut i: usize = 0;
        while i < resources.len()
            invariant
                i <= resources.len(),
                resources@ == self.tagged(),
                types@ == self.buffer_types(),
                types.len() == resources.len(),
                out.len() == i,
                forall|j: int| 0 <= j < i ==> #[trigger] out[j] == (resources[j], types[j]),
            decreases resources.len() - i,
        {
            out.push((resources[i], types[i]));
            i = i + 1;
        }
        out
    }
}

/// Each tagged texture has a type, depth comes first, motion vectors second, and the optional ones
/// add one tag each.
pub proof fn tags_follow_the_order(resources: FgResources)
    ensures
        resources.tagged().len() == resources.buffer_types().len(),
        resources.tagged()[0] == resources.depth,
        resources.buffer_types()[0] == K_BUFFER_TYPE_DEPTH,
        resources.tagged()[1] == resources.motion_vectors,
        resources.buffer_types()[1] == K_BUFFER_TYPE_MOTION_VECTORS,
        resources.tagged().len() == 2 + (if resources.hudless_color is Some {
            1int
        } else {
            0
        }) + (if resources.ui is Some {
            1int
        } else {
            0
        }),
{
}

/// Per-frame common constants handed to frame generation.
///
/// Camera matrices default to identity, which is right where all motion is in the motion-vector
/// buffer.
///
/// Motion vectors must be normalized to `[-1, 1]`. Where they count pixels at render resolution,
/// which is the usual case, use [`FgConstants::with_pixel_motion`].
#[derive(Clone, Copy, Debug, PartialEq, Eq, Structural)]
pub struct FgConstants {
    /// Camera view to clip (projection) matrix. Identity by default.
    pub camera_view_to_clip: Float4x4,
    /// Inverse of the projection matrix. Identity by default.
    pub clip_to_camera_view: Float4x4,
    /// Current clip space to the previous frame's. Identity by default.
    pub clip_to_prev_clip: Float4x4,
    /// The previous frame's clip space to the current one. Identity by default.
    pub prev_clip_to_clip: Float4x4,
    /// Subpixel jitter applied to the camera this frame; zero if not jittering.
    pub jitter_offset: Vec2,
    /// Scale that normalizes motion vectors to `[-1, 1]`.
    pub mvec_scale: MotionScale2,
    /// Reset temporal history (on the first frame, on camera cuts and discontinuities).
    pub reset: bool,
    /// Whether the depth buffer is reversed (near is one).
    pub depth_inverted: bool,
    /// Whether the motion-vector buffer already encodes full (object and camera) motion.
    pub camera_motion_included: bool,
    /// Near plane distance.
    pub camera_near: FloatBits,
    /// Far plane distance.
    pub camera_far: FloatBits,
    /// Vertical field of view, in radians.
    pub camera_fov: FloatBits,
    /// Aspect ratio (width over height).
    pub camera_aspect_ratio: FloatBits,
}

/// The scale that normalizes motion vectors of the given scale, in pixels, by a resolution. A
/// resolution of zero counts as one.
pub open spec fn normalized_scale(scale: Vec2, resolution: UVec2) -> MotionScale2 {
    MotionScale2 {
        x: MotionScale {
            numerator: scale.x,
            divisor: if resolution.x == 0 {
                1
            } else {
                resolution.x
            },
        },
        y: MotionScale {
            numerator: scale.y,
            divisor: if resolution.y == 0 {
                1
            } else {
                resolution.y
            },
        },
    }
}

fn normalize_scale(scale: Vec2, resolution: UVec2) -> (r: MotionScale2)
    ensures
        r == normalized_scale(scale, resolution),
{
    let width: u32 = if resolution.x == 0 {
        1
    } else {
        resolution.x
    };
    let height: u32 = if resolution.y == 0 {
        1
    } else {
        resolution.y
    };
    MotionScale2 {
        x: MotionScale { numerator: scale.x, divisor: width },
        y: MotionScale { numerator: scale.y, divisor: height },
    }
}

impl FgConstants {
    /// Identity camera, no jitter, motion vectors as they are, history kept, standard depth, full
    /// motion in the motion-vector buffer.
    pub open spec fn default_value() -> FgConstants {
        FgConstants {
            camera_view_to_clip: Float4x4::identity_value(),
            clip_to_camera_view: Float4x4::identity_value(),
            clip_to_prev_clip: Float4x4::identity_value(),
            prev_clip_to_clip: Float4x4::identity_value(),
            jitter_offset: Vec2 { x: FloatBits::zero_value(), y: FloatBits::zero_value() },
            mvec_scale: MotionScale2::one_value(),
            reset: false,
            depth_inverted: false,
            camera_motion_included: true,
            camera_near: FloatBits { bits: TENTH_BITS },
            camera_far: FloatBits { bits: THOUSAND_BITS },
            camera_fov: FloatBits::one_value(),
            camera_aspect_ratio: FloatBits { bits: WIDE_ASPECT_BITS },
        }
    }

    /// Identity-camera defaults. Remember [`FgConstants::with_pixel_motion`] if motion vectors are
    /// in pixels.
    pub fn new() -> (r: FgConstants)
        ensures
            r == FgConstants::default_value(),
    {
        FgConstants {
            camera_view_to_clip: Float4x4::identity(),
            clip_to_camera_view: Float4x4::identity(),
            clip_to_prev_clip: Float4x4::identity(),
            prev_clip_to_clip: Float4x4::identity(),
            jitter_offset: Vec2 { x: FloatBits::zero(), y: FloatBits::zero() },
            mvec_scale: MotionScale2::one(),
            reset: false,
            depth_inverted: false,
            camera_motion_included: true,
            camera_near: FloatBits { bits: TENTH_BITS },
            camera_far: FloatBits { bits: THOUSAND_BITS },
            camera_fov: FloatBits::one(),
            camera_aspect_ratio: FloatBits { bits: WIDE_ASPECT_BITS },
        }
    }

    /// The same constants for motion vectors that count pixels at `render_resolution`: the scale is
    /// one over the resolution.
    pub fn with_pixel_motion(self, render_resolution: UVec2) -> (r: FgConstants)
        ensures
            r == (FgConstants {
                mvec_scale: normalized_scale(Vec2::one_value(), render_resolution),
                ..self
            }),
    {
        let mut constants = self;
        constants.mvec_scale = normalize_scale(Vec2::one(), render_resolution);
        constants
    }

    /// The constants that share their jitter, motion-vector scale and history reset with an
    /// upscaling pass.
    pub open spec fn derived(
        motion_vector_scale: Option<Vec2>,
        jitter_offset: Vec2,
        reset: bool,
        render_resolution: UVec2,
    ) -> FgConstants {
        FgConstants {
            mvec_scale: normalized_scale(
                match motion_vector_scale {
                    Some(scale) => scale,
                    None => Vec2::one_value(),
                },
                render_resolution,
            ),
            jitter_offset,
            reset,
            ..FgConstants::default_value()
        }
    }

    /// Constants from what an upscaling pass is given. NGX takes motion vectors in pixels at render
    /// resolution; frame generation takes them normalized, so their scale is divided by the
    /// resolution.
    pub fn derive(
        motion_vector_scale: Option<Vec2>,
        jitter_offset: Vec2,
        reset: bool,
        render_resolution: UVec2,
    ) -> (r: FgConstants)
        ensures
            r == FgConstants::derived(motion_vector_scale, jitter_offset, reset, render_resolution),
    {
        let scale = match motion_vector_scale {
            Some(scale) => scale,
            None => Vec2::one(),
        };
        let mut constants = FgConstants::new();
        constants.mvec_scale = normalize_scale(scale, render_resolution);
        constants.jitter_offset = jitter_offset;
        constants.reset = reset;
        constants
    }

    /// Constants from the parameters of the Super Resolution evaluation, so that both share one
    /// source for jitter, motion-vector scale and history reset. Camera matrices, depth direction
    /// and camera motion are not among those parameters and keep their defaults.
    pub fn from_render_parameters<T: Copy>(
        params: &DlssRenderParameters<T>,
        render_resolution: UVec2,
    ) -> (r: FgConstants)
        ensures
            r == FgConstants::derived(
                params.motion_vector_scale,
                params.jitter_offset,
                params.reset,
                render_resolution,
            ),
    {
        FgConstants::derive(
            params.motion_vector_scale,
            params.jitter_offset,
            params.reset,
            render_resolution,
        )
    }

    /// The same for the parameters of a Ray Reconstruction evaluation.
    pub fn from_ray_reconstruction_parameters<T: Copy>(
        params: &DlssRayReconstructionParameters<T>,
        render_resolution: UVec2,
    ) -> (r: FgConstants)
        ensures
            r == FgConstants::derived(
                params.motion_vector_scale,
                params.jitter_offset,
                params.reset,
                render_resolution,
            ),
    {
        FgConstants::derive(
            params.motion_vector_scale,
            params.jitter_offset,
            params.reset,
            render_resolution,
        )
    }

    /// Whether `sl` carries these constants: each of them as it is, and everything else as
    /// Streamline's constants are initialized.
    pub open spec fn carried_by(self, sl: Constants) -> bool {
        &&& sl.has_fixed_defaults()
        &&& sl.camera_view_to_clip == self.camera_view_to_clip
        &&& sl.clip_to_camera_view == self.clip_to_camera_view
        &&& sl.clip_to_prev_clip == self.clip_to_prev_clip
        &&& sl.prev_clip_to_clip == self.prev_clip_to_clip
        &&& sl.jitter_offset == (Float2 { x: self.jitter_offset.x, y: self.jitter_offset.y })
        &&& sl.mvec_scale == self.mvec_scale
        &&& sl.depth_inverted == sl_boolean(self.depth_inverted)
        &&& sl.camera_motion_included == sl_boolean(self.camera_motion_included)
        &&& sl.reset == sl_boolean(self.reset)
        &&& sl.camera_near == self.camera_near
        &&& sl.camera_far == self.camera_far
        &&& sl.camera_fov == self.camera_fov
        &&& sl.camera_aspect_ratio == self.camera_aspect_ratio
    }

    /// The constants as Streamline takes them.
    pub fn to_sl(self) -> (r: Constants)
        ensures
            self.carried_by(r),
            r.camera_view_to_clip == self.camera_view_to_clip,
            r.clip_to_camera_view == self.clip_to_camera_view,
            r.clip_to_prev_clip == self.clip_to_prev_clip,
            r.prev_clip_to_clip == self.prev_clip_to_clip,
            r.jitter_offset.x == self.jitter_offset.x,
            r.jitter_offset.y == self.jitter_offset.y,
            r.mvec_scale.x == self.mvec_scale.x,
            r.mvec_scale.y == self.mvec_scale.y,
            r.camera_near == self.camera_near,
            r.camera_far == self.camera_far,
            r.camera_fov == self.camera_fov,
            r.camera_aspect_ratio == self.camera_aspect_ratio,
            r.depth_inverted == Boolean::True <==> self.depth_inverted,
            r.depth_inverted == Boolean::False <==> !self.depth_inverted,
            r.camera_motion_included == Boolean::True <==> self.camera_motion_included,
            r.camera_motion_included == Boolean::False <==> !self.camera_motion_included,
            r.reset == Boolean::True <==> self.reset,
            r.reset == Boolean::False <==> !self.reset,
    {
        let mut c = Constants::new();
        c.camera_view_to_clip = self.camera_view_to_clip;
        c.clip_to_camera_view = self.clip_to_camera_view;
        c.clip_to_prev_clip = self.clip_to_prev_clip;
        c.prev_clip_to_clip = self.prev_clip_to_clip;
        c.jitter_offset = Float2 { x: self.jitter_offset.x, y: self.jitter_offset.y };
        c.mvec_scale = self.mvec_scale;
        c.depth_inverted = bool_to_sl(self.depth_inverted);
        c.camera_motion_included = bool_to_sl(self.camera_motion_included);
        c.reset = bool_to_sl(self.reset);
        c.camera_near = self.camera_near;
        c.camera_far = self.camera_far;
        c.camera_fov = self.camera_fov;
        c.camera_aspect_ratio = self.camera_aspect_ratio;
        c
    }
}

impl Default for FgConstants {
    fn default() -> (r: Self)
        ensures
            r == FgConstants::default_value(),
    {
        FgConstants::new()
    }
}

/// The Streamline truth value of a `bool`.
pub open spec fn sl_boolean(b: bool) -> Boolean {
    if b {
        Boolean::True
    } else {
        Boolean::False
    }
}

/// The Streamline truth value of a `bool`.
pub fn bool_to_sl(b: bool) -> (r: Boolean)
    ensures
        r == sl_boolean(b),
{
    if b {
        Boolean::True
    } else {
        Boolean::False
    }
}

/// The matrix with the given rows.
pub fn to_float4x4(m: [[FloatBits; 4]; 4]) -> (r: Float4x4)
    ensures
        r.row0 == (Float4 { x: m[0][0], y: m[0][1], z: m[0][2], w: m[0][3] }),
        r.row1 == (Float4 { x: m[1][0], y: m[1][1], z: m[1][2], w: m[1][3] }),
        r.row2 == (Float4 { x: m[2][0], y: m[2][1], z: m[2][2], w: m[2][3] }),
        r.row3 == (Float4 { x: m[3][0], y: m[3][1], z: m[3][2], w: m[3][3] }),
{
    Float4x4 {
        row0: Float4 { x: m[0][0], y: m[0][1], z: m[0][2], w: m[0][3] },
        row1: Float4 { x: m[1][0], y: m[1][1], z: m[1][2], w: m[1][3] },
        row2: Float4 { x: m[2][0], y: m[2][1], z: m[2][2], w: m[2][3] },
        row3: Float4 { x: m[3][0], y: m[3][1], z: m[3][2], w: m[3][3] },
    }
}

/// Deriving from an upscaling pass without a motion-vector scale of its own gives the scale for
/// motion vectors in pixels.
pub proof fn unscaled_motion_is_pixel_motion(jitter_offset: Vec2, reset: bool, resolution: UVec2)
    ensures
        FgConstants::derived(None, jitter_offset, reset, resolution).mvec_scale
            == normalized_scale(Vec2::one_value(), resolution),
{
}

/// Derived constants keep the jitter and the reset of the upscaling pass, and their scale is never
/// divided by zero.
pub proof fn derived_constants_follow_the_upscaling_pass(
    motion_vector_scale: Option<Vec2>,
    jitter_offset: Vec2,
    reset: bool,
    resolution: UVec2,
)
    ensures
        ({
            let c = FgConstants::derived(motion_vector_scale, jitter_offset, reset, resolution);
            c.mvec_scale.x.divisor > 0 && c.mvec_scale.y.divisor > 0 && c.jitter_offset
                == jitter_offset && c.reset == reset
        }),
{
}

} // verus!

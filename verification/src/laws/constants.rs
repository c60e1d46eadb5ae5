//! The constants and the resources of a generated frame.

use crate::ray_reconstruction::DlssRayReconstructionParameters;
use crate::render_parameters::DlssRenderParameters;
use crate::streamline::tagging::{
    bool_to_sl, dxgi_format_of, tag_buffer_types, to_float4x4, FgConstants, FgResource,
    FgResources, FgUi, TextureFormat, UiTagKind,
};
use crate::streamline::types::{Boolean, Constants, Float4x4};
use crate::vector::{FloatBits, UVec2, Vec2};
use vstd::prelude::*;

verus! {

/// Whether a matrix is the identity.
pub open spec fn is_identity(m: Float4x4) -> bool {
    &&& m.row0.x.bits == 0x3f80_0000 && m.row0.y.bits == 0 && m.row0.z.bits == 0 && m.row0.w.bits
        == 0
    &&& m.row1.x.bits == 0 && m.row1.y.bits == 0x3f80_0000 && m.row1.z.bits == 0 && m.row1.w.bits
        == 0
    &&& m.row2.x.bits == 0 && m.row2.y.bits == 0 && m.row2.z.bits == 0x3f80_0000 && m.row2.w.bits
        == 0
    &&& m.row3.x.bits == 0 && m.row3.y.bits == 0 && m.row3.z.bits == 0 && m.row3.w.bits
        == 0x3f80_0000
}

/// Streamline is handed each constant under its own name and unchanged: the four matrices, the
/// jitter by its axes, the scale, the flags and the camera.
pub proof fn constants_keep_their_names_and_values(c: FgConstants, sl: Constants)
    requires
        call_ensures(FgConstants::to_sl, (c,), sl),
    ensures
        sl.camera_view_to_clip == c.camera_view_to_clip,
        sl.clip_to_camera_view == c.clip_to_camera_view,
        sl.clip_to_prev_clip == c.clip_to_prev_clip,
        sl.prev_clip_to_clip == c.prev_clip_to_clip,
        sl.jitter_offset.x == c.jitter_offset.x,
        sl.jitter_offset.y == c.jitter_offset.y,
        sl.mvec_scale.x == c.mvec_scale.x,
        sl.mvec_scale.y == c.mvec_scale.y,
        sl.reset == Boolean::True <==> c.reset,
        sl.reset == Boolean::False <==> !c.reset,
        sl.depth_inverted == Boolean::True <==> c.depth_inverted,
        sl.depth_inverted == Boolean::False <==> !c.depth_inverted,
        sl.camera_motion_included == Boolean::True <==> c.camera_motion_included,
        sl.camera_motion_included == Boolean::False <==> !c.camera_motion_included,
        sl.camera_near == c.camera_near,
        sl.camera_far == c.camera_far,
        sl.camera_fov == c.camera_fov,
        sl.camera_aspect_ratio == c.camera_aspect_ratio,
{
}

/// What no caller sets is the same for every frame: no lens, a camera at the origin that looks along
/// the third axis, two-dimensional motion vectors without jitter or dilation, a perspective
/// projection.
pub proof fn unset_constants_are_always_the_same(c: FgConstants, sl: Constants)
    requires
        call_ensures(FgConstants::to_sl, (c,), sl),
    ensures
        leaves_the_rest(sl),
{
}

/// Whether what no caller sets has its default.
pub open spec fn leaves_the_rest(sl: Constants) -> bool {
    &&& is_identity(sl.clip_to_lens_clip)
    &&& sl.camera_pinhole_offset.x.bits == 0 && sl.camera_pinhole_offset.y.bits == 0
    &&& sl.camera_pos.x.bits == 0 && sl.camera_pos.y.bits == 0 && sl.camera_pos.z.bits == 0
    &&& sl.camera_up.x.bits == 0 && sl.camera_up.y.bits == 0x3f80_0000 && sl.camera_up.z.bits == 0
    &&& sl.camera_right.x.bits == 0x3f80_0000 && sl.camera_right.y.bits == 0
        && sl.camera_right.z.bits == 0
    &&& sl.camera_fwd.x.bits == 0 && sl.camera_fwd.y.bits == 0 && sl.camera_fwd.z.bits
        == 0x3f80_0000
    &&& sl.motion_vectors_invalid_value.bits == 0x7f7f_ffff
    &&& sl.motion_vectors_3d == Boolean::False
    &&& sl.orthographic_projection == Boolean::False
    &&& sl.motion_vectors_dilated == Boolean::False
    &&& sl.motion_vectors_jittered == Boolean::False
    &&& sl.min_relative_linear_depth_object_separation.bits == 0x4220_0000
    &&& crate::laws::structures::heads_constants(sl.base, 2)
}

/// Whether all but jitter, scale and reset are as they are by default: identity matrices, a standard
/// depth buffer, and all motion in the motion vectors.
pub open spec fn has_default_camera(c: FgConstants) -> bool {
    &&& is_identity(c.camera_view_to_clip)
    &&& is_identity(c.clip_to_camera_view)
    &&& is_identity(c.clip_to_prev_clip)
    &&& is_identity(c.prev_clip_to_clip)
    &&& !c.depth_inverted
    &&& c.camera_motion_included
    &&& c.camera_near.bits == 0x3dcc_cccd
    &&& c.camera_far.bits == 0x447a_0000
    &&& c.camera_fov.bits == 0x3f80_0000
    &&& c.camera_aspect_ratio.bits == 0x3fe3_8e39
}

/// Constants for motion vectors in pixels differ from those they are made of in the scale alone,
/// which is one over the width across and one over the height down.
pub proof fn pixel_motion_is_scaled_by_the_resolution(
    c: FgConstants,
    resolution: UVec2,
    scaled: FgConstants,
)
    requires
        call_ensures(FgConstants::with_pixel_motion, (c, resolution), scaled),
    ensures
        scaled.mvec_scale.x.numerator.bits == 0x3f80_0000,
        scaled.mvec_scale.y.numerator.bits == 0x3f80_0000,
        resolution.x > 0 ==> scaled.mvec_scale.x.divisor == resolution.x,
        resolution.x == 0 ==> scaled.mvec_scale.x.divisor == 1,
        resolution.y > 0 ==> scaled.mvec_scale.y.divisor == resolution.y,
        resolution.y == 0 ==> scaled.mvec_scale.y.divisor == 1,
        scaled.camera_view_to_clip == c.camera_view_to_clip,
        scaled.clip_to_camera_view == c.clip_to_camera_view,
        scaled.clip_to_prev_clip == c.clip_to_prev_clip,
        scaled.prev_clip_to_clip == c.prev_clip_to_clip,
        scaled.jitter_offset == c.jitter_offset,
        scaled.reset == c.reset,
        scaled.depth_inverted == c.depth_inverted,
        scaled.camera_motion_included == c.camera_motion_included,
        scaled.camera_near == c.camera_near,
        scaled.camera_far == c.camera_far,
        scaled.camera_fov == c.camera_fov,
        scaled.camera_aspect_ratio == c.camera_aspect_ratio,
{
}

/// Whether constants share the jitter, the reset and the motion-vector scale of an upscaling pass,
/// the scale divided by the resolution, axis by axis.
pub open spec fn share_an_upscaling_pass(
    c: FgConstants,
    motion_vector_scale: Option<Vec2>,
    jitter_offset: Vec2,
    reset: bool,
    resolution: UVec2,
) -> bool {
    &&& c.jitter_offset.x == jitter_offset.x
    &&& c.jitter_offset.y == jitter_offset.y
    &&& c.reset == reset
    &&& motion_vector_scale matches Some(scale) ==> c.mvec_scale.x.numerator == scale.x
        && c.mvec_scale.y.numerator == scale.y
    &&& motion_vector_scale is None ==> c.mvec_scale.x.numerator.bits == 0x3f80_0000
        && c.mvec_scale.y.numerator.bits == 0x3f80_0000
    &&& resolution.x > 0 ==> c.mvec_scale.x.divisor == resolution.x
    &&& resolution.x == 0 ==> c.mvec_scale.x.divisor == 1
    &&& resolution.y > 0 ==> c.mvec_scale.y.divisor == resolution.y
    &&& resolution.y == 0 ==> c.mvec_scale.y.divisor == 1
}

/// Frame generation shares its jitter, reset and motion-vector scale with the upscaling pass that
/// its constants are derived from, whichever it is, and keeps the default camera.
pub proof fn constants_share_the_upscaling_pass<T: Copy>(
    motion_vector_scale: Option<Vec2>,
    jitter_offset: Vec2,
    reset: bool,
    resolution: UVec2,
    derived: FgConstants,
    upscaling: DlssRenderParameters<T>,
    from_upscaling: FgConstants,
    reconstruction: DlssRayReconstructionParameters<T>,
    from_reconstruction: FgConstants,
)
    requires
        call_ensures(
            FgConstants::derive,
            (motion_vector_scale, jitter_offset, reset, resolution),
            derived,
        ),
        call_ensures(
            FgConstants::from_render_parameters::<T>,
            (&upscaling, resolution),
            from_upscaling,
        ),
        call_ensures(
            FgConstants::from_ray_reconstruction_parameters::<T>,
            (&reconstruction, resolution),
            from_reconstruction,
        ),
    ensures
        share_an_upscaling_pass(derived, motion_vector_scale, jitter_offset, reset, resolution),
        has_default_camera(derived),
        share_an_upscaling_pass(
            from_upscaling,
            upscaling.motion_vector_scale,
            upscaling.jitter_offset,
            upscaling.reset,
            resolution,
        ),
        has_default_camera(from_upscaling),
        share_an_upscaling_pass(
            from_reconstruction,
            reconstruction.motion_vector_scale,
            reconstruction.jitter_offset,
            reconstruction.reset,
            resolution,
        ),
        has_default_camera(from_reconstruction),
{
}

/// By default nothing is jittered, scaled or reset.
pub proof fn default_constants_change_nothing(c: FgConstants)
    requires
        call_ensures(FgConstants::new, (), c),
    ensures
        has_default_camera(c),
        c.jitter_offset.x.bits == 0 && c.jitter_offset.y.bits == 0,
        c.mvec_scale.x.numerator.bits == 0x3f80_0000 && c.mvec_scale.x.divisor == 1,
        c.mvec_scale.y.numerator.bits == 0x3f80_0000 && c.mvec_scale.y.divisor == 1,
        !c.reset,
{
}

/// A matrix keeps its rows and their order, and a truth value its truth.
pub proof fn matrices_and_truth_values_are_kept(
    m: [[FloatBits; 4]; 4],
    matrix: Float4x4,
    b: bool,
    truth: Boolean,
)
    requires
        call_ensures(to_float4x4, (m,), matrix),
        call_ensures(bool_to_sl, (b,), truth),
    ensures
        matrix.row0.x == m[0][0] && matrix.row0.y == m[0][1] && matrix.row0.z == m[0][2]
            && matrix.row0.w == m[0][3],
        matrix.row1.x == m[1][0] && matrix.row1.y == m[1][1] && matrix.row1.z == m[1][2]
            && matrix.row1.w == m[1][3],
        matrix.row2.x == m[2][0] && matrix.row2.y == m[2][1] && matrix.row2.z == m[2][2]
            && matrix.row2.w == m[2][3],
        matrix.row3.x == m[3][0] && matrix.row3.y == m[3][1] && matrix.row3.z == m[3][2]
            && matrix.row3.w == m[3][3],
        truth == Boolean::True <==> b,
        truth == Boolean::False <==> !b,
{
}

/// Each format has the number that DXGI gives it, and no other format has it but for the two depth
/// formats that share one.
pub proof fn formats_have_their_dxgi_numbers(format: TextureFormat, number: u32)
    requires
        call_ensures(dxgi_format_of, (format,), number),
    ensures
        number == 87 <==> format == TextureFormat::Bgra8Unorm,
        number == 91 <==> format == TextureFormat::Bgra8UnormSrgb,
        number == 28 <==> format == TextureFormat::Rgba8Unorm,
        number == 29 <==> format == TextureFormat::Rgba8UnormSrgb,
        number == 10 <==> format == TextureFormat::Rgba16Float,
        number == 24 <==> format == TextureFormat::Rgb10a2Unorm,
        number == 41 <==> format == TextureFormat::R32Float,
        number == 40 <==> format == TextureFormat::Depth32Float,
        number == 45 <==> format == TextureFormat::Depth24Plus || format
            == TextureFormat::Depth24PlusStencil8,
        number == 34 <==> format == TextureFormat::Rg16Float,
        number == 16 <==> format == TextureFormat::Rg32Float,
        number == 61 <==> format == TextureFormat::R8Unorm,
        number == 54 <==> format == TextureFormat::R16Float,
        number == 0 <==> format == TextureFormat::Other,
{
}

/// A resource is the texture it was made of, in the state that pixel shaders read unless another is
/// given; giving one changes nothing else.
pub proof fn resources_keep_their_texture(
    native: Option<u64>,
    size: UVec2,
    format: TextureFormat,
    made: FgResource,
    resource: FgResource,
    state: u32,
    moved: FgResource,
    dimensions: UVec2,
    number: u32,
    same_number: u32,
)
    requires
        call_ensures(FgResource::new, (native, size, format), made),
        call_ensures(FgResource::with_resource_state, (resource, state), moved),
        call_ensures(FgResource::dimensions, (&resource,), dimensions),
        call_ensures(FgResource::native_format, (&resource,), number),
        call_ensures(dxgi_format_of, (resource.format,), same_number),
    ensures
        made.resource == native && made.size == size && made.format == format,
        made.resource_state == 0x80,
        moved.resource_state == state,
        moved.resource == resource.resource && moved.size == resource.size && moved.format
            == resource.format,
        dimensions == resource.size,
        number == same_number,
{
}

/// Whether `pairs` are the textures of `resources` with what each of them holds: depth, motion
/// vectors, color without the user interface where there is any, and the user interface where there
/// is one, by its kind.
pub open spec fn are_paired(resources: FgResources, pairs: Seq<(FgResource, u32)>) -> bool {
    let hudless: int = if resources.hudless_color is Some {
        1
    } else {
        0
    };
    &&& pairs.len() == 2 + hudless + (if resources.ui is Some {
        1int
    } else {
        0
    })
    &&& pairs[0] == (resources.depth, 0u32)
    &&& pairs[1] == (resources.motion_vectors, 1u32)
    &&& resources.hudless_color matches Some(color) ==> pairs[2] == (color, 2u32)
    &&& resources.ui matches Some(FgUi::ColorAndAlpha(layer)) ==> pairs[2 + hudless] == (
        layer,
        23u32,
    )
    &&& resources.ui matches Some(FgUi::Alpha(layer)) ==> pairs[2 + hudless] == (layer, 68u32)
}

/// Every texture is tagged with what it holds.
pub proof fn textures_are_tagged_with_what_they_hold(
    resources: FgResources,
    pairs: Vec<(FgResource, u32)>,
    ui: FgUi,
    kind: UiTagKind,
    has_hudless: bool,
    ui_kind: Option<UiTagKind>,
    types: Vec<u32>,
)
    requires
        call_ensures(FgResources::tags, (&resources,), pairs),
        call_ensures(UiTagKind::of, (&ui,), kind),
        call_ensures(tag_buffer_types, (has_hudless, ui_kind), types),
    ensures
        are_paired(resources, pairs@),
        kind == UiTagKind::ColorAndAlpha <==> ui is ColorAndAlpha,
        kind == UiTagKind::Alpha <==> ui is Alpha,
        types.len() >= 2 && types[0] == 0 && types[1] == 1,
        has_hudless ==> types[2] == 2,
        ui_kind == Some(UiTagKind::ColorAndAlpha) ==> types@.last() == 23,
        ui_kind == Some(UiTagKind::Alpha) ==> types@.last() == 68,
        types.len() == 2 + (if has_hudless {
            1int
        } else {
            0
        }) + (if ui_kind is Some {
            1int
        } else {
            0
        }),
{
    crate::streamline::tagging::tags_follow_the_order(resources);
}

} // verus!

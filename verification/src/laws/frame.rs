//! One generated frame.

use crate::streamline::api::{SlReply, SlRequest};
use crate::streamline::error::StreamlineError;
use crate::streamline::frame::{begin_frame_with, Frame, Step, SurfaceStatus};
use crate::streamline::result::SlResult;
use crate::streamline::tagging::{FgConstants, FgResource, FgResources, FgUi};
use crate::streamline::types::{
    Boolean, PCLMarker, ResourceLifecycle, ResourceTag, ResourceType, ViewportHandle,
};
use vstd::prelude::*;

verus! {

/// A frame begins exactly when Streamline gave it a token. It is then the frame of that token, index
/// and viewport, and Reflex sleeps before the simulation is marked as started and ended.
pub proof fn a_frame_begins_with_its_token(
    viewport: ViewportHandle,
    index: u32,
    reply: SlReply,
    outcome: Result<(Frame, Vec<SlRequest>), StreamlineError>,
)
    requires
        call_ensures(begin_frame_with, (viewport, index, reply), outcome),
    ensures
        outcome is Ok <==> reply.result == Some(SlResult::Success) && reply.address != 0,
        outcome matches Ok((frame, requests)) ==> {
            &&& frame.viewport == viewport
            &&& frame.index == index
            &&& frame.token.address == reply.address
            &&& frame.progress.step == Step::Begun
            &&& !frame.progress.presented
            &&& !frame.progress.misordered
            &&& frame.progress.order_error is None
            &&& requests.len() == 3
            &&& requests[0] == SlRequest::ReflexSleep(frame.token)
            &&& marks(requests[1], PCLMarker::SimulationStart, frame)
            &&& marks(requests[2], PCLMarker::SimulationEnd, frame)
        },
        outcome matches Err(e) ==> reports_no_token(e, reply),
{
}

/// Whether an error says why a frame got no token: what the call returned, or that it gave none.
pub open spec fn reports_no_token(e: StreamlineError, reply: SlReply) -> bool {
    match reply.result {
        Some(result) if result != SlResult::Success => e matches StreamlineError::SlCall {
            function,
            result: reported,
        } && function@ == "slGetNewFrameToken"@ && reported == result,
        _ => is_unavailable(
            e,
            1000,
            "slGetNewFrameToken"@,
            "returned eOk but a null frame token"@,
        ),
    }
}

/// Whether an error says of this function of this feature that it cannot be used, and why.
pub open spec fn is_unavailable(
    e: StreamlineError,
    feature: u32,
    function: Seq<char>,
    detail: Seq<char>,
) -> bool {
    e matches StreamlineError::FeatureFunctionUnavailable { feature: f, function: n, detail: d }
        && f == feature && n@ == function && d@ == detail
}

/// Whether a request sets the marker for the frame.
pub open spec fn marks(request: SlRequest, marker: PCLMarker, frame: Frame) -> bool {
    request == (SlRequest::SetMarker { marker, token: frame.token })
}

/// Whether a step took the frame from `before` to `after`: it is recorded as out of order exactly
/// when the frame was not at `expected`, and stays so; the frame counts as presented once it was; its
/// token, index and viewport stay.
pub open spec fn takes_step(before: Frame, after: Frame, expected: Step, to: Step) -> bool {
    &&& after.token == before.token
    &&& after.index == before.index
    &&& after.viewport == before.viewport
    &&& after.progress.step == to
    &&& after.progress.misordered <==> before.progress.misordered || before.progress.step
        != expected
    &&& after.progress.presented <==> before.progress.presented || to == Step::Presented
    &&& after.progress.order_error is Some <==> before.progress.step != expected
    &&& after.progress.order_error matches Some(e) ==> e.to == to && e.expected == expected
        && e.found == before.progress.step
}

/// Setting the constants hands each of them to Streamline under its own name and for this frame. The
/// history is reset when asked, and always on the first frame.
pub proof fn the_constants_of_a_frame_are_set(
    frame: &mut Frame,
    constants: FgConstants,
    request: SlRequest,
)
    requires
        call_ensures(Frame::set_constants, (frame, &constants), request),
    ensures
        takes_step(*old(frame), *final(frame), Step::Begun, Step::Constants),
        request matches SlRequest::SetConstants { constants: sl, token, viewport } && {
            &&& token == old(frame).token
            &&& viewport == old(frame).viewport
            &&& sl.camera_view_to_clip == constants.camera_view_to_clip
            &&& sl.clip_to_camera_view == constants.clip_to_camera_view
            &&& sl.clip_to_prev_clip == constants.clip_to_prev_clip
            &&& sl.prev_clip_to_clip == constants.prev_clip_to_clip
            &&& sl.jitter_offset.x == constants.jitter_offset.x
            &&& sl.jitter_offset.y == constants.jitter_offset.y
            &&& sl.mvec_scale.x == constants.mvec_scale.x
            &&& sl.mvec_scale.y == constants.mvec_scale.y
            &&& sl.reset == Boolean::True <==> constants.reset || old(frame).index == 0
            &&& sl.reset == Boolean::False <==> !constants.reset && old(frame).index != 0
            &&& sl.depth_inverted == Boolean::True <==> constants.depth_inverted
            &&& sl.depth_inverted == Boolean::False <==> !constants.depth_inverted
            &&& sl.camera_motion_included == Boolean::True <==> constants.camera_motion_included
            &&& sl.camera_motion_included == Boolean::False <==> !constants.camera_motion_included
            &&& sl.camera_near == constants.camera_near
            &&& sl.camera_far == constants.camera_far
            &&& sl.camera_fov == constants.camera_fov
            &&& sl.camera_aspect_ratio == constants.camera_aspect_ratio
        },
{
}

/// What no caller sets is handed over by a frame as it is by default.
pub proof fn a_frame_leaves_the_rest_at_its_defaults(
    frame: &mut Frame,
    constants: FgConstants,
    request: SlRequest,
)
    requires
        call_ensures(Frame::set_constants, (frame, &constants), request),
    ensures
        request matches SlRequest::SetConstants { constants: sl, .. }
            && crate::laws::constants::leaves_the_rest(sl),
{
}

/// Acquiring the back buffer marks the start of rendering, and ending it marks the end, each for this
/// frame.
pub proof fn rendering_is_marked(
    acquiring: &mut Frame,
    start: SlRequest,
    ending: &mut Frame,
    end: SlRequest,
)
    requires
        call_ensures(Frame::acquire, (acquiring,), start),
        call_ensures(Frame::end_render, (ending,), end),
    ensures
        takes_step(*old(acquiring), *final(acquiring), Step::Constants, Step::Acquired),
        marks(start, PCLMarker::RenderSubmitStart, *old(acquiring)),
        takes_step(*old(ending), *final(ending), Step::Tagged, Step::RenderEnded),
        marks(end, PCLMarker::RenderSubmitEnd, *old(ending)),
{
}

/// A back buffer is acquired exactly when the surface has a texture, be it a suboptimal one, and its
/// index could be queried. The index is handed on.
pub proof fn a_back_buffer_is_acquired_with_its_index(
    frame: Frame,
    status: SurfaceStatus,
    index: Option<u32>,
    outcome: Result<u32, StreamlineError>,
)
    requires
        call_ensures(Frame::acquired, (&frame, status, index), outcome),
    ensures
        outcome is Ok <==> !(status is Unavailable) && index is Some,
        outcome matches Ok(i) ==> index == Some(i),
        status matches SurfaceStatus::Unavailable(shown) ==> (outcome matches Err(
            StreamlineError::SurfaceUnavailable { status: s },
        ) && s@ == shown@),
        !(status is Unavailable) && index is None ==> outcome is Err && is_unavailable(
            outcome->Err_0,
            1000,
            "IDXGISwapChain3::GetCurrentBackBufferIndex"@,
            "the surface is not a configured Dx12 surface (cannot perform the per-frame GetCurrentBackBufferIndex call DLSS-G requires)"@,
        ),
{
}

/// Whether a tag says of a texture what it holds and what it is, until the frame is presented.
pub open spec fn tags_texture(tag: ResourceTag, texture: FgResource, holds: u32) -> bool {
    &&& tag.buffer_type == holds
    &&& tag.lifecycle == ResourceLifecycle::ValidUntilPresent
    &&& tag.extent.top == 0 && tag.extent.left == 0 && tag.extent.width == 0 && tag.extent.height
        == 0
    &&& texture.resource == Some(tag.resource.native)
    &&& tag.resource.resource_type == ResourceType::Tex2d
    &&& tag.resource.state == texture.resource_state
    &&& tag.resource.width == texture.size.x
    &&& tag.resource.height == texture.size.y
    &&& tag.resource.native_format == texture.format.dxgi()
    &&& tag.resource.mip_levels == 1
    &&& tag.resource.array_layers == 1
    &&& tag.resource.memory == 0 && tag.resource.view == 0 && tag.resource.gpu_virtual_address == 0
    &&& tag.resource.flags == 0 && tag.resource.usage == 0 && tag.resource.reserved == 0
    &&& crate::laws::structures::heads_resource(tag.resource.base, 1)
    &&& crate::laws::structures::heads_resource_tag(tag.base, 1)
}

/// Whether each texture has a D3D12 resource.
pub open spec fn have_resources(resources: FgResources) -> bool {
    &&& resources.depth.resource is Some
    &&& resources.motion_vectors.resource is Some
    &&& resources.hudless_color matches Some(color) ==> color.resource is Some
    &&& resources.ui matches Some(FgUi::ColorAndAlpha(layer)) ==> layer.resource is Some
    &&& resources.ui matches Some(FgUi::Alpha(layer)) ==> layer.resource is Some
}

/// The resources are tagged exactly when each of them has a D3D12 resource and the encoder is open.
/// Each texture is then tagged for this frame with what it holds. Where they cannot be tagged, the
/// frame does not move.
pub proof fn the_resources_of_a_frame_are_tagged(
    frame: &mut Frame,
    resources: FgResources,
    encoder_is_open: bool,
    outcome: Result<SlRequest, StreamlineError>,
)
    requires
        call_ensures(Frame::tag, (frame, &resources, encoder_is_open), outcome),
    ensures
        outcome is Ok <==> encoder_is_open && have_resources(resources),
        outcome is Ok ==> takes_step(*old(frame), *final(frame), Step::Acquired, Step::Tagged),
        outcome is Err ==> *final(frame) == *old(frame),
        outcome matches Err(e) ==> is_unavailable(
            e,
            1000,
            "slSetTagForFrame"@,
            if have_resources(resources) {
                "the tagging encoder is not a Dx12 encoder with an open command list"@
            } else {
                "a tagged FgResource is not a Dx12 texture"@
            },
        ),
        outcome matches Ok(request) ==> (request matches SlRequest::SetTagForFrame {
            tags,
            token,
            viewport,
        } && {
            let hudless: int = if resources.hudless_color is Some {
                1
            } else {
                0
            };
            &&& token == old(frame).token
            &&& viewport == old(frame).viewport
            &&& tags.len() == 2 + hudless + (if resources.ui is Some {
                1int
            } else {
                0
            })
            &&& tags_texture(tags[0], resources.depth, 0)
            &&& tags_texture(tags[1], resources.motion_vectors, 1)
            &&& resources.hudless_color matches Some(color) ==> tags_texture(tags[2], color, 2)
            &&& resources.ui matches Some(FgUi::ColorAndAlpha(layer)) ==> tags_texture(
                tags[2 + hudless],
                layer,
                23,
            )
            &&& resources.ui matches Some(FgUi::Alpha(layer)) ==> tags_texture(
                tags[2 + hudless],
                layer,
                68,
            )
        }),
{
    let tagged = resources.tagged();
    let hudless: int = if resources.hudless_color is Some {
        1
    } else {
        0
    };
    assert(tagged[0] == resources.depth);
    assert(tagged[1] == resources.motion_vectors);
    if let Some(color) = resources.hudless_color {
        assert(tagged[2] == color);
    }
    if let Some(ui) = resources.ui {
        assert(tagged[2 + hudless] == ui.layer());
    }
    if let Ok(SlRequest::SetTagForFrame { tags, token, viewport }) = outcome {
        assert(Frame::tags_resource(resources, 0, tags[0]));
        assert(Frame::tags_resource(resources, 1, tags[1]));
        if resources.hudless_color is Some {
            assert(Frame::tags_resource(resources, 2, tags[2]));
        }
        if resources.ui is Some {
            assert(Frame::tags_resource(resources, 2 + hudless, tags[2 + hudless]));
        }
    }
}

/// Tags that are already built are set as they are, for this frame.
pub proof fn built_tags_are_set_as_they_are(
    frame: &mut Frame,
    tags: Vec<ResourceTag>,
    request: SlRequest,
)
    requires
        call_ensures(Frame::tag_core, (frame, tags), request),
    ensures
        takes_step(*old(frame), *final(frame), Step::Acquired, Step::Tagged),
        request == (SlRequest::SetTagForFrame {
            tags,
            token: old(frame).token,
            viewport: old(frame).viewport,
        }),
{
}

/// The back buffer is presented between the two markers of the presentation. A frame that is dropped
/// is reported exactly when it was not presented.
pub proof fn a_frame_is_presented_between_its_markers(
    frame: &mut Frame,
    requests: Vec<SlRequest>,
    dropped: Frame,
    report: Option<String>,
    index: u32,
)
    requires
        call_ensures(Frame::present, (frame,), requests),
        call_ensures(Frame::dropped, (&dropped,), report),
        call_ensures(Frame::frame_index, (&dropped,), index),
    ensures
        takes_step(*old(frame), *final(frame), Step::RenderEnded, Step::Presented),
        requests.len() == 3,
        marks(requests[0], PCLMarker::PresentStart, *old(frame)),
        requests[1] == SlRequest::Present,
        marks(requests[2], PCLMarker::PresentEnd, *old(frame)),
        report is None <==> dropped.progress.presented,
        index == dropped.index,
{
}

/// A call of a frame succeeds exactly when Streamline says so, and otherwise reports the function and
/// what it returned.
pub proof fn calls_of_a_frame_report_what_streamline_returned(
    frame: Frame,
    result: SlResult,
    constants_set: Result<(), StreamlineError>,
    tagged: Result<(), StreamlineError>,
)
    requires
        call_ensures(Frame::constants_set, (&frame, result), constants_set),
        call_ensures(Frame::tagged, (&frame, result), tagged),
    ensures
        constants_set is Ok <==> result == SlResult::Success,
        constants_set matches Err(e) ==> (e matches StreamlineError::SlCall {
            function,
            result: reported,
        } && function@ == "slSetConstants"@ && reported == result),
        tagged is Ok <==> result == SlResult::Success,
        tagged matches Err(e) ==> (e matches StreamlineError::SlCall {
            function,
            result: reported,
        } && function@ == "slSetTagForFrame"@ && reported == result),
{
}

} // verus!

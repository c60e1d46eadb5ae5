//! One frame of frame generation, and the order of its steps.
//!
//! A frame is driven in this order: constants, acquisition of the back buffer, tagging, the end of
//! rendering, presentation. A step out of order is not refused, but it is recorded: the runtime may
//! then decline to generate a frame.

use crate::streamline::api::{SlReply, SlRequest};
use crate::streamline::error::StreamlineError;
use crate::streamline::result::SlResult;
use crate::streamline::tagging::{FgConstants, FgResources};
use crate::streamline::types::{
    Boolean, FrameToken, PCLMarker, Resource, ResourceLifecycle, ResourceTag, ViewportHandle,
    K_FEATURE_DLSS_G,
};
use crate::text::push_decimal;
use vstd::prelude::*;

verus! {

/// How far a frame has come.
#[derive(Clone, Copy, Debug, PartialEq, Eq, Structural)]
pub enum Step {
    /// The frame has begun.
    Begun,
    /// The constants are set.
    Constants,
    /// The back buffer is acquired.
    Acquired,
    /// The resources are tagged.
    Tagged,
    /// Rendering has ended.
    RenderEnded,
    /// The frame is presented.
    Presented,
}

impl Step {
    /// The name of the operation that leads to this step.
    pub open spec fn operation(self) -> &'static str {
        match self {
            Step::Begun => "begin_frame",
            Step::Constants => "set_constants",
            Step::Acquired => "acquire",
            Step::Tagged => "tag",
            Step::RenderEnded => "end_render",
            Step::Presented => "present",
        }
    }

    /// The name of the step.
    pub open spec fn name(self) -> &'static str {
        match self {
            Step::Begun => "Begun",
            Step::Constants => "Constants",
            Step::Acquired => "Acquired",
            Step::Tagged => "Tagged",
            Step::RenderEnded => "RenderEnded",
            Step::Presented => "Presented",
        }
    }

    /// The step that must come directly before this one.
    pub open spec fn predecessor(self) -> Step {
        match self {
            Step::Begun => Step::Begun,
            Step::Constants => Step::Begun,
            Step::Acquired => Step::Constants,
            Step::Tagged => Step::Acquired,
            Step::RenderEnded => Step::Tagged,
            Step::Presented => Step::RenderEnded,
        }
    }

    /// The name of the operation that leads to this step.
    pub fn label(self) -> (r: &'static str)
        ensures
            r == self.operation(),
    {
        match self {
            Step::Begun => "begin_frame",
            Step::Constants => "set_constants",
            Step::Acquired => "acquire",
            Step::Tagged => "tag",
            Step::RenderEnded => "end_render",
            Step::Presented => "present",
        }
    }

    fn step_name(self) -> (r: &'static str)
        ensures
            r == self.name(),
    {
        match self {
            Step::Begun => "Begun",
            Step::Constants => "Constants",
            Step::Acquired => "Acquired",
            Step::Tagged => "Tagged",
            Step::RenderEnded => "RenderEnded",
            Step::Presented => "Presented",
        }
    }
}

/// A step that was taken out of order.
#[derive(Clone, Copy, Debug, PartialEq, Eq, Structural)]
pub struct OrderError {
    /// The step that was taken.
    pub to: Step,
    /// The step that the frame should have been at.
    pub expected: Step,
    /// The step that the frame was at.
    pub found: Step,
}

impl OrderError {
    /// What the error says to a reader.
    pub open spec fn text(self) -> Seq<char> {
        "DLSS-G Frame: "@ + self.to.operation()@ + " called out of order (expected previous step "@
            + self.expected.name()@ + ", found "@ + self.found.name()@
            + "); the proven per-frame sequence was violated and DLSS-G may decline to generate"@
    }

    /// The error's description, for logs.
    pub fn message(&self) -> (r: String)
        ensures
            r@ == self.text(),
    {
        let mut out = "DLSS-G Frame: ".to_string();
        out.append(self.to.label());
        out.append(" called out of order (expected previous step ");
        out.append(self.expected.step_name());
        out.append(", found ");
        out.append(self.found.step_name());
        out.append(
            "); the proven per-frame sequence was violated and DLSS-G may decline to generate",
        );
        out
    }
}

/// The status of the surface when its texture is acquired.
#[derive(Debug, PartialEq, Eq)]
pub enum SurfaceStatus {
    /// The texture was acquired.
    Success,
    /// The texture was acquired, but the window may be occluded.
    Suboptimal,
    /// There is no texture; the status in words.
    Unavailable(String),
}

/// The progress of a frame.
#[derive(Clone, Copy, Debug, PartialEq, Eq, Structural)]
pub struct Progress {
    /// The last step that was taken.
    pub step: Step,
    /// Whether the frame was presented.
    pub presented: bool,
    /// Whether some step was taken out of order.
    pub misordered: bool,
    /// What was wrong with the order of the last step, if anything was.
    pub order_error: Option<OrderError>,
}

impl Progress {
    /// The progress of a frame that has just begun.
    pub open spec fn begun() -> Progress {
        Progress { step: Step::Begun, presented: false, misordered: false, order_error: None }
    }

    /// The progress after a step.
    pub open spec fn after(self, to: Step) -> Progress {
        let in_order = self.step == to.predecessor();
        Progress {
            step: to,
            presented: self.presented || to == Step::Presented,
            misordered: self.misordered || !in_order,
            order_error: if in_order {
                None
            } else {
                Some(OrderError { to, expected: to.predecessor(), found: self.step })
            },
        }
    }

    /// The progress after several steps.
    pub open spec fn after_all(self, steps: Seq<Step>) -> Progress
        decreases steps.len(),
    {
        if steps.len() == 0 {
            self
        } else {
            self.after_all(steps.drop_last()).after(steps.last())
        }
    }
}

/// The steps of a frame, in order.
pub open spec fn proper_order() -> Seq<Step> {
    seq![Step::Constants, Step::Acquired, Step::Tagged, Step::RenderEnded, Step::Presented]
}

/// Whether the steps are the proper ones up to some point.
pub open spec fn is_proper(steps: Seq<Step>) -> bool {
    steps.len() <= 5 && steps == proper_order().take(steps.len() as int)
}

/// A frame is recorded as out of order exactly when its steps are not the proper ones in their
/// order. (A frame that has begun does not begin again.)
pub proof fn misordered_exactly_when_out_of_order(steps: Seq<Step>)
    requires
        forall|i: int| 0 <= i < steps.len() ==> #[trigger] steps[i] != Step::Begun,
    ensures
        Progress::begun().after_all(steps).misordered <==> !is_proper(steps),
        is_proper(steps) ==> Progress::begun().after_all(steps).step == (if steps.len() == 0 {
            Step::Begun
        } else {
            proper_order()[steps.len() - 1]
        }),
    decreases steps.len(),
{
    let order = proper_order();
    if steps.len() == 0 {
        assert(steps =~= order.take(0));
    } else {
        let before = steps.drop_last();
        assert forall|i: int| 0 <= i < before.len() implies #[trigger] before[i]
            != Step::Begun by {
            assert(steps[i] != Step::Begun);
        }
        misordered_exactly_when_out_of_order(before);
        let last = steps.last();
        assert(last == steps[steps.len() - 1]);
        assert(last != Step::Begun);
        let n = before.len() as int;
        if is_proper(steps) {
            assert(before =~= order.take(n));
            assert(last == order[n]);
        } else if is_proper(before) {
            if n < 5 && last == order[n] {
                assert(steps =~= before.push(last));
                assert(steps =~= order.take(n + 1));
            }
        }
    }
}

/// A frame counts as presented once it was presented, and not before.
pub proof fn presented_exactly_when_presented(steps: Seq<Step>)
    ensures
        Progress::begun().after_all(steps).presented <==> steps.contains(Step::Presented),
    decreases steps.len(),
{
    if steps.len() > 0 {
        let before = steps.drop_last();
        presented_exactly_when_presented(before);
        if before.contains(Step::Presented) {
            let i = choose|i: int| 0 <= i < before.len() && before[i] == Step::Presented;
            assert(steps[i] == Step::Presented);
        }
        if steps.last() == Step::Presented {
            assert(steps[steps.len() - 1] == Step::Presented);
        }
        if steps.contains(Step::Presented) && steps.last() != Step::Presented {
            let i = choose|i: int| 0 <= i < steps.len() && steps[i] == Step::Presented;
            assert(before[i] == Step::Presented);
        }
    }
}

/// One frame in flight. It must be driven to its end and dropped within the frame it was begun for:
/// its token is only valid for that frame.
#[derive(Clone, Copy, Debug, PartialEq, Eq)]
pub struct Frame {
    /// The viewport.
    pub viewport: ViewportHandle,
    /// The token of the frame.
    pub token: FrameToken,
    /// The index that the frame was begun for.
    pub index: u32,
    /// How far it has come.
    pub progress: Progress,
}

/// What a call of a frame is, apart from the values it carries.
pub enum CallKind {
    GetNewFrameToken,
    ReflexSleep,
    SetMarker(PCLMarker),
    SetConstants,
    SetTagForFrame,
    Present,
    Other,
}

/// What a request is, apart from the values it carries.
pub open spec fn kind_of(request: SlRequest) -> CallKind {
    match request {
        SlRequest::GetNewFrameToken(_) => CallKind::GetNewFrameToken,
        SlRequest::ReflexSleep(_) => CallKind::ReflexSleep,
        SlRequest::SetMarker { marker, .. } => CallKind::SetMarker(marker),
        SlRequest::SetConstants { .. } => CallKind::SetConstants,
        SlRequest::SetTagForFrame { .. } => CallKind::SetTagForFrame,
        SlRequest::Present => CallKind::Present,
        _ => CallKind::Other,
    }
}

/// What the requests are, apart from the values they carry.
pub open spec fn kinds_of(requests: Seq<SlRequest>) -> Seq<CallKind> {
    requests.map_values(|request: SlRequest| kind_of(request))
}

/// The calls that a step makes. (The call that gets the token comes before the frame has begun.)
pub open spec fn calls_of(step: Step) -> Seq<CallKind> {
    match step {
        Step::Begun => seq![
            CallKind::ReflexSleep,
            CallKind::SetMarker(PCLMarker::SimulationStart),
            CallKind::SetMarker(PCLMarker::SimulationEnd),
        ],
        Step::Constants => seq![CallKind::SetConstants],
        Step::Acquired => seq![CallKind::SetMarker(PCLMarker::RenderSubmitStart)],
        Step::Tagged => seq![CallKind::SetTagForFrame],
        Step::RenderEnded => seq![CallKind::SetMarker(PCLMarker::RenderSubmitEnd)],
        Step::Presented => seq![
            CallKind::SetMarker(PCLMarker::PresentStart),
            CallKind::Present,
            CallKind::SetMarker(PCLMarker::PresentEnd),
        ],
    }
}

/// The calls that several steps make.
pub open spec fn calls_of_all(steps: Seq<Step>) -> Seq<CallKind>
    decreases steps.len(),
{
    if steps.len() == 0 {
        Seq::empty()
    } else {
        calls_of_all(steps.drop_last()) + calls_of(steps.last())
    }
}

/// A frame that is driven to its end in the proper order makes exactly these calls, in this order.
pub proof fn an_ordered_frame_makes_these_calls()
    ensures
        calls_of(Step::Begun) + calls_of_all(proper_order()) == seq![
            CallKind::ReflexSleep,
            CallKind::SetMarker(PCLMarker::SimulationStart),
            CallKind::SetMarker(PCLMarker::SimulationEnd),
            CallKind::SetConstants,
            CallKind::SetMarker(PCLMarker::RenderSubmitStart),
            CallKind::SetTagForFrame,
            CallKind::SetMarker(PCLMarker::RenderSubmitEnd),
            CallKind::SetMarker(PCLMarker::PresentStart),
            CallKind::Present,
            CallKind::SetMarker(PCLMarker::PresentEnd),
        ],
{
    reveal_with_fuel(calls_of_all, 6);
    let five = proper_order();
    let four = five.drop_last();
    let three = four.drop_last();
    let two = three.drop_last();
    let one = two.drop_last();
    assert(one.drop_last().len() == 0);
    assert(one.last() == Step::Constants);
    assert(two.last() == Step::Acquired);
    assert(three.last() == Step::Tagged);
    assert(four.last() == Step::RenderEnded);
    assert(five.last() == Step::Presented);
}

/// The request to set a marker.
pub open spec fn marker_request(marker: PCLMarker, token: FrameToken) -> SlRequest {
    SlRequest::SetMarker { marker, token }
}

/// The error for a failed call.
pub open spec fn call_error(
    function: Seq<char>,
    result: SlResult,
) -> crate::streamline::error::StreamlineErrorView {
    crate::streamline::error::StreamlineErrorView::SlCall { function, result }
}

/// What comes of a call: nothing, or the error that it failed.
pub(crate) fn check_call(function: &str, result: SlResult) -> (r: Result<(), StreamlineError>)
    ensures
        match r {
            Ok(()) => result == SlResult::Success,
            Err(e) => result != SlResult::Success && e@ == call_error(function@, result),
        },
{
    if result.is_ok() {
        Ok(())
    } else {
        Err(StreamlineError::SlCall { function: function.to_string(), result })
    }
}

/// The report of a token that is null although the call succeeded.
pub const NULL_TOKEN_TEXT: &'static str = "returned eOk but a null frame token";

/// The report of a tagged texture without a D3D12 resource.
pub const NOT_A_DX12_TEXTURE_TEXT: &'static str = "a tagged FgResource is not a Dx12 texture";

/// The report of an encoder without an open D3D12 command list.
pub const NO_COMMAND_LIST_TEXT: &'static str =
    "the tagging encoder is not a Dx12 encoder with an open command list";

/// The report of a surface whose back buffer index cannot be queried.
pub const NO_BACK_BUFFER_INDEX_TEXT: &'static str =
    "the surface is not a configured Dx12 surface (cannot perform the per-frame GetCurrentBackBufferIndex call DLSS-G requires)";

/// The query that each frame must make of its swapchain.
pub const BACK_BUFFER_INDEX_FUNCTION: &'static str = "IDXGISwapChain3::GetCurrentBackBufferIndex";

/// The error for a frame without a token: the call failed, or it gave none.
pub open spec fn token_error(reply: SlReply) -> crate::streamline::error::StreamlineErrorView {
    match reply.result {
        Some(result) if result != SlResult::Success => call_error("slGetNewFrameToken"@, result),
        _ => crate::streamline::ffi::unavailable(
            K_FEATURE_DLSS_G,
            "slGetNewFrameToken"@,
            NULL_TOKEN_TEXT@,
        ),
    }
}

/// Takes the token of a new frame and begins it: Reflex sleeps, and the simulation is marked as
/// started and ended. A call that could not be made counts as one that gave no token.
pub fn begin_frame_with(viewport: ViewportHandle, frame_index: u32, reply: SlReply) -> (r: Result<
    (Frame, Vec<SlRequest>),
    StreamlineError,
>)
    ensures
        r is Ok <==> reply.result == Some(SlResult::Success) && reply.address != 0,
        r matches Ok((frame, requests)) ==> {
            let token = FrameToken { address: reply.address };
            &&& frame == (Frame {
                viewport,
                token,
                index: frame_index,
                progress: Progress::begun(),
            })
            &&& requests@ == seq![
                SlRequest::ReflexSleep(token),
                marker_request(PCLMarker::SimulationStart, token),
                marker_request(PCLMarker::SimulationEnd, token),
            ]
            &&& kinds_of(requests@) == calls_of(Step::Begun)
        },
        r matches Err(e) ==> e@ == token_error(reply),
{
    if let Some(result) = reply.result {
        if let Err(e) = check_call("slGetNewFrameToken", result) {
            return Err(e);
        }
    }
    if reply.result.is_none() || reply.address == 0 {
        return Err(
            StreamlineError::FeatureFunctionUnavailable {
                feature: K_FEATURE_DLSS_G,
                function: "slGetNewFrameToken".to_string(),
                detail: NULL_TOKEN_TEXT.to_string(),
            },
        );
    }
    let token = FrameToken { address: reply.address };
    let progress = Progress {
        step: Step::Begun,
        presented: false,
        misordered: false,
        order_error: None,
    };
    let mut requests: Vec<SlRequest> = Vec::new();
    requests.push(SlRequest::ReflexSleep(token));
    requests.push(SlRequest::SetMarker { marker: PCLMarker::SimulationStart, token });
    requests.push(SlRequest::SetMarker { marker: PCLMarker::SimulationEnd, token });
    Ok((Frame { viewport, token, index: frame_index, progress }, requests))
}

impl Frame {
    /// Whether nothing but the progress of the frame differs.
    pub open spec fn is_same_frame(self, other: Frame) -> bool {
        self.viewport == other.viewport && self.token == other.token && self.index == other.index
    }

    /// Takes a step, which should come directly after `expected`.
    fn advance(&mut self, expected: Step, to: Step)
        requires
            expected == to.predecessor(),
        ensures
            final(self).is_same_frame(*old(self)),
            final(self).progress == old(self).progress.after(to),
    {
        let found = self.progress.step;
        let order_error = if found == expected {
            None
        } else {
            Some(OrderError { to, expected, found })
        };
        self.progress = Progress {
            step: to,
            presented: self.progress.presented || to == Step::Presented,
            misordered: self.progress.misordered || found != expected,
            order_error,
        };
    }

    /// The index that the frame was begun for.
    pub fn frame_index(&self) -> (r: u32)
        ensures
            r == self.index,
    {
        self.index
    }

    /// Whether `request` sets these constants for this frame. On frame zero the history is reset in
    /// any case: there is no previous frame to reproject from.
    pub open spec fn sets_constants(self, constants: FgConstants, request: SlRequest) -> bool {
        request matches SlRequest::SetConstants { constants: sl, token, viewport } && {
            &&& (FgConstants {
                reset: constants.reset || self.index == 0,
                ..constants
            }).carried_by(sl)
            &&& token == self.token
            &&& viewport == self.viewport
        }
    }

    /// Sets the constants of the frame. The reply goes to [`Frame::constants_set`].
    pub fn set_constants(&mut self, constants: &FgConstants) -> (r: SlRequest)
        ensures
            final(self).is_same_frame(*old(self)),
            final(self).progress == old(self).progress.after(Step::Constants),
            old(self).sets_constants(*constants, r),
            r matches SlRequest::SetConstants { constants: sl, token, viewport } && {
                &&& token == old(self).token
                &&& viewport == old(self).viewport
                &&& sl.camera_view_to_clip == constants.camera_view_to_clip
                &&& sl.clip_to_camera_view == constants.clip_to_camera_view
                &&& sl.clip_to_prev_clip == constants.clip_to_prev_clip
                &&& sl.prev_clip_to_clip == constants.prev_clip_to_clip
                &&& sl.jitter_offset.x == constants.jitter_offset.x
                &&& sl.jitter_offset.y == constants.jitter_offset.y
                &&& sl.mvec_scale.x == constants.mvec_scale.x
                &&& sl.mvec_scale.y == constants.mvec_scale.y
                &&& sl.camera_near == constants.camera_near
                &&& sl.camera_far == constants.camera_far
                &&& sl.camera_fov == constants.camera_fov
                &&& sl.camera_aspect_ratio == constants.camera_aspect_ratio
                &&& sl.depth_inverted == Boolean::True <==> constants.depth_inverted
                &&& sl.depth_inverted == Boolean::False <==> !constants.depth_inverted
                &&& sl.camera_motion_included == Boolean::True <==> constants.camera_motion_included
                &&& sl.camera_motion_included == Boolean::False <==> !constants.camera_motion_included
                &&& sl.reset == Boolean::True <==> constants.reset || old(self).index == 0
                &&& sl.reset == Boolean::False <==> !constants.reset && old(self).index != 0
            },
            seq![kind_of(r)] == calls_of(Step::Constants),
    {
        self.advance(Step::Begun, Step::Constants);
        let mut sl = constants.to_sl();
        if self.index == 0 {
            sl.reset = Boolean::True;
        }
        SlRequest::SetConstants { constants: sl, token: self.token, viewport: self.viewport }
    }

    /// What comes of setting the constants.
    pub fn constants_set(&self, result: SlResult) -> (r: Result<(), StreamlineError>)
        ensures
            match r {
                Ok(()) => result == SlResult::Success,
                Err(e) => result != SlResult::Success && e@ == call_error(
                    "slSetConstants"@,
                    result,
                ),
            },
    {
        check_call("slSetConstants", result)
    }

    /// Starts the acquisition of the back buffer: rendering is marked as started. The texture of the
    /// surface and the index of the back buffer go to [`Frame::acquired`].
    pub fn acquire(&mut self) -> (r: SlRequest)
        ensures
            final(self).is_same_frame(*old(self)),
            final(self).progress == old(self).progress.after(Step::Acquired),
            r == marker_request(PCLMarker::RenderSubmitStart, old(self).token),
            seq![kind_of(r)] == calls_of(Step::Acquired),
    {
        self.advance(Step::Constants, Step::Acquired);
        SlRequest::SetMarker { marker: PCLMarker::RenderSubmitStart, token: self.token }
    }

    /// What comes of the acquisition: the index of the back buffer. Frame generation needs it to be
    /// queried every frame, so an acquisition without it fails. A suboptimal surface is passed
    /// through.
    pub fn acquired(&self, status: SurfaceStatus, back_buffer_index: Option<u32>) -> (r: Result<
        u32,
        StreamlineError,
    >)
        ensures
            match status {
                SurfaceStatus::Unavailable(shown) => r matches Err(
                    StreamlineError::SurfaceUnavailable { status: s },
                ) && s == shown,
                _ => match back_buffer_index {
                    Some(index) => r == Ok::<u32, StreamlineError>(index),
                    None => r matches Err(e) && e@ == crate::streamline::ffi::unavailable(
                        K_FEATURE_DLSS_G,
                        BACK_BUFFER_INDEX_FUNCTION@,
                        NO_BACK_BUFFER_INDEX_TEXT@,
                    ),
                },
            },
    {
        if let SurfaceStatus::Unavailable(status) = status {
            return Err(StreamlineError::SurfaceUnavailable { status });
        }
        match back_buffer_index {
            Some(index) => Ok(index),
            None => Err(
                StreamlineError::FeatureFunctionUnavailable {
                    feature: K_FEATURE_DLSS_G,
                    function: BACK_BUFFER_INDEX_FUNCTION.to_string(),
                    detail: NO_BACK_BUFFER_INDEX_TEXT.to_string(),
                },
            ),
        }
    }

    /// Whether `tag` tags the `i`-th of the resources, valid until the frame is presented.
    pub open spec fn tags_resource(resources: FgResources, i: int, tag: ResourceTag) -> bool {
        let resource = resources.tagged()[i];
        &&& tag.tags(tag.resource, resources.buffer_types()[i], ResourceLifecycle::ValidUntilPresent)
        &&& tag.resource.is_tex2d(
            resource.resource->0,
            resource.resource_state,
            resource.size.x,
            resource.size.y,
            resource.format.dxgi(),
        )
    }

    /// Whether every tagged texture has a D3D12 resource.
    pub open spec fn all_are_dx12(resources: FgResources) -> bool {
        forall|i: int|
            0 <= i < resources.tagged().len() ==> (#[trigger] resources.tagged()[i]).resource
                is Some
    }

    /// The error for tags that cannot be set.
    pub open spec fn tag_error(
        detail: Seq<char>,
    ) -> crate::streamline::error::StreamlineErrorView {
        crate::streamline::ffi::unavailable(K_FEATURE_DLSS_G, "slSetTagForFrame"@, detail)
    }

    /// The tags of the resources, in order, unless one of them has no D3D12 resource.
    fn build_tags(resources: &FgResources) -> (r: Result<Vec<ResourceTag>, StreamlineError>)
        ensures
            r is Ok <==> Frame::all_are_dx12(*resources),
            r matches Ok(tags) ==> tags.len() == resources.tagged().len() && forall|i: int|
                0 <= i < tags.len() ==> Frame::tags_resource(*resources, i, #[trigger] tags[i]),
            r matches Err(e) ==> e@ == Frame::tag_error(NOT_A_DX12_TEXTURE_TEXT@),
    {
        let pairs = resources.tags();
        let mut tags: Vec<ResourceTag> = Vec::new();
        let mut i: usize = 0;
        while i < pairs.len()
            invariant
                i <= pairs.len(),
                pairs.len() == resources.tagged().len(),
                forall|j: int|
                    0 <= j < pairs.len() ==> #[trigger] pairs[j] == (
                        resources.tagged()[j],
                        resources.buffer_types()[j],
                    ),
                tags.len() == i,
                forall|j: int|
                    0 <= j < i ==> (#[trigger] resources.tagged()[j]).resource is Some,
                forall|j: int| 0 <= j < i ==> Frame::tags_resource(*resources, j, #[trigger] tags[j]),
            decreases pairs.len() - i,
        {
            let (resource, buffer_type) = pairs[i];
            let native = match resource.resource {
                Some(native) => native,
                None => {
                    assert(resources.tagged()[i as int].resource is None);
                    return Err(
                        StreamlineError::FeatureFunctionUnavailable {
                            feature: K_FEATURE_DLSS_G,
                            function: "slSetTagForFrame".to_string(),
                            detail: NOT_A_DX12_TEXTURE_TEXT.to_string(),
                        },
                    );
                },
            };
            let size = resource.dimensions();
            let sl_resource = Resource::new_tex2d(
                native,
                resource.resource_state,
                size.x,
                size.y,
                resource.native_format(),
            );
            tags.push(
                ResourceTag::new(sl_resource, buffer_type, ResourceLifecycle::ValidUntilPresent),
            );
            i = i + 1;
        }
        Ok(tags)
    }

    /// Sets tags that are already built.
    pub fn tag_core(&mut self, tags: Vec<ResourceTag>) -> (r: SlRequest)
        ensures
            final(self).is_same_frame(*old(self)),
            final(self).progress == old(self).progress.after(Step::Tagged),
            r == (SlRequest::SetTagForFrame {
                tags,
                token: old(self).token,
                viewport: old(self).viewport,
            }),
            seq![kind_of(r)] == calls_of(Step::Tagged),
    {
        self.advance(Step::Acquired, Step::Tagged);
        SlRequest::SetTagForFrame { tags, token: self.token, viewport: self.viewport }
    }

    /// Whether `request` tags these resources for this frame, in order.
    pub open spec fn sets_tags(self, resources: FgResources, request: SlRequest) -> bool {
        request matches SlRequest::SetTagForFrame { tags, token, viewport } && {
            &&& token == self.token
            &&& viewport == self.viewport
            &&& tags.len() == resources.tagged().len()
            &&& forall|i: int|
                0 <= i < tags.len() ==> Frame::tags_resource(resources, i, #[trigger] tags[i])
        }
    }

    /// Tags the resources of the frame: depth, motion vectors and, where there are any, color
    /// without the user interface and the user interface. `encoder_is_open` says whether the
    /// dedicated encoder has an open D3D12 command list. The reply goes to [`Frame::tagged`].
    ///
    /// Where the resources cannot be tagged, the frame does not take the step.
    pub fn tag(&mut self, resources: &FgResources, encoder_is_open: bool) -> (r: Result<
        SlRequest,
        StreamlineError,
    >)
        ensures
            final(self).is_same_frame(*old(self)),
            r is Ok <==> Frame::all_are_dx12(*resources) && encoder_is_open,
            r matches Ok(request) ==> old(self).sets_tags(*resources, request)
                && final(self).progress == old(self).progress.after(Step::Tagged),
            r matches Err(e) ==> final(self).progress == old(self).progress && e@
                == Frame::tag_error(
                if Frame::all_are_dx12(*resources) {
                    NO_COMMAND_LIST_TEXT@
                } else {
                    NOT_A_DX12_TEXTURE_TEXT@
                },
            ),
    {
        match Frame::build_tags(resources) {
            Err(e) => Err(e),
            Ok(tags) => {
                if encoder_is_open {
                    Ok(self.tag_core(tags))
                } else {
                    Err(
                        StreamlineError::FeatureFunctionUnavailable {
                            feature: K_FEATURE_DLSS_G,
                            function: "slSetTagForFrame".to_string(),
                            detail: NO_COMMAND_LIST_TEXT.to_string(),
                        },
                    )
                }
            },
        }
    }

    /// What comes of tagging.
    pub fn tagged(&self, result: SlResult) -> (r: Result<(), StreamlineError>)
        ensures
            match r {
                Ok(()) => result == SlResult::Success,
                Err(e) => result != SlResult::Success && e@ == call_error(
                    "slSetTagForFrame"@,
                    result,
                ),
            },
    {
        check_call("slSetTagForFrame", result)
    }

    /// Ends rendering, just after the frame's command buffers were submitted.
    pub fn end_render(&mut self) -> (r: SlRequest)
        ensures
            final(self).is_same_frame(*old(self)),
            final(self).progress == old(self).progress.after(Step::RenderEnded),
            r == marker_request(PCLMarker::RenderSubmitEnd, old(self).token),
            seq![kind_of(r)] == calls_of(Step::RenderEnded),
    {
        self.advance(Step::Tagged, Step::RenderEnded);
        SlRequest::SetMarker { marker: PCLMarker::RenderSubmitEnd, token: self.token }
    }

    /// Presents the frame, between the two markers of the presentation. This is the last step.
    pub fn present(&mut self) -> (r: Vec<SlRequest>)
        ensures
            final(self).is_same_frame(*old(self)),
            final(self).progress == old(self).progress.after(Step::Presented),
            r@ == seq![
                marker_request(PCLMarker::PresentStart, old(self).token),
                SlRequest::Present,
                marker_request(PCLMarker::PresentEnd, old(self).token),
            ],
            kinds_of(r@) == calls_of(Step::Presented),
    {
        self.advance(Step::RenderEnded, Step::Presented);
        let mut requests: Vec<SlRequest> = Vec::new();
        requests.push(SlRequest::SetMarker { marker: PCLMarker::PresentStart, token: self.token });
        requests.push(SlRequest::Present);
        requests.push(SlRequest::SetMarker { marker: PCLMarker::PresentEnd, token: self.token });
        requests
    }

    /// What the log says of a frame that was dropped before it was presented.
    pub open spec fn abort_text(self) -> Seq<char> {
        "DLSS-G Frame (index "@ + crate::text::decimal(self.index as nat)
            + ") was dropped before present() (last step: "@ + self.progress.step.name()@
            + "); the frame was aborted and DLSS-G saw an incomplete per-frame sequence"@
    }

    /// What to log when the frame is dropped: nothing once it was presented.
    pub fn dropped(&self) -> (r: Option<String>)
        ensures
            match r {
                None => self.progress.presented,
                Some(text) => !self.progress.presented && text@ == self.abort_text(),
            },
    {
        if self.progress.presented {
            return None;
        }
        let mut out = "DLSS-G Frame (index ".to_string();
        push_decimal(&mut out, self.index);
        out.append(") was dropped before present() (last step: ");
        out.append(self.progress.step.step_name());
        out.append("); the frame was aborted and DLSS-G saw an incomplete per-frame sequence");
        Some(out)
    }
}

/// The first frame always resets the temporal history, and a later one does so exactly when asked.
pub proof fn history_is_reset_on_the_first_frame(
    frame: Frame,
    constants: FgConstants,
    request: SlRequest,
)
    requires
        frame.sets_constants(constants, request),
    ensures
        request matches SlRequest::SetConstants { constants: sl, .. } && (sl.reset == Boolean::True
            <==> frame.index == 0 || constants.reset),
{
}

} // verus!

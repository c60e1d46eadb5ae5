//! The calls that frame generation makes to Streamline, as values.
//!
//! The functions of this library decide which calls are made and in which order; whoever holds the
//! loaded interposer makes them and hands back what they returned.

use crate::streamline::result::SlResult;
use crate::streamline::types::{
    AdapterInfo, Constants, DLSSGOptions, Feature, FrameToken, PCLMarker, Preferences,
    ReflexOptions, ResourceTag, ViewportHandle,
};
use vstd::prelude::*;

verus! {

/// A call to be made.
#[derive(Debug, PartialEq, Eq)]
pub enum SlRequest {
    /// Initialize Streamline.
    Init {
        /// What to initialize it with.
        preferences: Preferences,
        /// The version of the SDK.
        sdk_version: u64,
    },
    /// Register the D3D12 device.
    SetD3DDevice,
    /// Resolve a feature function.
    GetFeatureFunction {
        /// The feature that it belongs to.
        feature: Feature,
        /// Its name.
        name: &'static str,
    },
    /// Ask whether an adapter supports a feature.
    IsFeatureSupported {
        /// The feature.
        feature: Feature,
        /// The adapter.
        adapter: AdapterInfo,
    },
    /// Set the options of Reflex.
    ReflexSetOptions(ReflexOptions),
    /// Set the options of frame generation.
    DlssgSetOptions {
        /// The viewport.
        viewport: ViewportHandle,
        /// The options.
        options: DLSSGOptions,
    },
    /// Query the state of frame generation.
    DlssgGetState {
        /// The viewport.
        viewport: ViewportHandle,
        /// The options to query for.
        options: DLSSGOptions,
    },
    /// Get the token of a new frame.
    GetNewFrameToken(u32),
    /// Sleep until Reflex lets the frame start. A failure is not passed on.
    ReflexSleep(FrameToken),
    /// Set a latency marker. A failure is not passed on.
    SetMarker {
        /// The marker.
        marker: PCLMarker,
        /// The frame.
        token: FrameToken,
    },
    /// Set the constants of a frame.
    SetConstants {
        /// The constants.
        constants: Constants,
        /// The frame.
        token: FrameToken,
        /// The viewport.
        viewport: ViewportHandle,
    },
    /// Tag the resources of a frame, on an open command list.
    SetTagForFrame {
        /// The tags.
        tags: Vec<ResourceTag>,
        /// The frame.
        token: FrameToken,
        /// The viewport.
        viewport: ViewportHandle,
    },
    /// Present the acquired back buffer.
    Present,
    /// Wait until the GPU is idle.
    WaitForGpu,
    /// Shut Streamline down.
    Shutdown,
}

/// What a call returned.
#[derive(Clone, Copy, Debug, PartialEq, Eq, Structural)]
pub struct SlReply {
    /// The result; `None` where the call could not be made at all, because the function was never
    /// resolved or the device is not a D3D12 one.
    pub result: Option<SlResult>,
    /// The address that the call gave, if it gives one: a function or a frame token.
    pub address: u64,
}

} // verus!

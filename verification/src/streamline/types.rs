//! The Streamline structures that frame generation fills in.
//!
//! Addresses are plain numbers, with zero for null; real values are held by their bit patterns. Each
//! structure starts with a header that names its type and version.

use crate::vector::FloatBits;
use vstd::prelude::*;

verus! {

/// The identifier of a structure type.
#[derive(Clone, Copy, Debug, PartialEq, Eq)]
pub struct StructType {
    /// The first group of digits.
    pub data1: u32,
    /// The second group.
    pub data2: u16,
    /// The third group.
    pub data3: u16,
    /// The remaining bytes.
    pub data4: [u8; 8],
}

impl StructType {
    /// The identifier with these groups.
    pub fn new(data1: u32, data2: u16, data3: u16, data4: [u8; 8]) -> (r: StructType)
        ensures
            r == (StructType { data1, data2, data3, data4 }),
    {
        StructType { data1, data2, data3, data4 }
    }

    /// Whether this is the identifier with these groups.
    pub open spec fn is(self, data1: u32, data2: u16, data3: u16, data4: Seq<u8>) -> bool {
        self.data1 == data1 && self.data2 == data2 && self.data3 == data3 && self.data4@ == data4
    }
}

/// The header of a structure.
#[derive(Clone, Copy, Debug, PartialEq, Eq)]
pub struct BaseStructure {
    /// The address of a chained structure.
    pub next: u64,
    /// The type of the structure.
    pub struct_type: StructType,
    /// The version of the structure.
    pub struct_version: u64,
}

impl BaseStructure {
    /// The header of a structure of this type and version, with nothing chained to it.
    pub fn new(struct_type: StructType, struct_version: u64) -> (r: BaseStructure)
        ensures
            r == (BaseStructure { next: 0, struct_type, struct_version }),
    {
        BaseStructure { next: 0, struct_type, struct_version }
    }
}

/// Version 1 of a structure.
pub const K_STRUCT_VERSION_1: u64 = 1;

/// Version 2 of a structure.
pub const K_STRUCT_VERSION_2: u64 = 2;

/// Version 3 of a structure.
pub const K_STRUCT_VERSION_3: u64 = 3;

/// Version 4 of a structure.
pub const K_STRUCT_VERSION_4: u64 = 4;

/// Version 5 of a structure.
pub const K_STRUCT_VERSION_5: u64 = 5;

/// The type of the preferences.
pub open spec fn is_preferences_type(t: StructType) -> bool {
    t.is(0x1ca1_0965, 0xbf8e, 0x432b, seq![0x8du8, 0xa1, 0x67, 0x16, 0xd8, 0x79, 0xfb, 0x14])
}

/// The type of the preferences.
pub fn guid_preferences() -> (r: StructType)
    ensures
        is_preferences_type(r),
{
    let r = StructType::new(0x1ca1_0965, 0xbf8e, 0x432b, [0x8d, 0xa1, 0x67, 0x16, 0xd8, 0x79, 0xfb, 0x14]);
    assert(r.data4@ =~= seq![0x8du8, 0xa1, 0x67, 0x16, 0xd8, 0x79, 0xfb, 0x14]);
    r
}

/// The type of the constants.
pub open spec fn is_constants_type(t: StructType) -> bool {
    t.is(0xdcd3_5ad7, 0x4e4a, 0x4bad, seq![0xa9u8, 0x0c, 0xe0, 0xc4, 0x9e, 0xb2, 0x3a, 0xfe])
}

/// The type of the constants.
pub fn guid_constants() -> (r: StructType)
    ensures
        is_constants_type(r),
{
    let r = StructType::new(0xdcd3_5ad7, 0x4e4a, 0x4bad, [0xa9, 0x0c, 0xe0, 0xc4, 0x9e, 0xb2, 0x3a, 0xfe]);
    assert(r.data4@ =~= seq![0xa9u8, 0x0c, 0xe0, 0xc4, 0x9e, 0xb2, 0x3a, 0xfe]);
    r
}

/// The type of a resource.
pub open spec fn is_resource_type(t: StructType) -> bool {
    t.is(0x3a9d_70cf, 0x2418, 0x4b72, seq![0x83u8, 0x91, 0x13, 0xf8, 0x72, 0x1c, 0x72, 0x61])
}

/// The type of a resource.
pub fn guid_resource() -> (r: StructType)
    ensures
        is_resource_type(r),
{
    let r = StructType::new(0x3a9d_70cf, 0x2418, 0x4b72, [0x83, 0x91, 0x13, 0xf8, 0x72, 0x1c, 0x72, 0x61]);
    assert(r.data4@ =~= seq![0x83u8, 0x91, 0x13, 0xf8, 0x72, 0x1c, 0x72, 0x61]);
    r
}

/// The type of a resource tag.
pub open spec fn is_resource_tag_type(t: StructType) -> bool {
    t.is(0x4c6a_5aad, 0xb445, 0x496c, seq![0x87u8, 0xff, 0x1a, 0xf3, 0x84, 0x5b, 0xe6, 0x53])
}

/// The type of a resource tag.
pub fn guid_resource_tag() -> (r: StructType)
    ensures
        is_resource_tag_type(r),
{
    let r = StructType::new(0x4c6a_5aad, 0xb445, 0x496c, [0x87, 0xff, 0x1a, 0xf3, 0x84, 0x5b, 0xe6, 0x53]);
    assert(r.data4@ =~= seq![0x87u8, 0xff, 0x1a, 0xf3, 0x84, 0x5b, 0xe6, 0x53]);
    r
}

/// The type of a viewport handle.
pub open spec fn is_viewport_handle_type(t: StructType) -> bool {
    t.is(0x171b_6435, 0x9b3c, 0x4fc8, seq![0x99u8, 0x94, 0xfb, 0xe5, 0x25, 0x69, 0xaa, 0xa4])
}

/// The type of a viewport handle.
pub fn guid_viewport_handle() -> (r: StructType)
    ensures
        is_viewport_handle_type(r),
{
    let r = StructType::new(0x171b_6435, 0x9b3c, 0x4fc8, [0x99, 0x94, 0xfb, 0xe5, 0x25, 0x69, 0xaa, 0xa4]);
    assert(r.data4@ =~= seq![0x99u8, 0x94, 0xfb, 0xe5, 0x25, 0x69, 0xaa, 0xa4]);
    r
}

/// The type of the adapter information.
pub open spec fn is_adapter_info_type(t: StructType) -> bool {
    t.is(0x0677_315f, 0xa746, 0x4492, seq![0x9fu8, 0x42, 0xcb, 0x61, 0x42, 0xc9, 0xc3, 0xd4])
}

/// The type of the adapter information.
pub fn guid_adapter_info() -> (r: StructType)
    ensures
        is_adapter_info_type(r),
{
    let r = StructType::new(0x0677_315f, 0xa746, 0x4492, [0x9f, 0x42, 0xcb, 0x61, 0x42, 0xc9, 0xc3, 0xd4]);
    assert(r.data4@ =~= seq![0x9fu8, 0x42, 0xcb, 0x61, 0x42, 0xc9, 0xc3, 0xd4]);
    r
}

/// The type of the frame generation options.
pub open spec fn is_dlssg_options_type(t: StructType) -> bool {
    t.is(0xfac5_f1cb, 0x2dfd, 0x4f36, seq![0xa1u8, 0xe6, 0x3a, 0x9e, 0x86, 0x52, 0x56, 0xc5])
}

/// The type of the frame generation options.
pub fn guid_dlssg_options() -> (r: StructType)
    ensures
        is_dlssg_options_type(r),
{
    let r = StructType::new(0xfac5_f1cb, 0x2dfd, 0x4f36, [0xa1, 0xe6, 0x3a, 0x9e, 0x86, 0x52, 0x56, 0xc5]);
    assert(r.data4@ =~= seq![0xa1u8, 0xe6, 0x3a, 0x9e, 0x86, 0x52, 0x56, 0xc5]);
    r
}

/// The type of the frame generation state.
pub open spec fn is_dlssg_state_type(t: StructType) -> bool {
    t.is(0xcc8a_c8e1, 0xa179, 0x44f5, seq![0x97u8, 0xfa, 0xe7, 0x41, 0x12, 0xf9, 0xbc, 0x61])
}

/// The type of the frame generation state.
pub fn guid_dlssg_state() -> (r: StructType)
    ensures
        is_dlssg_state_type(r),
{
    let r = StructType::new(0xcc8a_c8e1, 0xa179, 0x44f5, [0x97, 0xfa, 0xe7, 0x41, 0x12, 0xf9, 0xbc, 0x61]);
    assert(r.data4@ =~= seq![0x97u8, 0xfa, 0xe7, 0x41, 0x12, 0xf9, 0xbc, 0x61]);
    r
}

/// The type of the Reflex options.
pub open spec fn is_reflex_options_type(t: StructType) -> bool {
    t.is(0xf03a_f81a, 0x6d0b, 0x4902, seq![0xa6u8, 0x51, 0xc4, 0x96, 0x5e, 0x21, 0x54, 0x34])
}

/// The type of the Reflex options.
pub fn guid_reflex_options() -> (r: StructType)
    ensures
        is_reflex_options_type(r),
{
    let r = StructType::new(0xf03a_f81a, 0x6d0b, 0x4902, [0xa6, 0x51, 0xc4, 0x96, 0x5e, 0x21, 0x54, 0x34]);
    assert(r.data4@ =~= seq![0xa6u8, 0x51, 0xc4, 0x96, 0x5e, 0x21, 0x54, 0x34]);
    r
}

/// The graphics API.
#[derive(Clone, Copy, Debug, PartialEq, Eq, Structural)]
pub enum RenderAPI {
    /// Direct3D 11.
    D3D11,
    /// Direct3D 12.
    D3D12,
    /// Vulkan.
    Vulkan,
}

impl RenderAPI {
    /// The number that stands for it at the Streamline boundary.
    pub open spec fn number(self) -> u32 {
        match self {
            RenderAPI::D3D11 => 0,
            RenderAPI::D3D12 => 1,
            RenderAPI::Vulkan => 2,
        }
    }

    /// The number that stands for it at the Streamline boundary.
    pub fn code(self) -> (r: u32)
        ensures
            r == self.number(),
    {
        match self {
            RenderAPI::D3D11 => 0,
            RenderAPI::D3D12 => 1,
            RenderAPI::Vulkan => 2,
        }
    }
}

/// The engine of the application.
#[derive(Clone, Copy, Debug, PartialEq, Eq, Structural)]
pub enum EngineType {
    /// An engine of its own.
    Custom,
    /// Unreal.
    Unreal,
    /// Unity.
    Unity,
}

impl EngineType {
    /// The number that stands for it at the Streamline boundary.
    pub open spec fn number(self) -> u32 {
        match self {
            EngineType::Custom => 0,
            EngineType::Unreal => 1,
            EngineType::Unity => 2,
        }
    }

    /// The number that stands for it at the Streamline boundary.
    pub fn code(self) -> (r: u32)
        ensures
            r == self.number(),
    {
        match self {
            EngineType::Custom => 0,
            EngineType::Unreal => 1,
            EngineType::Unity => 2,
        }
    }
}

/// How much Streamline logs.
#[derive(Clone, Copy, Debug, PartialEq, Eq, Structural)]
pub enum LogLevel {
    /// Nothing.
    Off,
    /// What it logs by default.
    Default,
    /// Everything.
    Verbose,
}

impl LogLevel {
    /// The number that stands for it at the Streamline boundary.
    pub open spec fn number(self) -> u32 {
        match self {
            LogLevel::Off => 0,
            LogLevel::Default => 1,
            LogLevel::Verbose => 2,
        }
    }

    /// The number that stands for it at the Streamline boundary.
    pub fn code(self) -> (r: u32)
        ensures
            r == self.number(),
    {
        match self {
            LogLevel::Off => 0,
            LogLevel::Default => 1,
            LogLevel::Verbose => 2,
        }
    }
}

/// What a resource is.
#[derive(Clone, Copy, Debug, PartialEq, Eq, Structural)]
pub enum ResourceType {
    /// A two-dimensional texture.
    Tex2d,
    /// A buffer.
    Buffer,
    /// A command queue.
    CommandQueue,
    /// A command buffer.
    CommandBuffer,
    /// A command pool.
    CommandPool,
    /// A fence.
    Fence,
    /// A swapchain.
    Swapchain,
    /// A host fence.
    HostFence,
    /// Something else.
    Unknown,
}

impl ResourceType {
    /// The number that stands for it at the Streamline boundary.
    pub open spec fn number(self) -> i8 {
        match self {
            ResourceType::Tex2d => 0,
            ResourceType::Buffer => 1,
            ResourceType::CommandQueue => 2,
            ResourceType::CommandBuffer => 3,
            ResourceType::CommandPool => 4,
            ResourceType::Fence => 5,
            ResourceType::Swapchain => 6,
            ResourceType::HostFence => 7,
            ResourceType::Unknown => 8,
        }
    }

    /// The number that stands for it at the Streamline boundary.
    pub fn code(self) -> (r: i8)
        ensures
            r == self.number(),
    {
        match self {
            ResourceType::Tex2d => 0,
            ResourceType::Buffer => 1,
            ResourceType::CommandQueue => 2,
            ResourceType::CommandBuffer => 3,
            ResourceType::CommandPool => 4,
            ResourceType::Fence => 5,
            ResourceType::Swapchain => 6,
            ResourceType::HostFence => 7,
            ResourceType::Unknown => 8,
        }
    }
}

/// How long a tagged resource stays valid.
#[derive(Clone, Copy, Debug, PartialEq, Eq, Structural)]
pub enum ResourceLifecycle {
    /// Only during the call.
    OnlyValidNow,
    /// Until the frame is presented.
    ValidUntilPresent,
    /// Until the feature is evaluated.
    ValidUntilEvaluate,
}

impl ResourceLifecycle {
    /// The number that stands for it at the Streamline boundary.
    pub open spec fn number(self) -> u32 {
        match self {
            ResourceLifecycle::OnlyValidNow => 0,
            ResourceLifecycle::ValidUntilPresent => 1,
            ResourceLifecycle::ValidUntilEvaluate => 2,
        }
    }

    /// The number that stands for it at the Streamline boundary.
    pub fn code(self) -> (r: u32)
        ensures
            r == self.number(),
    {
        match self {
            ResourceLifecycle::OnlyValidNow => 0,
            ResourceLifecycle::ValidUntilPresent => 1,
            ResourceLifecycle::ValidUntilEvaluate => 2,
        }
    }
}

/// A truth value, or none.
#[derive(Clone, Copy, Debug, PartialEq, Eq, Structural)]
pub enum Boolean {
    /// No.
    False,
    /// Yes.
    True,
    /// Not set.
    Invalid,
}

impl Boolean {
    /// The number that stands for it at the Streamline boundary.
    pub open spec fn number(self) -> i8 {
        match self {
            Boolean::False => 0,
            Boolean::True => 1,
            Boolean::Invalid => 2,
        }
    }

    /// The number that stands for it at the Streamline boundary.
    pub fn code(self) -> (r: i8)
        ensures
            r == self.number(),
    {
        match self {
            Boolean::False => 0,
            Boolean::True => 1,
            Boolean::Invalid => 2,
        }
    }
}

/// The mode of frame generation.
#[derive(Clone, Copy, Debug, PartialEq, Eq, Structural)]
pub enum DLSSGMode {
    /// No frames are generated.
    Off,
    /// Frames are generated.
    On,
    /// The runtime decides.
    Auto,
    /// The runtime adapts the number of frames.
    Dynamic,
}

impl DLSSGMode {
    /// The number that stands for it at the Streamline boundary.
    pub open spec fn number(self) -> u32 {
        match self {
            DLSSGMode::Off => 0,
            DLSSGMode::On => 1,
            DLSSGMode::Auto => 2,
            DLSSGMode::Dynamic => 3,
        }
    }

    /// The number that stands for it at the Streamline boundary.
    pub fn code(self) -> (r: u32)
        ensures
            r == self.number(),
    {
        match self {
            DLSSGMode::Off => 0,
            DLSSGMode::On => 1,
            DLSSGMode::Auto => 2,
            DLSSGMode::Dynamic => 3,
        }
    }
}

/// Which queues frame generation blocks.
#[derive(Clone, Copy, Debug, PartialEq, Eq, Structural)]
pub enum DLSSGQueueParallelismMode {
    /// The presenting queue.
    BlockPresentingClientQueue,
    /// None.
    BlockNoClientQueues,
}

impl DLSSGQueueParallelismMode {
    /// The number that stands for it at the Streamline boundary.
    pub open spec fn number(self) -> u32 {
        match self {
            DLSSGQueueParallelismMode::BlockPresentingClientQueue => 0,
            DLSSGQueueParallelismMode::BlockNoClientQueues => 1,
        }
    }

    /// The number that stands for it at the Streamline boundary.
    pub fn code(self) -> (r: u32)
        ensures
            r == self.number(),
    {
        match self {
            DLSSGQueueParallelismMode::BlockPresentingClientQueue => 0,
            DLSSGQueueParallelismMode::BlockNoClientQueues => 1,
        }
    }
}

/// The mode of Reflex.
#[derive(Clone, Copy, Debug, PartialEq, Eq, Structural)]
pub enum ReflexMode {
    /// Off.
    Off,
    /// Low latency.
    LowLatency,
    /// Low latency, with boosted clocks.
    LowLatencyWithBoost,
}

impl ReflexMode {
    /// The number that stands for it at the Streamline boundary.
    pub open spec fn number(self) -> u32 {
        match self {
            ReflexMode::Off => 0,
            ReflexMode::LowLatency => 1,
            ReflexMode::LowLatencyWithBoost => 2,
        }
    }

    /// The number that stands for it at the Streamline boundary.
    pub fn code(self) -> (r: u32)
        ensures
            r == self.number(),
    {
        match self {
            ReflexMode::Off => 0,
            ReflexMode::LowLatency => 1,
            ReflexMode::LowLatencyWithBoost => 2,
        }
    }
}

/// A marker of the latency model.
#[derive(Clone, Copy, Debug, PartialEq, Eq, Structural)]
pub enum PCLMarker {
    /// The simulation starts.
    SimulationStart,
    /// The simulation ends.
    SimulationEnd,
    /// The submission of rendering starts.
    RenderSubmitStart,
    /// The submission of rendering ends.
    RenderSubmitEnd,
    /// Presenting starts.
    PresentStart,
    /// Presenting ends.
    PresentEnd,
    /// A flash is triggered.
    TriggerFlash,
    /// A latency ping.
    PCLatencyPing,
}

impl PCLMarker {
    /// The number that stands for it at the Streamline boundary.
    pub open spec fn number(self) -> u32 {
        match self {
            PCLMarker::SimulationStart => 0,
            PCLMarker::SimulationEnd => 1,
            PCLMarker::RenderSubmitStart => 2,
            PCLMarker::RenderSubmitEnd => 3,
            PCLMarker::PresentStart => 4,
            PCLMarker::PresentEnd => 5,
            PCLMarker::TriggerFlash => 7,
            PCLMarker::PCLatencyPing => 8,
        }
    }

    /// The number that stands for it at the Streamline boundary.
    pub fn code(self) -> (r: u32)
        ensures
            r == self.number(),
    {
        match self {
            PCLMarker::SimulationStart => 0,
            PCLMarker::SimulationEnd => 1,
            PCLMarker::RenderSubmitStart => 2,
            PCLMarker::RenderSubmitEnd => 3,
            PCLMarker::PresentStart => 4,
            PCLMarker::PresentEnd => 5,
            PCLMarker::TriggerFlash => 7,
            PCLMarker::PCLatencyPing => 8,
        }
    }
}

/// A Streamline feature.
pub type Feature = u32;

/// Super Resolution.
pub const K_FEATURE_DLSS: Feature = 0;

/// Image scaling.
pub const K_FEATURE_NIS: Feature = 2;

/// Reflex.
pub const K_FEATURE_REFLEX: Feature = 3;

/// The latency markers.
pub const K_FEATURE_PCL: Feature = 4;

/// Frame generation.
pub const K_FEATURE_DLSS_G: Feature = 1000;

/// What a tagged resource holds.
pub type BufferType = u32;

/// Depth.
pub const K_BUFFER_TYPE_DEPTH: BufferType = 0;

/// Motion vectors.
pub const K_BUFFER_TYPE_MOTION_VECTORS: BufferType = 1;

/// Color without the user interface.
pub const K_BUFFER_TYPE_HUD_LESS_COLOR: BufferType = 2;

/// The user interface, in color and with its alpha.
pub const K_BUFFER_TYPE_UI_COLOR_AND_ALPHA: BufferType = 23;

/// The swapchain's back buffer, for applications that render to a part of it.
pub const K_BUFFER_TYPE_BACKBUFFER: BufferType = 53;

/// The alpha of the user interface.
pub const K_BUFFER_TYPE_UI_ALPHA: BufferType = 68;

/// Two real values.
#[derive(Clone, Copy, Debug, PartialEq, Eq, Structural)]
pub struct Float2 {
    /// The first.
    pub x: FloatBits,
    /// The second.
    pub y: FloatBits,
}

/// Three real values.
#[derive(Clone, Copy, Debug, PartialEq, Eq, Structural)]
pub struct Float3 {
    /// The first.
    pub x: FloatBits,
    /// The second.
    pub y: FloatBits,
    /// The third.
    pub z: FloatBits,
}

/// Four real values.
#[derive(Clone, Copy, Debug, PartialEq, Eq, Structural)]
pub struct Float4 {
    /// The first.
    pub x: FloatBits,
    /// The second.
    pub y: FloatBits,
    /// The third.
    pub z: FloatBits,
    /// The fourth.
    pub w: FloatBits,
}

/// A matrix of four rows.
#[derive(Clone, Copy, Debug, PartialEq, Eq, Structural)]
pub struct Float4x4 {
    /// The first row.
    pub row0: Float4,
    /// The second row.
    pub row1: Float4,
    /// The third row.
    pub row2: Float4,
    /// The fourth row.
    pub row3: Float4,
}

/// The bit pattern of `0.1`.
pub const TENTH_BITS: u32 = 0x3dcc_cccd;

/// The bit pattern of `1000.0`.
pub const THOUSAND_BITS: u32 = 0x447a_0000;

/// The bit pattern of `10000.0`.
pub const TEN_THOUSAND_BITS: u32 = 0x461c_4000;

/// The bit pattern of `40.0`.
pub const FORTY_BITS: u32 = 0x4220_0000;

/// The bit pattern of a right angle in radians.
pub const RIGHT_ANGLE_BITS: u32 = 0x3fc9_0fdb;

/// The bit pattern of the aspect ratio `16.0 / 9.0`.
pub const WIDE_ASPECT_BITS: u32 = 0x3fe3_8e39;

/// The bit pattern of the largest real value, which stands for an invalid one.
pub const INVALID_BITS: u32 = 0x7f7f_ffff;

/// A row of the identity matrix: one at `place`, zero elsewhere.
pub open spec fn unit_row(place: int) -> Float4 {
    Float4 {
        x: if place == 0 { FloatBits::one_value() } else { FloatBits::zero_value() },
        y: if place == 1 { FloatBits::one_value() } else { FloatBits::zero_value() },
        z: if place == 2 { FloatBits::one_value() } else { FloatBits::zero_value() },
        w: if place == 3 { FloatBits::one_value() } else { FloatBits::zero_value() },
    }
}

impl Float4x4 {
    /// The identity matrix.
    pub open spec fn identity_value() -> Float4x4 {
        Float4x4 { row0: unit_row(0), row1: unit_row(1), row2: unit_row(2), row3: unit_row(3) }
    }

    /// The identity matrix.
    pub fn identity() -> (r: Float4x4)
        ensures
            r == Float4x4::identity_value(),
    {
        let one = FloatBits::one();
        let zero = FloatBits::zero();
        Float4x4 {
            row0: Float4 { x: one, y: zero, z: zero, w: zero },
            row1: Float4 { x: zero, y: one, z: zero, w: zero },
            row2: Float4 { x: zero, y: zero, z: one, w: zero },
            row3: Float4 { x: zero, y: zero, z: zero, w: one },
        }
    }
}

/// A part of a resource. All zero stands for the entire resource.
#[derive(Clone, Copy, Debug, PartialEq, Eq, Structural)]
pub struct Extent {
    /// The first row.
    pub top: u32,
    /// The first column.
    pub left: u32,
    /// The number of columns.
    pub width: u32,
    /// The number of rows.
    pub height: u32,
}

impl Default for Extent {
    fn default() -> (r: Self)
        ensures
            r == (Extent { top: 0, left: 0, width: 0, height: 0 }),
    {
        Extent { top: 0, left: 0, width: 0, height: 0 }
    }
}

/// The handle of a viewport.
#[derive(Clone, Copy, Debug, PartialEq, Eq)]
pub struct ViewportHandle {
    /// The header.
    pub base: BaseStructure,
    /// The number of the viewport.
    pub value: u32,
}

impl ViewportHandle {
    /// Whether this is the handle of viewport `value`.
    pub open spec fn is_viewport(self, value: u32) -> bool {
        &&& is_viewport_handle_type(self.base.struct_type)
        &&& self.base.struct_version == K_STRUCT_VERSION_1
        &&& self.base.next == 0
        &&& self.value == value
    }

    /// The handle of viewport `value`.
    pub fn new(value: u32) -> (r: ViewportHandle)
        ensures
            r.is_viewport(value),
    {
        ViewportHandle {
            base: BaseStructure::new(guid_viewport_handle(), K_STRUCT_VERSION_1),
            value,
        }
    }
}

/// What Streamline is initialized with. The paths and callbacks that the structure also has are
/// null.
#[derive(Debug, PartialEq, Eq)]
pub struct Preferences {
    /// The header.
    pub base: BaseStructure,
    /// Whether to open a console.
    pub show_console: bool,
    /// How much to log.
    pub log_level: LogLevel,
    /// The preference flags.
    pub flags: u64,
    /// The features to load.
    pub features_to_load: Vec<Feature>,
    /// The number of the application.
    pub application_id: u32,
    /// The engine.
    pub engine: EngineType,
    /// The version of the engine; `None` for null.
    pub engine_version: Option<String>,
    /// The project id; `None` for null.
    pub project_id: Option<String>,
    /// The graphics API.
    pub render_api: RenderAPI,
}

impl Preferences {
    /// Whether the header is the one of preferences.
    pub open spec fn has_header(self) -> bool {
        &&& is_preferences_type(self.base.struct_type)
        &&& self.base.struct_version == K_STRUCT_VERSION_1
        &&& self.base.next == 0
    }

    /// Preferences that load no feature and name no application, for D3D12.
    pub fn new() -> (r: Preferences)
        ensures
            r.has_header(),
            !r.show_console,
            r.log_level == LogLevel::Default,
            r.flags == 0,
            r.features_to_load@ == Seq::<Feature>::empty(),
            r.application_id == 0,
            r.engine == EngineType::Custom,
            r.engine_version is None,
            r.project_id is None,
            r.render_api == RenderAPI::D3D12,
    {
        Preferences {
            base: BaseStructure::new(guid_preferences(), K_STRUCT_VERSION_1),
            show_console: false,
            log_level: LogLevel::Default,
            flags: 0,
            features_to_load: Vec::new(),
            application_id: 0,
            engine: EngineType::Custom,
            engine_version: None,
            project_id: None,
            render_api: RenderAPI::D3D12,
        }
    }
}

impl Default for Preferences {
    fn default() -> (r: Self)
        ensures
            r.has_header(),
            !r.show_console,
            r.log_level == LogLevel::Default,
            r.flags == 0,
            r.features_to_load@ == Seq::<Feature>::empty(),
            r.application_id == 0,
            r.engine == EngineType::Custom,
            r.engine_version is None,
            r.project_id is None,
            r.render_api == RenderAPI::D3D12,
    {
        Preferences::new()
    }
}

/// The adapter that a feature is asked for.
#[derive(Clone, Copy, Debug, PartialEq, Eq)]
pub struct AdapterInfo {
    /// The header.
    pub base: BaseStructure,
    /// The locally unique identifier of the adapter; `None` for null, of size zero.
    pub device_luid: Option<[u8; 8]>,
    /// The Vulkan device.
    pub vk_physical_device: u64,
}

impl AdapterInfo {
    /// Whether this names the adapter with the given identifier, or none, under D3D12.
    pub open spec fn names(self, luid: Option<[u8; 8]>) -> bool {
        &&& is_adapter_info_type(self.base.struct_type)
        &&& self.base.struct_version == K_STRUCT_VERSION_1
        &&& self.base.next == 0
        &&& self.device_luid == luid
        &&& self.vk_physical_device == 0
    }

    /// No adapter.
    pub fn new() -> (r: AdapterInfo)
        ensures
            r.names(None),
    {
        AdapterInfo {
            base: BaseStructure::new(guid_adapter_info(), K_STRUCT_VERSION_1),
            device_luid: None,
            vk_physical_device: 0,
        }
    }
}

impl Default for AdapterInfo {
    fn default() -> (r: Self)
        ensures
            r.names(None),
    {
        AdapterInfo::new()
    }
}

/// A real value that is divided by a whole number: the scale of motion vectors, normalized by a
/// resolution. The division is left to where the value is used.
#[derive(Clone, Copy, Debug, PartialEq, Eq, Structural)]
pub struct MotionScale {
    /// What is divided.
    pub numerator: FloatBits,
    /// What it is divided by.
    pub divisor: u32,
}

/// The scales of the two components of motion vectors.
#[derive(Clone, Copy, Debug, PartialEq, Eq, Structural)]
pub struct MotionScale2 {
    /// The horizontal scale.
    pub x: MotionScale,
    /// The vertical scale.
    pub y: MotionScale,
}

impl MotionScale2 {
    /// The scale that leaves motion vectors as they are.
    pub open spec fn one_value() -> MotionScale2 {
        MotionScale2 {
            x: MotionScale { numerator: FloatBits::one_value(), divisor: 1 },
            y: MotionScale { numerator: FloatBits::one_value(), divisor: 1 },
        }
    }

    /// The scale that leaves motion vectors as they are.
    pub fn one() -> (r: MotionScale2)
        ensures
            r == MotionScale2::one_value(),
    {
        MotionScale2 {
            x: MotionScale { numerator: FloatBits::one(), divisor: 1 },
            y: MotionScale { numerator: FloatBits::one(), divisor: 1 },
        }
    }
}

/// The common constants of a frame.
#[derive(Clone, Copy, Debug, PartialEq, Eq)]
pub struct Constants {
    /// The header.
    pub base: BaseStructure,
    /// Camera view to clip space.
    pub camera_view_to_clip: Float4x4,
    /// Clip space to camera view.
    pub clip_to_camera_view: Float4x4,
    /// Clip space to lens clip space.
    pub clip_to_lens_clip: Float4x4,
    /// Clip space to the previous frame's.
    pub clip_to_prev_clip: Float4x4,
    /// The previous frame's clip space to this one's.
    pub prev_clip_to_clip: Float4x4,
    /// The jitter of the frame.
    pub jitter_offset: Float2,
    /// The scale of the motion vectors.
    pub mvec_scale: MotionScale2,
    /// The offset of the pinhole.
    pub camera_pinhole_offset: Float2,
    /// The position of the camera.
    pub camera_pos: Float3,
    /// The camera's upward direction.
    pub camera_up: Float3,
    /// The camera's direction to the right.
    pub camera_right: Float3,
    /// The camera's forward direction.
    pub camera_fwd: Float3,
    /// The near plane.
    pub camera_near: FloatBits,
    /// The far plane.
    pub camera_far: FloatBits,
    /// The field of view.
    pub camera_fov: FloatBits,
    /// The aspect ratio.
    pub camera_aspect_ratio: FloatBits,
    /// The value of invalid motion vectors.
    pub motion_vectors_invalid_value: FloatBits,
    /// Whether depth is inverted.
    pub depth_inverted: Boolean,
    /// Whether motion vectors contain the camera's motion.
    pub camera_motion_included: Boolean,
    /// Whether motion vectors have three components.
    pub motion_vectors_3d: Boolean,
    /// Whether to reset the temporal history.
    pub reset: Boolean,
    /// Whether the projection is orthographic.
    pub orthographic_projection: Boolean,
    /// Whether motion vectors are dilated.
    pub motion_vectors_dilated: Boolean,
    /// Whether motion vectors contain jitter.
    pub motion_vectors_jittered: Boolean,
    /// The depth that separates two objects.
    pub min_relative_linear_depth_object_separation: FloatBits,
}

/// Three zeroes.
pub open spec fn origin() -> Float3 {
    Float3 { x: FloatBits::zero_value(), y: FloatBits::zero_value(), z: FloatBits::zero_value() }
}

/// Two zeroes.
pub open spec fn no_offset() -> Float2 {
    Float2 { x: FloatBits::zero_value(), y: FloatBits::zero_value() }
}

impl Constants {
    /// Whether the header is the one of constants.
    pub open spec fn has_header(self) -> bool {
        &&& is_constants_type(self.base.struct_type)
        &&& self.base.struct_version == K_STRUCT_VERSION_2
        &&& self.base.next == 0
    }

    /// Whether what no caller sets is as it is initialized: the header, the lens, the camera's
    /// place and directions, and what the motion vectors are.
    pub open spec fn has_fixed_defaults(self) -> bool {
        &&& self.has_header()
        &&& self.clip_to_lens_clip == Float4x4::identity_value()
        &&& self.camera_pinhole_offset == no_offset()
        &&& self.camera_pos == origin()
        &&& self.camera_up == (Float3 { y: FloatBits::one_value(), ..origin() })
        &&& self.camera_right == (Float3 { x: FloatBits::one_value(), ..origin() })
        &&& self.camera_fwd == (Float3 { z: FloatBits::one_value(), ..origin() })
        &&& self.motion_vectors_invalid_value == (FloatBits { bits: INVALID_BITS })
        &&& self.motion_vectors_3d == Boolean::False
        &&& self.orthographic_projection == Boolean::False
        &&& self.motion_vectors_dilated == Boolean::False
        &&& self.motion_vectors_jittered == Boolean::False
        &&& self.min_relative_linear_depth_object_separation == (FloatBits { bits: FORTY_BITS })
    }

    /// Constants without jitter, for a camera that does not move.
    pub fn new() -> (r: Constants)
        ensures
            r.has_fixed_defaults(),
            r.camera_view_to_clip == Float4x4::identity_value(),
            r.clip_to_camera_view == Float4x4::identity_value(),
            r.clip_to_prev_clip == Float4x4::identity_value(),
            r.prev_clip_to_clip == Float4x4::identity_value(),
            r.jitter_offset == no_offset(),
            r.mvec_scale == MotionScale2::one_value(),
            r.camera_near.bits == TENTH_BITS,
            r.camera_far.bits == TEN_THOUSAND_BITS,
            r.camera_fov.bits == RIGHT_ANGLE_BITS,
            r.camera_aspect_ratio.bits == WIDE_ASPECT_BITS,
            r.depth_inverted == Boolean::False,
            r.camera_motion_included == Boolean::False,
            r.reset == Boolean::False,
    {
        let one = FloatBits::one();
        let zero = FloatBits::zero();
        Constants {
            base: BaseStructure::new(guid_constants(), K_STRUCT_VERSION_2),
            camera_view_to_clip: Float4x4::identity(),
            clip_to_camera_view: Float4x4::identity(),
            clip_to_lens_clip: Float4x4::identity(),
            clip_to_prev_clip: Float4x4::identity(),
            prev_clip_to_clip: Float4x4::identity(),
            jitter_offset: Float2 { x: zero, y: zero },
            mvec_scale: MotionScale2::one(),
            camera_pinhole_offset: Float2 { x: zero, y: zero },
            camera_pos: Float3 { x: zero, y: zero, z: zero },
            camera_up: Float3 { x: zero, y: one, z: zero },
            camera_right: Float3 { x: one, y: zero, z: zero },
            camera_fwd: Float3 { x: zero, y: zero, z: one },
            camera_near: FloatBits { bits: TENTH_BITS },
            camera_far: FloatBits { bits: TEN_THOUSAND_BITS },
            camera_fov: FloatBits { bits: RIGHT_ANGLE_BITS },
            camera_aspect_ratio: FloatBits { bits: WIDE_ASPECT_BITS },
            motion_vectors_invalid_value: FloatBits { bits: INVALID_BITS },
            depth_inverted: Boolean::False,
            camera_motion_included: Boolean::False,
            motion_vectors_3d: Boolean::False,
            reset: Boolean::False,
            orthographic_projection: Boolean::False,
            motion_vectors_dilated: Boolean::False,
            motion_vectors_jittered: Boolean::False,
            min_relative_linear_depth_object_separation: FloatBits { bits: FORTY_BITS },
        }
    }
}

impl Default for Constants {
    fn default() -> (r: Self)
        ensures
            r.has_fixed_defaults(),
            r.camera_view_to_clip == Float4x4::identity_value(),
            r.clip_to_camera_view == Float4x4::identity_value(),
            r.clip_to_prev_clip == Float4x4::identity_value(),
            r.prev_clip_to_clip == Float4x4::identity_value(),
            r.jitter_offset == no_offset(),
            r.mvec_scale == MotionScale2::one_value(),
            r.camera_near.bits == TENTH_BITS,
            r.camera_far.bits == TEN_THOUSAND_BITS,
            r.camera_fov.bits == RIGHT_ANGLE_BITS,
            r.camera_aspect_ratio.bits == WIDE_ASPECT_BITS,
            r.depth_inverted == Boolean::False,
            r.camera_motion_included == Boolean::False,
            r.reset == Boolean::False,
    {
        Constants::new()
    }
}

/// A resource.
#[derive(Clone, Copy, Debug, PartialEq, Eq)]
pub struct Resource {
    /// The header.
    pub base: BaseStructure,
    /// What it is.
    pub resource_type: ResourceType,
    /// The native resource.
    pub native: u64,
    /// Its memory.
    pub memory: u64,
    /// Its view.
    pub view: u64,
    /// The D3D12 state it is in.
    pub state: u32,
    /// Its width.
    pub width: u32,
    /// Its height.
    pub height: u32,
    /// Its DXGI format.
    pub native_format: u32,
    /// Its number of mip levels.
    pub mip_levels: u32,
    /// Its number of array layers.
    pub array_layers: u32,
    /// Its GPU address.
    pub gpu_virtual_address: u64,
    /// Its flags.
    pub flags: u32,
    /// Its usage.
    pub usage: u32,
    /// Reserved.
    pub reserved: u32,
}

impl Resource {
    /// Whether this is a two-dimensional texture with these properties and nothing else set.
    pub open spec fn is_tex2d(
        self,
        native: u64,
        state: u32,
        width: u32,
        height: u32,
        native_format: u32,
    ) -> bool {
        &&& is_resource_type(self.base.struct_type)
        &&& self.base.struct_version == K_STRUCT_VERSION_1
        &&& self.base.next == 0
        &&& self == (Resource {
            base: self.base,
            resource_type: ResourceType::Tex2d,
            native,
            memory: 0,
            view: 0,
            state,
            width,
            height,
            native_format,
            mip_levels: 1,
            array_layers: 1,
            gpu_virtual_address: 0,
            flags: 0,
            usage: 0,
            reserved: 0,
        })
    }

    /// A two-dimensional D3D12 texture.
    pub fn new_tex2d(
        native: u64,
        state: u32,
        width: u32,
        height: u32,
        native_format: u32,
    ) -> (r: Resource)
        ensures
            r.is_tex2d(native, state, width, height, native_format),
    {
        Resource {
            base: BaseStructure::new(guid_resource(), K_STRUCT_VERSION_1),
            resource_type: ResourceType::Tex2d,
            native,
            memory: 0,
            view: 0,
            state,
            width,
            height,
            native_format,
            mip_levels: 1,
            array_layers: 1,
            gpu_virtual_address: 0,
            flags: 0,
            usage: 0,
            reserved: 0,
        }
    }
}

/// A resource with what it holds. At the Streamline boundary the resource is passed by its address.
#[derive(Clone, Copy, Debug, PartialEq, Eq)]
pub struct ResourceTag {
    /// The header.
    pub base: BaseStructure,
    /// The resource.
    pub resource: Resource,
    /// What it holds.
    pub buffer_type: BufferType,
    /// How long it stays valid.
    pub lifecycle: ResourceLifecycle,
    /// The part of it that is meant.
    pub extent: Extent,
}

impl ResourceTag {
    /// Whether this tags the whole of `resource`.
    pub open spec fn tags(
        self,
        resource: Resource,
        buffer_type: BufferType,
        lifecycle: ResourceLifecycle,
    ) -> bool {
        &&& is_resource_tag_type(self.base.struct_type)
        &&& self.base.struct_version == K_STRUCT_VERSION_1
        &&& self.base.next == 0
        &&& self.resource == resource
        &&& self.buffer_type == buffer_type
        &&& self.lifecycle == lifecycle
        &&& self.extent == (Extent { top: 0, left: 0, width: 0, height: 0 })
    }

    /// Tags the whole of a resource.
    pub fn new(
        resource: Resource,
        buffer_type: BufferType,
        lifecycle: ResourceLifecycle,
    ) -> (r: ResourceTag)
        ensures
            r.tags(resource, buffer_type, lifecycle),
    {
        ResourceTag {
            base: BaseStructure::new(guid_resource_tag(), K_STRUCT_VERSION_1),
            resource,
            buffer_type,
            lifecycle,
            extent: Extent { top: 0, left: 0, width: 0, height: 0 },
        }
    }
}

/// The options of frame generation.
#[derive(Clone, Copy, Debug, PartialEq, Eq)]
pub struct DLSSGOptions {
    /// The header.
    pub base: BaseStructure,
    /// The mode.
    pub mode: DLSSGMode,
    /// How many frames to generate between two rendered ones.
    pub num_frames_to_generate: u32,
    /// The flags.
    pub flags: u32,
    /// The width for dynamic resolution.
    pub dynamic_res_width: u32,
    /// The height for dynamic resolution.
    pub dynamic_res_height: u32,
    /// The number of back buffers.
    pub num_back_buffers: u32,
    /// The width of motion vectors and depth.
    pub mvec_depth_width: u32,
    /// The height of motion vectors and depth.
    pub mvec_depth_height: u32,
    /// The width of color.
    pub color_width: u32,
    /// The height of color.
    pub color_height: u32,
    /// The DXGI format of color.
    pub color_buffer_format: u32,
    /// The DXGI format of motion vectors.
    pub mvec_buffer_format: u32,
    /// The DXGI format of depth.
    pub depth_buffer_format: u32,
    /// The DXGI format of color without the user interface.
    pub hud_less_buffer_format: u32,
    /// The DXGI format of the user interface.
    pub ui_buffer_format: u32,
    /// The callback on errors.
    pub on_error_callback: u64,
    /// Reserved.
    pub b_reserved15: Boolean,
    /// Which queues to block.
    pub queue_parallelism_mode: DLSSGQueueParallelismMode,
    /// Whether to recomposite the user interface over generated frames.
    pub enable_user_interface_recomposition: Boolean,
    /// The frame rate to aim for.
    pub dynamic_target_frame_rate: FloatBits,
}

impl DLSSGOptions {
    /// Whether the header is the one of frame generation options.
    pub open spec fn has_header(self) -> bool {
        &&& is_dlssg_options_type(self.base.struct_type)
        &&& self.base.struct_version == K_STRUCT_VERSION_5
        &&& self.base.next == 0
    }

    /// Whether these are the options with the given mode, number of frames and formats, and nothing
    /// else set.
    pub open spec fn asks_for(
        self,
        mode: DLSSGMode,
        num_frames_to_generate: u32,
        formats: BufferFormats,
    ) -> bool {
        &&& self.has_header()
        &&& self == (DLSSGOptions {
            base: self.base,
            mode,
            num_frames_to_generate,
            flags: 0,
            dynamic_res_width: 0,
            dynamic_res_height: 0,
            num_back_buffers: 0,
            mvec_depth_width: 0,
            mvec_depth_height: 0,
            color_width: 0,
            color_height: 0,
            color_buffer_format: formats.color,
            mvec_buffer_format: formats.mvec,
            depth_buffer_format: formats.depth,
            hud_less_buffer_format: formats.color,
            ui_buffer_format: formats.ui,
            on_error_callback: 0,
            b_reserved15: Boolean::Invalid,
            queue_parallelism_mode: DLSSGQueueParallelismMode::BlockPresentingClientQueue,
            enable_user_interface_recomposition: formats.recomposition,
            dynamic_target_frame_rate: FloatBits::zero_value(),
        })
    }

    /// Options with frame generation off.
    pub fn new() -> (r: DLSSGOptions)
        ensures
            r.asks_for(DLSSGMode::Off, 1, BufferFormats::unset()),
    {
        DLSSGOptions {
            base: BaseStructure::new(guid_dlssg_options(), K_STRUCT_VERSION_5),
            mode: DLSSGMode::Off,
            num_frames_to_generate: 1,
            flags: 0,
            dynamic_res_width: 0,
            dynamic_res_height: 0,
            num_back_buffers: 0,
            mvec_depth_width: 0,
            mvec_depth_height: 0,
            color_width: 0,
            color_height: 0,
            color_buffer_format: 0,
            mvec_buffer_format: 0,
            depth_buffer_format: 0,
            hud_less_buffer_format: 0,
            ui_buffer_format: 0,
            on_error_callback: 0,
            b_reserved15: Boolean::Invalid,
            queue_parallelism_mode: DLSSGQueueParallelismMode::BlockPresentingClientQueue,
            enable_user_interface_recomposition: Boolean::False,
            dynamic_target_frame_rate: FloatBits::zero(),
        }
    }
}

impl Default for DLSSGOptions {
    fn default() -> (r: Self)
        ensures
            r.asks_for(DLSSGMode::Off, 1, BufferFormats::unset()),
    {
        DLSSGOptions::new()
    }
}

/// The formats that frame generation options name, zero for those to be inferred, and whether the
/// user interface is recomposited.
#[derive(Clone, Copy, Debug, PartialEq, Eq, Structural)]
pub struct BufferFormats {
    /// Of color, with and without the user interface.
    pub color: u32,
    /// Of motion vectors.
    pub mvec: u32,
    /// Of depth.
    pub depth: u32,
    /// Of the user interface.
    pub ui: u32,
    /// Whether the user interface is recomposited.
    pub recomposition: Boolean,
}

impl BufferFormats {
    /// All to be inferred, without recomposition.
    pub open spec fn unset() -> BufferFormats {
        BufferFormats { color: 0, mvec: 0, depth: 0, ui: 0, recomposition: Boolean::False }
    }
}

/// The state of frame generation.
#[derive(Clone, Copy, Debug, PartialEq, Eq)]
pub struct DLSSGState {
    /// The header.
    pub base: BaseStructure,
    /// The estimated use of video memory.
    pub estimated_vram_usage_in_bytes: u64,
    /// The status bits.
    pub status: u32,
    /// The smallest supported width or height.
    pub min_width_or_height: u32,
    /// How many frames were presented for the last one.
    pub num_frames_actually_presented: u32,
    /// How many frames can be generated at the most.
    pub num_frames_to_generate_max: u32,
    /// Reserved.
    pub b_reserved4: Boolean,
    /// Whether vertical synchronization is supported.
    pub b_is_vsync_support_available: Boolean,
    /// The fence that is signalled once the inputs are processed.
    pub inputs_processing_completion_fence: u64,
    /// The value of that fence for the last frame.
    pub last_present_inputs_processing_completion_fence_value: u64,
    /// Whether the number of generated frames can be adapted.
    pub b_is_dynamic_mfg_supported: Boolean,
}

impl DLSSGState {
    /// Whether the header is the one of the frame generation state.
    pub open spec fn has_header(self) -> bool {
        &&& is_dlssg_state_type(self.base.struct_type)
        &&& self.base.struct_version == K_STRUCT_VERSION_4
        &&& self.base.next == 0
    }

    /// A state to be filled in.
    pub fn new() -> (r: DLSSGState)
        ensures
            r.has_header(),
            r == (DLSSGState {
                base: r.base,
                estimated_vram_usage_in_bytes: 0,
                status: 0,
                min_width_or_height: 0,
                num_frames_actually_presented: 0,
                num_frames_to_generate_max: 0,
                b_reserved4: Boolean::Invalid,
                b_is_vsync_support_available: Boolean::Invalid,
                inputs_processing_completion_fence: 0,
                last_present_inputs_processing_completion_fence_value: 0,
                b_is_dynamic_mfg_supported: Boolean::Invalid,
            }),
    {
        DLSSGState {
            base: BaseStructure::new(guid_dlssg_state(), K_STRUCT_VERSION_4),
            estimated_vram_usage_in_bytes: 0,
            status: 0,
            min_width_or_height: 0,
            num_frames_actually_presented: 0,
            num_frames_to_generate_max: 0,
            b_reserved4: Boolean::Invalid,
            b_is_vsync_support_available: Boolean::Invalid,
            inputs_processing_completion_fence: 0,
            last_present_inputs_processing_completion_fence_value: 0,
            b_is_dynamic_mfg_supported: Boolean::Invalid,
        }
    }
}

impl Default for DLSSGState {
    fn default() -> (r: Self)
        ensures
            r.has_header(),
            r == (DLSSGState {
                base: r.base,
                estimated_vram_usage_in_bytes: 0,
                status: 0,
                min_width_or_height: 0,
                num_frames_actually_presented: 0,
                num_frames_to_generate_max: 0,
                b_reserved4: Boolean::Invalid,
                b_is_vsync_support_available: Boolean::Invalid,
                inputs_processing_completion_fence: 0,
                last_present_inputs_processing_completion_fence_value: 0,
                b_is_dynamic_mfg_supported: Boolean::Invalid,
            }),
    {
        DLSSGState::new()
    }
}

/// The options of Reflex.
#[derive(Clone, Copy, Debug, PartialEq, Eq)]
pub struct ReflexOptions {
    /// The header.
    pub base: BaseStructure,
    /// The mode.
    pub mode: ReflexMode,
    /// The limit of a frame in microseconds.
    pub frame_limit_us: u32,
    /// Whether to optimize by the markers.
    pub use_markers_to_optimize: bool,
    /// The key for latency pings.
    pub virtual_key: u16,
    /// The thread for latency pings.
    pub id_thread: u32,
}

impl ReflexOptions {
    /// Whether these are the options with the given mode and nothing else set.
    pub open spec fn asks_for(self, mode: ReflexMode) -> bool {
        &&& is_reflex_options_type(self.base.struct_type)
        &&& self.base.struct_version == K_STRUCT_VERSION_1
        &&& self.base.next == 0
        &&& self == (ReflexOptions {
            base: self.base,
            mode,
            frame_limit_us: 0,
            use_markers_to_optimize: false,
            virtual_key: 0,
            id_thread: 0,
        })
    }

    /// Options with the given mode.
    pub fn new(mode: ReflexMode) -> (r: ReflexOptions)
        ensures
            r.asks_for(mode),
    {
        ReflexOptions {
            base: BaseStructure::new(guid_reflex_options(), K_STRUCT_VERSION_1),
            mode,
            frame_limit_us: 0,
            use_markers_to_optimize: false,
            virtual_key: 0,
            id_thread: 0,
        }
    }
}

/// The token of a frame: an address that only Streamline gives a meaning to.
#[derive(Clone, Copy, Debug, PartialEq, Eq, Structural)]
pub struct FrameToken {
    /// The address; zero for null.
    pub address: u64,
}

} // verus!

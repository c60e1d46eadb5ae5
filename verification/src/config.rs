//! Construction-time choices of the DLSS features: the quality tier, the feature flags, and how
//! Ray Reconstruction is given its roughness and depth.

use crate::vector::UVec2;
use vstd::prelude::*;

verus! {

/// How much DLSS should upscale by.
#[derive(Clone, Copy, Debug, PartialEq, Eq, Hash, Structural)]
pub enum DlssPerfQualityMode {
    /// Let DLSS decide based on the output resolution.
    Auto,
    /// Anti-aliasing only, no upscaling.
    Dlaa,
    /// Highest quality: the smallest upscale factor.
    Quality,
    /// Balanced quality and performance.
    Balanced,
    /// Higher performance: a larger upscale factor.
    Performance,
    /// Maximum performance: the largest upscale factor.
    UltraPerformance,
}

impl Default for DlssPerfQualityMode {
    fn default() -> (r: Self)
        ensures
            r == DlssPerfQualityMode::Auto,
    {
        DlssPerfQualityMode::Auto
    }
}

/// The quality tiers that NGX itself knows, from the least upscaling to the most.
#[derive(Clone, Copy, Debug, PartialEq, Eq, Hash, Structural)]
pub enum PerfQualityValue {
    /// Anti-aliasing only.
    Dlaa,
    /// The smallest upscale factor.
    MaxQuality,
    /// Between quality and performance.
    Balanced,
    /// A larger upscale factor.
    MaxPerf,
    /// The largest upscale factor.
    UltraPerformance,
}

impl PerfQualityValue {
    /// Where the tier stands among the others: a higher rank upscales by more.
    pub open spec fn rank(self) -> int {
        match self {
            PerfQualityValue::Dlaa => 0,
            PerfQualityValue::MaxQuality => 1,
            PerfQualityValue::Balanced => 2,
            PerfQualityValue::MaxPerf => 3,
            PerfQualityValue::UltraPerformance => 4,
        }
    }
}

/// Outputs below this many pixels (2.03 megapixels) are only anti-aliased.
pub const DLAA_PIXEL_LIMIT: u64 = 2_030_000;

/// Outputs below this many pixels (3.68 megapixels) are upscaled for quality.
pub const QUALITY_PIXEL_LIMIT: u64 = 3_680_000;

/// Outputs below this many pixels (8.29 megapixels) are upscaled for performance.
pub const PERFORMANCE_PIXEL_LIMIT: u64 = 8_290_000;

/// The tier chosen for an output of `pixels` pixels when the mode leaves the choice open.
pub open spec fn automatic_tier(pixels: int) -> PerfQualityValue {
    if pixels < DLAA_PIXEL_LIMIT {
        PerfQualityValue::Dlaa
    } else if pixels < QUALITY_PIXEL_LIMIT {
        PerfQualityValue::MaxQuality
    } else if pixels < PERFORMANCE_PIXEL_LIMIT {
        PerfQualityValue::MaxPerf
    } else {
        PerfQualityValue::UltraPerformance
    }
}

impl DlssPerfQualityMode {
    /// The NGX tier of this mode for an output of `upscaled_resolution`.
    pub open spec fn tier(self, upscaled_resolution: UVec2) -> PerfQualityValue {
        match self {
            DlssPerfQualityMode::Auto => automatic_tier(upscaled_resolution.pixel_count()),
            DlssPerfQualityMode::Dlaa => PerfQualityValue::Dlaa,
            DlssPerfQualityMode::Quality => PerfQualityValue::MaxQuality,
            DlssPerfQualityMode::Balanced => PerfQualityValue::Balanced,
            DlssPerfQualityMode::Performance => PerfQualityValue::MaxPerf,
            DlssPerfQualityMode::UltraPerformance => PerfQualityValue::UltraPerformance,
        }
    }

    /// The NGX tier to request for an output of `upscaled_resolution`.
    pub fn as_perf_quality_value(&self, upscaled_resolution: UVec2) -> (r: PerfQualityValue)
        ensures
            r == self.tier(upscaled_resolution),
    {
        match self {
            DlssPerfQualityMode::Auto => {
                let x = upscaled_resolution.x;
                let y = upscaled_resolution.y;
                assert(0 <= x * y <= 0xffff_ffff * 0xffff_ffff) by (nonlinear_arith)
                    requires
                        0 <= x <= 0xffff_ffff,
                        0 <= y <= 0xffff_ffff,
                ;
                let pixels: u64 = x as u64 * y as u64;
                if pixels < DLAA_PIXEL_LIMIT {
                    PerfQualityValue::Dlaa
                } else if pixels < QUALITY_PIXEL_LIMIT {
                    PerfQualityValue::MaxQuality
                } else if pixels < PERFORMANCE_PIXEL_LIMIT {
                    PerfQualityValue::MaxPerf
                } else {
                    PerfQualityValue::UltraPerformance
                }
            },
            DlssPerfQualityMode::Dlaa => PerfQualityValue::Dlaa,
            DlssPerfQualityMode::Quality => PerfQualityValue::MaxQuality,
            DlssPerfQualityMode::Balanced => PerfQualityValue::Balanced,
            DlssPerfQualityMode::Performance => PerfQualityValue::MaxPerf,
            DlssPerfQualityMode::UltraPerformance => PerfQualityValue::UltraPerformance,
        }
    }
}

/// Every mode but `Auto` picks its tier whatever the output resolution is.
pub proof fn fixed_modes_ignore_the_resolution(mode: DlssPerfQualityMode, a: UVec2, b: UVec2)
    requires
        mode != DlssPerfQualityMode::Auto,
    ensures
        mode.tier(a) == mode.tier(b),
{
}

/// `Auto` never upscales a larger output by less.
pub proof fn automatic_tier_grows_with_the_output(a: UVec2, b: UVec2)
    requires
        a.pixel_count() <= b.pixel_count(),
    ensures
        DlssPerfQualityMode::Auto.tier(a).rank() <= DlssPerfQualityMode::Auto.tier(b).rank(),
{
}

/// Flags for creating a DLSS context. The bits are those of the NGX create flags, and one more that
/// only this crate knows.
#[derive(Clone, Copy, Debug, PartialEq, Eq, Hash, Structural)]
pub struct DlssFeatureFlags {
    /// The set flags, one bit each.
    pub bits: i32,
}

/// The bit of [`DlssFeatureFlags::high_dynamic_range`].
pub const HIGH_DYNAMIC_RANGE_BIT: i32 = 1;

/// The bit of [`DlssFeatureFlags::low_resolution_motion_vectors`].
pub const LOW_RESOLUTION_MOTION_VECTORS_BIT: i32 = 2;

/// The bit of [`DlssFeatureFlags::jittered_motion_vectors`].
pub const JITTERED_MOTION_VECTORS_BIT: i32 = 4;

/// The bit of [`DlssFeatureFlags::inverted_depth`].
pub const INVERTED_DEPTH_BIT: i32 = 8;

/// The bit of [`DlssFeatureFlags::auto_exposure`].
pub const AUTO_EXPOSURE_BIT: i32 = 64;

/// The bit of [`DlssFeatureFlags::alpha_upscaling`].
pub const ALPHA_UPSCALING_BIT: i32 = 128;

/// The bit of [`DlssFeatureFlags::output_subrect`], which no NGX flag has.
pub const OUTPUT_SUBRECT_BIT: i32 = 256;

impl DlssFeatureFlags {
    /// No flag.
    pub fn empty() -> (r: DlssFeatureFlags)
        ensures
            r.bits == 0,
    {
        DlssFeatureFlags { bits: 0 }
    }

    /// Use an HDR color texture instead of an SDR one.
    pub fn high_dynamic_range() -> (r: DlssFeatureFlags)
        ensures
            r.bits == HIGH_DYNAMIC_RANGE_BIT,
    {
        DlssFeatureFlags { bits: HIGH_DYNAMIC_RANGE_BIT }
    }

    /// Motion vectors are at render resolution.
    pub fn low_resolution_motion_vectors() -> (r: DlssFeatureFlags)
        ensures
            r.bits == LOW_RESOLUTION_MOTION_VECTORS_BIT,
    {
        DlssFeatureFlags { bits: LOW_RESOLUTION_MOTION_VECTORS_BIT }
    }

    /// Motion vectors contain jitter.
    pub fn jittered_motion_vectors() -> (r: DlssFeatureFlags)
        ensures
            r.bits == JITTERED_MOTION_VECTORS_BIT,
    {
        DlssFeatureFlags { bits: JITTERED_MOTION_VECTORS_BIT }
    }

    /// The camera uses a reverse (inverted) depth buffer.
    pub fn inverted_depth() -> (r: DlssFeatureFlags)
        ensures
            r.bits == INVERTED_DEPTH_BIT,
    {
        DlssFeatureFlags { bits: INVERTED_DEPTH_BIT }
    }

    /// Have DLSS apply auto-exposure.
    pub fn auto_exposure() -> (r: DlssFeatureFlags)
        ensures
            r.bits == AUTO_EXPOSURE_BIT,
    {
        DlssFeatureFlags { bits: AUTO_EXPOSURE_BIT }
    }

    /// Use a 4-channel RGBA color texture instead of a 3-channel RGB one.
    pub fn alpha_upscaling() -> (r: DlssFeatureFlags)
        ensures
            r.bits == ALPHA_UPSCALING_BIT,
    {
        DlssFeatureFlags { bits: ALPHA_UPSCALING_BIT }
    }

    /// Allow DLSS to write to a subrect of the output texture. (Not part of the NGX flag set.)
    pub fn output_subrect() -> (r: DlssFeatureFlags)
        ensures
            r.bits == OUTPUT_SUBRECT_BIT,
    {
        DlssFeatureFlags { bits: OUTPUT_SUBRECT_BIT }
    }

    /// Whether every flag of `other` is set in `self`.
    pub open spec fn has(self, other: DlssFeatureFlags) -> bool {
        self.bits & other.bits == other.bits
    }

    /// Whether every flag of `other` is set.
    pub fn contains(&self, other: DlssFeatureFlags) -> (r: bool)
        ensures
            r == self.has(other),
    {
        self.bits & other.bits == other.bits
    }

    /// The flags that are set in either.
    pub fn union(&self, other: DlssFeatureFlags) -> (r: DlssFeatureFlags)
        ensures
            r.bits == self.bits | other.bits,
    {
        DlssFeatureFlags { bits: self.bits | other.bits }
    }

    /// The NGX create flags of this set: its bits without the output-subrect bit.
    pub open spec fn ngx_flags(self) -> i32 {
        self.bits & !OUTPUT_SUBRECT_BIT
    }

    /// The flags as NGX takes them at feature creation. The output-subrect flag is not one of them
    /// and is dropped.
    pub fn as_flags(&self) -> (r: i32)
        ensures
            r == self.ngx_flags(),
            r & OUTPUT_SUBRECT_BIT == 0,
            r | (self.bits & OUTPUT_SUBRECT_BIT) == self.bits,
    {
        proof {
            output_subrect_never_reaches_ngx(*self);
        }
        self.bits & !OUTPUT_SUBRECT_BIT
    }
}

/// The output-subrect flag never reaches NGX, every other flag does, and setting it changes nothing
/// of what NGX is handed.
pub proof fn output_subrect_never_reaches_ngx(flags: DlssFeatureFlags)
    ensures
        flags.ngx_flags() & OUTPUT_SUBRECT_BIT == 0,
        flags.ngx_flags() | (flags.bits & OUTPUT_SUBRECT_BIT) == flags.bits,
        (DlssFeatureFlags { bits: flags.bits | OUTPUT_SUBRECT_BIT }).ngx_flags()
            == flags.ngx_flags(),
        (DlssFeatureFlags { bits: flags.bits | OUTPUT_SUBRECT_BIT }).has(
            (DlssFeatureFlags { bits: OUTPUT_SUBRECT_BIT }),
        ),
{
    let b = flags.bits;
    assert((b & !256i32) & 256i32 == 0) by (bit_vector);
    assert((b & !256i32) | (b & 256i32) == b) by (bit_vector);
    assert((b | 256i32) & !256i32 == b & !256i32) by (bit_vector);
    assert((b | 256i32) & 256i32 == 256i32) by (bit_vector);
}

/// A union has every flag of both sides.
pub proof fn union_has_both_sides(a: DlssFeatureFlags, b: DlssFeatureFlags)
    ensures
        (DlssFeatureFlags { bits: a.bits | b.bits }).has(a),
        (DlssFeatureFlags { bits: a.bits | b.bits }).has(b),
{
    let x = a.bits;
    let y = b.bits;
    assert((x | y) & x == x && (x | y) & y == y) by (bit_vector);
}

/// How roughness is supplied to Ray Reconstruction.
#[derive(Clone, Copy, Debug, PartialEq, Eq, Structural)]
pub enum RoughnessMode {
    /// Roughness is a dedicated input texture.
    Unpacked,
    /// Roughness is packed into the `.w` channel of the normals texture.
    Packed,
}

impl Default for RoughnessMode {
    fn default() -> (r: Self)
        ensures
            r == RoughnessMode::Unpacked,
    {
        RoughnessMode::Unpacked
    }
}

/// How depth is supplied to Ray Reconstruction.
#[derive(Clone, Copy, Debug, PartialEq, Eq, Structural)]
pub enum DepthType {
    /// Linear view-space depth (the input that Ray Reconstruction prefers).
    Linear,
    /// Hardware (post-projection) depth, as in a standard depth buffer.
    Hardware,
}

impl Default for DepthType {
    fn default() -> (r: Self)
        ensures
            r == DepthType::Hardware,
    {
        DepthType::Hardware
    }
}

} // verus!

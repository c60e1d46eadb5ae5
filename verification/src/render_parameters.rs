//! Inputs and outputs of a Super Resolution evaluation, and the resource transitions they need.
//!
//! A texture is carried through as whatever names it for the caller (`T`), together with the D3D12
//! resource behind it, if there is one.

use crate::nvsdk_ngx::DlssError;
use crate::vector::{FloatBits, UVec2, Vec2};
use vstd::prelude::*;

verus! {

/// The address of a D3D12 resource; zero is null.
pub type RawResource = u64;

/// A texture used as a DLSS input or output.
///
/// On D3D12, NGX binds the raw resource directly: there is no view, format or subresource at the
/// NGX boundary.
#[derive(Clone, Copy, Debug, PartialEq, Eq)]
pub struct DlssTexture<T> {
    /// The texture, as the caller knows it.
    pub texture: T,
    /// The D3D12 resource behind the texture; `None` for a texture of another backend.
    pub resource: Option<RawResource>,
}

impl<T> DlssTexture<T> {
    /// The resource to hand to NGX: null where there is none.
    pub open spec fn address(self) -> RawResource {
        match self.resource {
            Some(resource) => resource,
            None => 0,
        }
    }

    /// Whether there is a resource to hand to NGX.
    pub open spec fn is_bound(self) -> bool {
        self.address() != 0
    }

    /// The resource to hand to NGX: null where there is none, which NGX rejects.
    pub fn raw(&self) -> (r: RawResource)
        ensures
            r == self.address(),
    {
        match self.resource {
            Some(resource) => resource,
            None => 0,
        }
    }
}

/// Camera exposure used by DLSS.
#[derive(Clone, Copy, Debug, PartialEq, Eq)]
pub enum DlssExposure<T> {
    /// Exposure controlled by the application via a 1x1 exposure texture.
    Manual {
        /// A 1x1 exposure texture supplied by the application.
        exposure: DlssTexture<T>,
        /// Optional multiplier applied to the exposure value (defaults to 1.0).
        exposure_scale: Option<FloatBits>,
        /// Optional pre-exposure already baked into the color (defaults to 0.0).
        pre_exposure: Option<FloatBits>,
    },
    /// Auto-exposure handled by DLSS (requires the auto-exposure feature flag).
    Automatic,
}

/// Input and output resources for a DLSS Super Resolution evaluation.
#[derive(Clone, Copy, Debug, PartialEq, Eq)]
pub struct DlssRenderParameters<T> {
    /// Main color view of the camera (render resolution).
    pub color: DlssTexture<T>,
    /// Depth buffer (render resolution).
    pub depth: DlssTexture<T>,
    /// Screen-space motion vectors.
    pub motion_vectors: DlssTexture<T>,
    /// Camera exposure settings.
    pub exposure: DlssExposure<T>,
    /// Optional per-pixel bias to make DLSS more reactive.
    pub bias: Option<DlssTexture<T>>,
    /// The texture DLSS writes the upscaled result to (upscaled resolution, UAV-capable).
    pub dlss_output: DlssTexture<T>,
    /// Whether DLSS should reset its temporal history (for example on camera cuts).
    pub reset: bool,
    /// Subpixel jitter that was applied to the camera this frame.
    pub jitter_offset: Vec2,
    /// Optionally evaluate only a subrect of the inputs rather than the full textures.
    pub partial_texture_size: Option<UVec2>,
    /// Optional scaling factor applied to the motion vectors.
    pub motion_vector_scale: Option<Vec2>,
}

/// The state that a resource is brought into before an evaluation.
#[derive(Clone, Copy, Debug, PartialEq, Eq, Structural)]
pub enum TextureUses {
    /// Readable by shaders.
    Resource,
    /// Written by shaders (a UAV).
    StorageReadWrite,
}

/// A resource to bring into a state, with all of its subresources.
#[derive(Clone, Copy, Debug, PartialEq, Eq)]
pub struct TextureTransition<T> {
    /// The texture.
    pub texture: T,
    /// The state it must be in.
    pub state: TextureUses,
}

/// Which resource of [`DlssRenderParameters`] a transition is for.
#[derive(Clone, Copy, Debug, PartialEq, Eq, Structural)]
pub enum BarrierSlot {
    /// The color input.
    Color,
    /// The depth input.
    Depth,
    /// The motion vectors.
    MotionVectors,
    /// The manual exposure texture.
    Exposure,
    /// The bias mask.
    Bias,
    /// The output.
    Output,
}

/// The ordered transitions of an evaluation: the three inputs that are always there, then the
/// exposure texture and the bias mask where there are any, all readable; the output last, writable.
pub open spec fn transition_slots(manual_exposure: bool, has_bias: bool) -> Seq<
    (BarrierSlot, TextureUses),
> {
    seq![
        (BarrierSlot::Color, TextureUses::Resource),
        (BarrierSlot::Depth, TextureUses::Resource),
        (BarrierSlot::MotionVectors, TextureUses::Resource),
    ] + (if manual_exposure {
        seq![(BarrierSlot::Exposure, TextureUses::Resource)]
    } else {
        seq![]
    }) + (if has_bias {
        seq![(BarrierSlot::Bias, TextureUses::Resource)]
    } else {
        seq![]
    }) + seq![(BarrierSlot::Output, TextureUses::StorageReadWrite)]
}

/// The ordered transitions of an evaluation, decided by whether exposure is manual and whether there
/// is a bias mask.
pub fn barrier_slots(manual_exposure: bool, has_bias: bool) -> (r: Vec<(BarrierSlot, TextureUses)>)
    ensures
        r@ == transition_slots(manual_exposure, has_bias),
{
    let mut slots = vec![
        (BarrierSlot::Color, TextureUses::Resource),
        (BarrierSlot::Depth, TextureUses::Resource),
        (BarrierSlot::MotionVectors, TextureUses::Resource),
    ];
    if manual_exposure {
        slots.push((BarrierSlot::Exposure, TextureUses::Resource));
    }
    if has_bias {
        slots.push((BarrierSlot::Bias, TextureUses::Resource));
    }
    slots.push((BarrierSlot::Output, TextureUses::StorageReadWrite));
    slots
}

/// Manual exposure adds one readable exposure transition to what automatic exposure needs: without
/// it the two lists are the same.
pub proof fn manual_exposure_adds_the_exposure_transition(has_bias: bool)
    ensures
        transition_slots(true, has_bias)[3] == (BarrierSlot::Exposure, TextureUses::Resource),
        transition_slots(true, has_bias).remove(3) == transition_slots(false, has_bias),
        forall|i: int|
            0 <= i < transition_slots(false, has_bias).len() ==> (#[trigger] transition_slots(
                false,
                has_bias,
            )[i]).0 != BarrierSlot::Exposure,
{
    assert(transition_slots(true, has_bias).remove(3) =~= transition_slots(false, has_bias));
}

/// A bias mask adds one readable bias transition, just before the output, whatever the exposure is.
pub proof fn bias_adds_one_transition(manual_exposure: bool)
    ensures
        ({
            let with_bias = transition_slots(manual_exposure, true);
            let without_bias = transition_slots(manual_exposure, false);
            let place = with_bias.len() - 2;
            &&& with_bias[place] == (BarrierSlot::Bias, TextureUses::Resource)
            &&& with_bias.remove(place) == without_bias
            &&& forall|i: int|
                0 <= i < without_bias.len() ==> (#[trigger] without_bias[i]).0 != BarrierSlot::Bias
        }),
{
    let with_bias = transition_slots(manual_exposure, true);
    assert(with_bias.remove(with_bias.len() - 2) =~= transition_slots(manual_exposure, false));
}

/// The output comes last and is the only resource that shaders write.
pub proof fn output_is_last_and_the_only_uav(manual_exposure: bool, has_bias: bool)
    ensures
        ({
            let slots = transition_slots(manual_exposure, has_bias);
            &&& slots.last() == (BarrierSlot::Output, TextureUses::StorageReadWrite)
            &&& forall|i: int|
                0 <= i < slots.len() - 1 ==> (#[trigger] slots[i]).1 == TextureUses::Resource
                    && slots[i].0 != BarrierSlot::Output
        }),
{
}

impl<T: Copy> DlssRenderParameters<T> {
    /// Whether every resource that NGX requires is there.
    pub open spec fn is_complete(self) -> bool {
        &&& self.color.is_bound()
        &&& self.depth.is_bound()
        &&& self.motion_vectors.is_bound()
        &&& self.dlss_output.is_bound()
    }

    /// The texture that a slot stands for.
    pub open spec fn slot_texture(self, slot: BarrierSlot) -> T {
        match slot {
            BarrierSlot::Color => self.color.texture,
            BarrierSlot::Depth => self.depth.texture,
            BarrierSlot::MotionVectors => self.motion_vectors.texture,
            BarrierSlot::Exposure => self.exposure->exposure.texture,
            BarrierSlot::Bias => self.bias->0.texture,
            BarrierSlot::Output => self.dlss_output.texture,
        }
    }

    /// The transitions of this evaluation.
    pub open spec fn transitions(self) -> Seq<TextureTransition<T>> {
        transition_slots(self.exposure is Manual, self.bias is Some).map_values(
            |entry: (BarrierSlot, TextureUses)|
                TextureTransition { texture: self.slot_texture(entry.0), state: entry.1 },
        )
    }

    /// Rejects parameters in which a required resource is null (a texture that is destroyed or of
    /// another backend), before NGX sees them.
    pub fn validate(&self) -> (r: Result<(), DlssError>)
        ensures
            r == (if self.is_complete() {
                Ok(())
            } else {
                Err::<(), DlssError>(DlssError::MissingInput)
            }),
    {
        if self.color.raw() == 0 || self.depth.raw() == 0 || self.motion_vectors.raw() == 0
            || self.dlss_output.raw() == 0 {
            return Err(DlssError::MissingInput);
        }
        Ok(())
    }

    /// The transitions to apply before evaluating: inputs readable by shaders, the output writable.
    pub fn barrier_list(&self) -> (r: Vec<TextureTransition<T>>)
        ensures
            r@ == self.transitions(),
    {
        let manual_exposure = match self.exposure {
            DlssExposure::Manual { .. } => true,
            DlssExposure::Automatic => false,
        };
        let slots = barrier_slots(manual_exposure, self.bias.is_some());
        let mut list: Vec<TextureTransition<T>> = Vec::new();
        let mut i: usize = 0;
        while i < slots.len()
            invariant
                i <= slots.len(),
                slots@ == transition_slots(self.exposure is Manual, self.bias is Some),
                list@ == self.transitions().take(i as int),
            decreases slots.len() - i,
        {
            let (slot, state) = slots[i];
            let texture = match slot {
                BarrierSlot::Color => self.color.texture,
                BarrierSlot::Depth => self.depth.texture,
                BarrierSlot::MotionVectors => self.motion_vectors.texture,
                BarrierSlot::Exposure => match self.exposure {
                    DlssExposure::Manual { exposure, .. } => exposure.texture,
                    DlssExposure::Automatic => vstd::pervasive::unreached(),
                },
                BarrierSlot::Bias => match self.bias {
                    Some(bias) => bias.texture,
                    None => vstd::pervasive::unreached(),
                },
                BarrierSlot::Output => self.dlss_output.texture,
            };
            list.push(TextureTransition { texture, state });
            i = i + 1;
            assert(list@ =~= self.transitions().take(i as int));
        }
        assert(self.transitions().take(i as int) =~= self.transitions());
        list
    }
}

} // verus!

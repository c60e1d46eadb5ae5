//! The application-wide NGX object: how it comes up, and how it is torn down.

use crate::nvsdk_ngx::{check_ngx_result, DlssError, NgxResult, NGX_RESULT_SUCCESS};
use vstd::prelude::*;

verus! {

/// The address of an NGX parameter block.
pub type ParameterBlock = u64;

/// Application-wide DLSS / NGX object. Create it once per application and share it across all DLSS
/// contexts.
///
/// NGX is not thread-safe, so every NGX call is made under one lock. Drop all contexts before this
/// object: its teardown destroys the parameters and shuts NGX down for the device.
#[derive(Clone, Copy, Debug, PartialEq, Eq, Structural)]
pub struct DlssSdk {
    /// The capability parameters of NGX.
    pub parameters: ParameterBlock,
}

/// What NGX replied to a call. A call fills in only what it has to say.
#[derive(Clone, Copy, Debug, PartialEq, Eq, Structural)]
pub struct SdkReply {
    /// The result code.
    pub result: NgxResult,
    /// The parameter block, from the call that fetches it.
    pub parameters: ParameterBlock,
    /// Whether Super Resolution is available (not zero), from the call that asks.
    pub available: i32,
}

/// Where the bring-up of NGX stands: the call to make next, or how it ended.
#[derive(Clone, Copy, Debug, PartialEq, Eq, Structural)]
pub enum SdkStep {
    /// Initialize NGX for the device.
    Initialize,
    /// Fetch the capability parameters.
    FetchParameters,
    /// Ask the parameters whether Super Resolution is available.
    ProbeSupport {
        /// The parameters.
        parameters: ParameterBlock,
    },
    /// Destroy the parameters, and then report the error.
    DestroyParameters {
        /// The parameters.
        parameters: ParameterBlock,
        /// Why the bring-up failed.
        error: DlssError,
    },
    /// NGX is up.
    Ready(DlssSdk),
    /// NGX is not available.
    Failed(DlssError),
}

impl SdkStep {
    /// The step that follows NGX's reply.
    pub open spec fn after(self, reply: SdkReply) -> SdkStep {
        match self {
            SdkStep::Initialize => match crate::nvsdk_ngx::outcome_of(reply.result) {
                Ok(()) => SdkStep::FetchParameters,
                Err(e) => SdkStep::Failed(e),
            },
            SdkStep::FetchParameters => match crate::nvsdk_ngx::outcome_of(reply.result) {
                Ok(()) => SdkStep::ProbeSupport { parameters: reply.parameters },
                Err(e) => SdkStep::Failed(e),
            },
            SdkStep::ProbeSupport { parameters } => match crate::nvsdk_ngx::outcome_of(
                reply.result,
            ) {
                Ok(()) => if reply.available != 0 {
                    SdkStep::Ready(DlssSdk { parameters })
                } else {
                    SdkStep::DestroyParameters { parameters, error: DlssError::FeatureNotSupported }
                },
                Err(error) => SdkStep::DestroyParameters { parameters, error },
            },
            SdkStep::DestroyParameters { error, .. } => SdkStep::Failed(error),
            SdkStep::Ready(_) => self,
            SdkStep::Failed(_) => self,
        }
    }

    /// Whether the bring-up has ended.
    pub open spec fn has_ended(self) -> bool {
        self is Ready || self is Failed
    }

    /// The step that follows NGX's reply. Whether destroying the parameters succeeded does not
    /// matter: the error is the one that led there.
    pub fn next(self, reply: SdkReply) -> (r: SdkStep)
        ensures
            r == self.after(reply),
    {
        match self {
            SdkStep::Initialize => match check_ngx_result(reply.result) {
                Ok(()) => SdkStep::FetchParameters,
                Err(e) => SdkStep::Failed(e),
            },
            SdkStep::FetchParameters => match check_ngx_result(reply.result) {
                Ok(()) => SdkStep::ProbeSupport { parameters: reply.parameters },
                Err(e) => SdkStep::Failed(e),
            },
            SdkStep::ProbeSupport { parameters } => match check_ngx_result(reply.result) {
                Ok(()) => {
                    if reply.available != 0 {
                        SdkStep::Ready(DlssSdk { parameters })
                    } else {
                        SdkStep::DestroyParameters {
                            parameters,
                            error: DlssError::FeatureNotSupported,
                        }
                    }
                },
                Err(error) => SdkStep::DestroyParameters { parameters, error },
            },
            SdkStep::DestroyParameters { error, .. } => SdkStep::Failed(error),
            SdkStep::Ready(sdk) => SdkStep::Ready(sdk),
            SdkStep::Failed(e) => SdkStep::Failed(e),
        }
    }
}

/// The step that a bring-up has reached after `replies`.
pub open spec fn run(start: SdkStep, replies: Seq<SdkReply>) -> SdkStep
    decreases replies.len(),
{
    if replies.len() == 0 {
        start
    } else {
        run(start, replies.drop_last()).after(replies.last())
    }
}

/// A step in the teardown of NGX.
#[derive(Clone, Copy, Debug, PartialEq, Eq, Structural)]
pub enum TeardownStep {
    /// Wait until the GPU is idle.
    WaitForGpu,
    /// Destroy the parameters.
    DestroyParameters(ParameterBlock),
    /// Shut NGX down for the device.
    Shutdown,
}

impl DlssSdk {
    /// The first step of bringing NGX up on a device: without a D3D12 device there is none.
    pub fn new(device_is_dx12: bool) -> (r: SdkStep)
        ensures
            r == (if device_is_dx12 {
                SdkStep::Initialize
            } else {
                SdkStep::Failed(DlssError::FeatureNotSupported)
            }),
    {
        if device_is_dx12 {
            SdkStep::Initialize
        } else {
            SdkStep::Failed(DlssError::FeatureNotSupported)
        }
    }

    /// The number of bytes of VRAM currently allocated by DLSS, from NGX's reply to its statistics
    /// call.
    pub fn vram_allocated_bytes(&self, result: NgxResult, bytes: u64) -> (r: Result<u64, DlssError>)
        ensures
            r == (if result == NGX_RESULT_SUCCESS {
                Ok(bytes)
            } else {
                Err(crate::nvsdk_ngx::error_of(result))
            }),
    {
        match check_ngx_result(result) {
            Ok(()) => Ok(bytes),
            Err(e) => Err(e),
        }
    }

    /// How NGX is torn down: once the GPU is idle, the parameters first. A device that is not a
    /// D3D12 one has nothing to tear down.
    pub fn teardown(&self, device_is_dx12: bool) -> (r: Vec<TeardownStep>)
        ensures
            r@ == (if device_is_dx12 {
                seq![
                    TeardownStep::WaitForGpu,
                    TeardownStep::DestroyParameters(self.parameters),
                    TeardownStep::Shutdown,
                ]
            } else {
                seq![TeardownStep::WaitForGpu]
            }),
    {
        let mut steps = vec![TeardownStep::WaitForGpu];
        if device_is_dx12 {
            steps.push(TeardownStep::DestroyParameters(self.parameters));
            steps.push(TeardownStep::Shutdown);
        }
        steps
    }
}

/// Parameters that were fetched are kept by a bring-up that succeeds and destroyed by one that
/// fails, and by no other; the destroy call's own result changes nothing.
pub proof fn fetched_parameters_are_kept_or_destroyed(
    parameters: ParameterBlock,
    probe: SdkReply,
    destroy: SdkReply,
)
    ensures
        ({
            let probed = (SdkStep::ProbeSupport { parameters }).after(probe);
            let supported = probe.result == NGX_RESULT_SUCCESS && probe.available != 0;
            &&& supported ==> probed == SdkStep::Ready(DlssSdk { parameters })
            &&& !supported ==> {
                &&& probed is DestroyParameters
                &&& probed->DestroyParameters_parameters == parameters
                &&& probed.after(destroy) == SdkStep::Failed(probed->error)
            }
        }),
{
}

/// A bring-up ends after four replies at the most, and then stays as it ended. It ends well only
/// where NGX accepted every call and reported Super Resolution as available.
pub proof fn bring_up_ends(replies: Seq<SdkReply>)
    requires
        replies.len() == 4,
    ensures
        run(SdkStep::Initialize, replies).has_ended(),
        run(SdkStep::Initialize, replies) is Ready <==> {
            &&& replies[0].result == NGX_RESULT_SUCCESS
            &&& replies[1].result == NGX_RESULT_SUCCESS
            &&& replies[2].result == NGX_RESULT_SUCCESS
            &&& replies[2].available != 0
        },
        run(SdkStep::Initialize, replies) matches SdkStep::Ready(sdk) ==> sdk.parameters
            == replies[1].parameters,
        forall|more: SdkReply|
            run(SdkStep::Initialize, replies).after(more) == run(SdkStep::Initialize, replies),
{
    reveal_with_fuel(run, 5);
    let three = replies.drop_last();
    let two = three.drop_last();
    let one = two.drop_last();
    assert(one.len() == 1 && one.last() == replies[0]);
    assert(two.last() == replies[1] && three.last() == replies[2]);
    assert(one.drop_last().len() == 0);
}

} // verus!

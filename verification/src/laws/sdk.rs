//! The application-wide NGX object.

use crate::nvsdk_ngx::{check_ngx_result, DlssError};
use crate::sdk::{DlssSdk, SdkReply, SdkStep, TeardownStep};
use vstd::prelude::*;

verus! {

/// NGX comes up on a D3D12 device alone. It is initialized, its parameters are fetched, and they are
/// asked for Super Resolution; each call is made only after the one before it succeeded.
pub proof fn ngx_comes_up_call_by_call(
    device_is_dx12: bool,
    first: SdkStep,
    reply: SdkReply,
    parameters: u64,
    initialized: SdkStep,
    fetched: SdkStep,
    probed: SdkStep,
)
    requires
        call_ensures(DlssSdk::new, (device_is_dx12,), first),
        call_ensures(SdkStep::next, (SdkStep::Initialize, reply), initialized),
        call_ensures(SdkStep::next, (SdkStep::FetchParameters, reply), fetched),
        call_ensures(SdkStep::next, (SdkStep::ProbeSupport { parameters }, reply), probed),
    ensures
        device_is_dx12 ==> first == SdkStep::Initialize,
        !device_is_dx12 ==> first == SdkStep::Failed(DlssError::FeatureNotSupported),
        initialized == SdkStep::FetchParameters <==> reply.result == 1,
        initialized is Failed <==> reply.result != 1,
        fetched is ProbeSupport <==> reply.result == 1,
        fetched is ProbeSupport ==> fetched->ProbeSupport_parameters == reply.parameters,
        fetched is Failed <==> reply.result != 1,
        probed is Ready <==> reply.result == 1 && reply.available != 0,
        probed matches SdkStep::Ready(sdk) ==> sdk.parameters == parameters,
        !(probed is Ready) ==> probed is DestroyParameters
            && probed->DestroyParameters_parameters == parameters,
        reply.result == 1 && reply.available == 0 ==> probed->error
            == DlssError::FeatureNotSupported,
{
}

/// A bring-up that fails reports the error of the call that failed, whatever comes of destroying the
/// parameters, and once it has ended nothing changes it.
pub proof fn a_failed_bring_up_says_why(
    reply: SdkReply,
    error: DlssError,
    parameters: u64,
    initialized: SdkStep,
    fetched: SdkStep,
    probed: SdkStep,
    later: SdkReply,
    pending: DlssError,
    destroyed: SdkStep,
    sdk: DlssSdk,
    still_ready: SdkStep,
    still_failed: SdkStep,
)
    requires
        call_ensures(check_ngx_result, (reply.result,), Err(error)),
        call_ensures(SdkStep::next, (SdkStep::Initialize, reply), initialized),
        call_ensures(SdkStep::next, (SdkStep::FetchParameters, reply), fetched),
        call_ensures(SdkStep::next, (SdkStep::ProbeSupport { parameters }, reply), probed),
        call_ensures(
            SdkStep::next,
            (SdkStep::DestroyParameters { parameters, error: pending }, later),
            destroyed,
        ),
        call_ensures(SdkStep::next, (SdkStep::Ready(sdk), later), still_ready),
        call_ensures(SdkStep::next, (SdkStep::Failed(pending), later), still_failed),
    ensures
        initialized == SdkStep::Failed(error),
        fetched == SdkStep::Failed(error),
        probed == (SdkStep::DestroyParameters { parameters, error }),
        destroyed == SdkStep::Failed(pending),
        still_ready == SdkStep::Ready(sdk),
        still_failed == SdkStep::Failed(pending),
{
}

/// The memory that NGX reports is passed on. NGX is torn down once the GPU is idle, the parameters
/// before NGX itself, and neither on a device that never had it.
pub proof fn ngx_is_torn_down_once_the_gpu_is_idle(
    sdk: DlssSdk,
    result: i32,
    bytes: u64,
    reported: Result<u64, DlssError>,
    device_is_dx12: bool,
    steps: Vec<TeardownStep>,
)
    requires
        call_ensures(DlssSdk::vram_allocated_bytes, (&sdk, result, bytes), reported),
        call_ensures(DlssSdk::teardown, (&sdk, device_is_dx12), steps),
    ensures
        reported is Ok <==> result == 1,
        reported matches Ok(n) ==> n == bytes,
        steps.len() >= 1 && steps[0] == TeardownStep::WaitForGpu,
        device_is_dx12 ==> {
            &&& steps.len() == 3
            &&& steps[1] == TeardownStep::DestroyParameters(sdk.parameters)
            &&& steps[2] == TeardownStep::Shutdown
        },
        !device_is_dx12 ==> steps.len() == 1,
{
}

} // verus!

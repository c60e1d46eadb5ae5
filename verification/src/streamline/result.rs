//! Results of Streamline calls.

use vstd::prelude::*;

verus! {

/// What a Streamline call returned. Named so that it does not shadow the standard `Result`.
#[derive(Clone, Copy, Debug, PartialEq, Eq, Structural)]
pub enum SlResult {
    /// The call succeeded.
    Success,
    /// Input or output failed.
    ErrorIO,
    /// The driver is too old.
    ErrorDriverOutOfDate,
    /// The operating system is too old.
    ErrorOSOutOfDate,
    /// Hardware-accelerated GPU scheduling is disabled.
    ErrorOSDisabledHWS,
    /// There is no device yet.
    ErrorDeviceNotCreated,
    /// No adapter is supported.
    ErrorNoSupportedAdapterFound,
    /// The adapter is not supported.
    ErrorAdapterNotSupported,
    /// No plugin was found.
    ErrorNoPlugins,
    /// Vulkan failed.
    ErrorVulkanAPI,
    /// DXGI failed.
    ErrorDXGIAPI,
    /// D3D failed.
    ErrorD3DAPI,
    /// NRD failed.
    ErrorNRDAPI,
    /// NVAPI failed.
    ErrorNVAPI,
    /// Reflex failed.
    ErrorReflexAPI,
    /// NGX failed.
    ErrorNGXFailed,
    /// A configuration could not be parsed.
    ErrorJSONParsing,
    /// A proxy is missing.
    ErrorMissingProxy,
    /// The state of a resource is missing.
    ErrorMissingResourceState,
    /// The integration is invalid.
    ErrorInvalidIntegration,
    /// An input parameter is missing.
    ErrorMissingInputParameter,
    /// Streamline is not initialized.
    ErrorNotInitialized,
    /// A compute pass failed.
    ErrorComputeFailed,
    /// Initialization was not requested.
    ErrorInitNotCalled,
    /// An exception was caught.
    ErrorExceptionHandler,
    /// A parameter is invalid.
    ErrorInvalidParameter,
    /// The constants are missing.
    ErrorMissingConstants,
    /// The constants were set twice.
    ErrorDuplicatedConstants,
    /// The interface is missing or invalid.
    ErrorMissingOrInvalidAPI,
    /// The common constants are missing.
    ErrorCommonConstantsMissing,
    /// The interface is not supported.
    ErrorUnsupportedInterface,
    /// The feature is missing.
    ErrorFeatureMissing,
    /// The feature is not supported.
    ErrorFeatureNotSupported,
    /// The feature lacks its hooks.
    ErrorFeatureMissingHooks,
    /// The feature could not be loaded.
    ErrorFeatureFailedToLoad,
    /// The feature has the wrong priority.
    ErrorFeatureWrongPriority,
    /// A dependency of the feature is missing.
    ErrorFeatureMissingDependency,
    /// The feature manager is in an invalid state.
    ErrorFeatureManagerInvalidState,
    /// The state is invalid.
    ErrorInvalidState,
    /// Video memory is running out.
    WarnOutOfVRAM,
}

impl SlResult {
    /// The number that stands for this result at the Streamline boundary.
    pub open spec fn number(self) -> i32 {
        match self {
            SlResult::Success => 0,
            SlResult::ErrorIO => 1,
            SlResult::ErrorDriverOutOfDate => 2,
            SlResult::ErrorOSOutOfDate => 3,
            SlResult::ErrorOSDisabledHWS => 4,
            SlResult::ErrorDeviceNotCreated => 5,
            SlResult::ErrorNoSupportedAdapterFound => 6,
            SlResult::ErrorAdapterNotSupported => 7,
            SlResult::ErrorNoPlugins => 8,
            SlResult::ErrorVulkanAPI => 9,
            SlResult::ErrorDXGIAPI => 10,
            SlResult::ErrorD3DAPI => 11,
            SlResult::ErrorNRDAPI => 12,
            SlResult::ErrorNVAPI => 13,
            SlResult::ErrorReflexAPI => 14,
            SlResult::ErrorNGXFailed => 15,
            SlResult::ErrorJSONParsing => 16,
            SlResult::ErrorMissingProxy => 17,
            SlResult::ErrorMissingResourceState => 18,
            SlResult::ErrorInvalidIntegration => 19,
            SlResult::ErrorMissingInputParameter => 20,
            SlResult::ErrorNotInitialized => 21,
            SlResult::ErrorComputeFailed => 22,
            SlResult::ErrorInitNotCalled => 23,
            SlResult::ErrorExceptionHandler => 24,
            SlResult::ErrorInvalidParameter => 25,
            SlResult::ErrorMissingConstants => 26,
            SlResult::ErrorDuplicatedConstants => 27,
            SlResult::ErrorMissingOrInvalidAPI => 28,
            SlResult::ErrorCommonConstantsMissing => 29,
            SlResult::ErrorUnsupportedInterface => 30,
            SlResult::ErrorFeatureMissing => 31,
            SlResult::ErrorFeatureNotSupported => 32,
            SlResult::ErrorFeatureMissingHooks => 33,
            SlResult::ErrorFeatureFailedToLoad => 34,
            SlResult::ErrorFeatureWrongPriority => 35,
            SlResult::ErrorFeatureMissingDependency => 36,
            SlResult::ErrorFeatureManagerInvalidState => 37,
            SlResult::ErrorInvalidState => 38,
            SlResult::WarnOutOfVRAM => 39,
        }
    }

    /// The name of this result.
    pub open spec fn text(self) -> &'static str {
        match self {
            SlResult::Success => "Ok",
            SlResult::ErrorIO => "ErrorIO",
            SlResult::ErrorDriverOutOfDate => "ErrorDriverOutOfDate",
            SlResult::ErrorOSOutOfDate => "ErrorOSOutOfDate",
            SlResult::ErrorOSDisabledHWS => "ErrorOSDisabledHWS",
            SlResult::ErrorDeviceNotCreated => "ErrorDeviceNotCreated",
            SlResult::ErrorNoSupportedAdapterFound => "ErrorNoSupportedAdapterFound",
            SlResult::ErrorAdapterNotSupported => "ErrorAdapterNotSupported",
            SlResult::ErrorNoPlugins => "ErrorNoPlugins",
            SlResult::ErrorVulkanAPI => "ErrorVulkanAPI",
            SlResult::ErrorDXGIAPI => "ErrorDXGIAPI",
            SlResult::ErrorD3DAPI => "ErrorD3DAPI",
            SlResult::ErrorNRDAPI => "ErrorNRDAPI",
            SlResult::ErrorNVAPI => "ErrorNVAPI",
            SlResult::ErrorReflexAPI => "ErrorReflexAPI",
            SlResult::ErrorNGXFailed => "ErrorNGXFailed",
            SlResult::ErrorJSONParsing => "ErrorJSONParsing",
            SlResult::ErrorMissingProxy => "ErrorMissingProxy",
            SlResult::ErrorMissingResourceState => "ErrorMissingResourceState",
            SlResult::ErrorInvalidIntegration => "ErrorInvalidIntegration",
            SlResult::ErrorMissingInputParameter => "ErrorMissingInputParameter",
            SlResult::ErrorNotInitialized => "ErrorNotInitialized",
            SlResult::ErrorComputeFailed => "ErrorComputeFailed",
            SlResult::ErrorInitNotCalled => "ErrorInitNotCalled",
            SlResult::ErrorExceptionHandler => "ErrorExceptionHandler",
            SlResult::ErrorInvalidParameter => "ErrorInvalidParameter",
            SlResult::ErrorMissingConstants => "ErrorMissingConstants",
            SlResult::ErrorDuplicatedConstants => "ErrorDuplicatedConstants",
            SlResult::ErrorMissingOrInvalidAPI => "ErrorMissingOrInvalidAPI",
            SlResult::ErrorCommonConstantsMissing => "ErrorCommonConstantsMissing",
            SlResult::ErrorUnsupportedInterface => "ErrorUnsupportedInterface",
            SlResult::ErrorFeatureMissing => "ErrorFeatureMissing",
            SlResult::ErrorFeatureNotSupported => "ErrorFeatureNotSupported",
            SlResult::ErrorFeatureMissingHooks => "ErrorFeatureMissingHooks",
            SlResult::ErrorFeatureFailedToLoad => "ErrorFeatureFailedToLoad",
            SlResult::ErrorFeatureWrongPriority => "ErrorFeatureWrongPriority",
            SlResult::ErrorFeatureMissingDependency => "ErrorFeatureMissingDependency",
            SlResult::ErrorFeatureManagerInvalidState => "ErrorFeatureManagerInvalidState",
            SlResult::ErrorInvalidState => "ErrorInvalidState",
            SlResult::WarnOutOfVRAM => "WarnOutOfVRAM",
        }
    }

    /// Whether the call succeeded.
    pub fn is_ok(self) -> (r: bool)
        ensures
            r == (self == SlResult::Success),
    {
        self == SlResult::Success
    }

    /// The name of this result, for error reports.
    pub fn name(self) -> (r: &'static str)
        ensures
            r == self.text(),
    {
        match self {
            SlResult::Success => "Ok",
            SlResult::ErrorIO => "ErrorIO",
            SlResult::ErrorDriverOutOfDate => "ErrorDriverOutOfDate",
            SlResult::ErrorOSOutOfDate => "ErrorOSOutOfDate",
            SlResult::ErrorOSDisabledHWS => "ErrorOSDisabledHWS",
            SlResult::ErrorDeviceNotCreated => "ErrorDeviceNotCreated",
            SlResult::ErrorNoSupportedAdapterFound => "ErrorNoSupportedAdapterFound",
            SlResult::ErrorAdapterNotSupported => "ErrorAdapterNotSupported",
            SlResult::ErrorNoPlugins => "ErrorNoPlugins",
            SlResult::ErrorVulkanAPI => "ErrorVulkanAPI",
            SlResult::ErrorDXGIAPI => "ErrorDXGIAPI",
            SlResult::ErrorD3DAPI => "ErrorD3DAPI",
            SlResult::ErrorNRDAPI => "ErrorNRDAPI",
            SlResult::ErrorNVAPI => "ErrorNVAPI",
            SlResult::ErrorReflexAPI => "ErrorReflexAPI",
            SlResult::ErrorNGXFailed => "ErrorNGXFailed",
            SlResult::ErrorJSONParsing => "ErrorJSONParsing",
            SlResult::ErrorMissingProxy => "ErrorMissingProxy",
            SlResult::ErrorMissingResourceState => "ErrorMissingResourceState",
            SlResult::ErrorInvalidIntegration => "ErrorInvalidIntegration",
            SlResult::ErrorMissingInputParameter => "ErrorMissingInputParameter",
            SlResult::ErrorNotInitialized => "ErrorNotInitialized",
            SlResult::ErrorComputeFailed => "ErrorComputeFailed",
            SlResult::ErrorInitNotCalled => "ErrorInitNotCalled",
            SlResult::ErrorExceptionHandler => "ErrorExceptionHandler",
            SlResult::ErrorInvalidParameter => "ErrorInvalidParameter",
            SlResult::ErrorMissingConstants => "ErrorMissingConstants",
            SlResult::ErrorDuplicatedConstants => "ErrorDuplicatedConstants",
            SlResult::ErrorMissingOrInvalidAPI => "ErrorMissingOrInvalidAPI",
            SlResult::ErrorCommonConstantsMissing => "ErrorCommonConstantsMissing",
            SlResult::ErrorUnsupportedInterface => "ErrorUnsupportedInterface",
            SlResult::ErrorFeatureMissing => "ErrorFeatureMissing",
            SlResult::ErrorFeatureNotSupported => "ErrorFeatureNotSupported",
            SlResult::ErrorFeatureMissingHooks => "ErrorFeatureMissingHooks",
            SlResult::ErrorFeatureFailedToLoad => "ErrorFeatureFailedToLoad",
            SlResult::ErrorFeatureWrongPriority => "ErrorFeatureWrongPriority",
            SlResult::ErrorFeatureMissingDependency => "ErrorFeatureMissingDependency",
            SlResult::ErrorFeatureManagerInvalidState => "ErrorFeatureManagerInvalidState",
            SlResult::ErrorInvalidState => "ErrorInvalidState",
            SlResult::WarnOutOfVRAM => "WarnOutOfVRAM",
        }
    }

    /// The result that a number stands for; `None` for a number that stands for none.
    pub fn from_number(number: i32) -> (r: Option<SlResult>)
        ensures
            match r {
                Some(result) => result.number() == number,
                None => forall|other: SlResult| #![trigger other.number()] other.number() != number,
            },
    {
        match number {
            0 => Some(SlResult::Success),
            1 => Some(SlResult::ErrorIO),
            2 => Some(SlResult::ErrorDriverOutOfDate),
            3 => Some(SlResult::ErrorOSOutOfDate),
            4 => Some(SlResult::ErrorOSDisabledHWS),
            5 => Some(SlResult::ErrorDeviceNotCreated),
            6 => Some(SlResult::ErrorNoSupportedAdapterFound),
            7 => Some(SlResult::ErrorAdapterNotSupported),
            8 => Some(SlResult::ErrorNoPlugins),
            9 => Some(SlResult::ErrorVulkanAPI),
            10 => Some(SlResult::ErrorDXGIAPI),
            11 => Some(SlResult::ErrorD3DAPI),
            12 => Some(SlResult::ErrorNRDAPI),
            13 => Some(SlResult::ErrorNVAPI),
            14 => Some(SlResult::ErrorReflexAPI),
            15 => Some(SlResult::ErrorNGXFailed),
            16 => Some(SlResult::ErrorJSONParsing),
            17 => Some(SlResult::ErrorMissingProxy),
            18 => Some(SlResult::ErrorMissingResourceState),
            19 => Some(SlResult::ErrorInvalidIntegration),
            20 => Some(SlResult::ErrorMissingInputParameter),
            21 => Some(SlResult::ErrorNotInitialized),
            22 => Some(SlResult::ErrorComputeFailed),
            23 => Some(SlResult::ErrorInitNotCalled),
            24 => Some(SlResult::ErrorExceptionHandler),
            25 => Some(SlResult::ErrorInvalidParameter),
            26 => Some(SlResult::ErrorMissingConstants),
            27 => Some(SlResult::ErrorDuplicatedConstants),
            28 => Some(SlResult::ErrorMissingOrInvalidAPI),
            29 => Some(SlResult::ErrorCommonConstantsMissing),
            30 => Some(SlResult::ErrorUnsupportedInterface),
            31 => Some(SlResult::ErrorFeatureMissing),
            32 => Some(SlResult::ErrorFeatureNotSupported),
            33 => Some(SlResult::ErrorFeatureMissingHooks),
            34 => Some(SlResult::ErrorFeatureFailedToLoad),
            35 => Some(SlResult::ErrorFeatureWrongPriority),
            36 => Some(SlResult::ErrorFeatureMissingDependency),
            37 => Some(SlResult::ErrorFeatureManagerInvalidState),
            38 => Some(SlResult::ErrorInvalidState),
            39 => Some(SlResult::WarnOutOfVRAM),
            _ => None,
        }
    }
}

/// Distinct results stand for distinct numbers, and only for those below forty.
pub proof fn results_have_distinct_numbers(a: SlResult, b: SlResult)
    ensures
        a.number() == b.number() <==> a == b,
        0 <= a.number() < 40,
{
}

} // verus!

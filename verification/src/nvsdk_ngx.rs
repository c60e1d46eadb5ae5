//! NGX result codes and the error they become.

use crate::text::push_hex_shortest;
use vstd::prelude::*;

verus! {

/// A result code as NGX returns it.
pub type NgxResult = i32;

/// The call succeeded.
pub const NGX_RESULT_SUCCESS: NgxResult = 1;

/// The code that the failure codes count up from (`0xBAD00000` as a signed number).
pub const NGX_RESULT_FAIL: NgxResult = -1160773632;

/// The feature is not supported on this system.
pub const NGX_RESULT_FAIL_FEATURE_NOT_SUPPORTED: NgxResult = NGX_RESULT_FAIL + 1;

/// The platform below NGX failed.
pub const NGX_RESULT_FAIL_PLATFORM_ERROR: NgxResult = NGX_RESULT_FAIL + 2;

/// An identical feature exists.
pub const NGX_RESULT_FAIL_FEATURE_ALREADY_EXISTS: NgxResult = NGX_RESULT_FAIL + 3;

/// No feature has the given handle.
pub const NGX_RESULT_FAIL_FEATURE_NOT_FOUND: NgxResult = NGX_RESULT_FAIL + 4;

/// A parameter is missing or wrong.
pub const NGX_RESULT_FAIL_INVALID_PARAMETER: NgxResult = NGX_RESULT_FAIL + 5;

/// The scratch buffer is missing or too small.
pub const NGX_RESULT_FAIL_SCRATCH_BUFFER_TOO_SMALL: NgxResult = NGX_RESULT_FAIL + 6;

/// NGX has not been initialized.
pub const NGX_RESULT_FAIL_NOT_INITIALIZED: NgxResult = NGX_RESULT_FAIL + 7;

/// An input buffer has an unsupported format.
pub const NGX_RESULT_FAIL_UNSUPPORTED_INPUT_FORMAT: NgxResult = NGX_RESULT_FAIL + 8;

/// An output buffer cannot be written to by a shader.
pub const NGX_RESULT_FAIL_RW_FLAG_MISSING: NgxResult = NGX_RESULT_FAIL + 9;

/// A required input is missing.
pub const NGX_RESULT_FAIL_MISSING_INPUT: NgxResult = NGX_RESULT_FAIL + 10;

/// The library of the feature could not be initialized.
pub const NGX_RESULT_FAIL_UNABLE_TO_INITIALIZE_FEATURE: NgxResult = NGX_RESULT_FAIL + 11;

/// The driver or the feature library is too old.
pub const NGX_RESULT_FAIL_OUT_OF_DATE: NgxResult = NGX_RESULT_FAIL + 12;

/// There is not enough GPU memory.
pub const NGX_RESULT_FAIL_OUT_OF_GPU_MEMORY: NgxResult = NGX_RESULT_FAIL + 13;

/// A buffer has an unsupported format.
pub const NGX_RESULT_FAIL_UNSUPPORTED_FORMAT: NgxResult = NGX_RESULT_FAIL + 14;

/// The application data path cannot be written to.
pub const NGX_RESULT_FAIL_UNABLE_TO_WRITE_TO_APP_DATA_PATH: NgxResult = NGX_RESULT_FAIL + 15;

/// A parameter is not supported.
pub const NGX_RESULT_FAIL_UNSUPPORTED_PARAMETER: NgxResult = NGX_RESULT_FAIL + 16;

/// The application may not use the feature.
pub const NGX_RESULT_FAIL_DENIED: NgxResult = NGX_RESULT_FAIL + 17;

/// The functionality is not implemented.
pub const NGX_RESULT_FAIL_NOT_IMPLEMENTED: NgxResult = NGX_RESULT_FAIL + 18;

/// Errors returned by DLSS / the NGX SDK. Each variant stands for one NGX failure code; the full
/// NGX description is in [`DlssError::message`].
#[derive(Clone, Copy, Debug, PartialEq, Eq, Structural)]
pub enum DlssError {
    /// The NGX SDK or the requested feature is not supported on this system, hardware or graphics
    /// API.
    FeatureNotSupported,
    /// An error occurred in the underlying platform (graphics API, OS, or a system library).
    PlatformError,
    /// Feature creation failed because an identical feature already exists.
    FeatureAlreadyExists,
    /// No feature was found for the provided handle.
    FeatureNotFound,
    /// A provided parameter had an incorrect value or type, or a required parameter was missing.
    InvalidParameters,
    /// The feature's scratch buffer was missing or too small.
    ScratchBufferTooSmall,
    /// An NGX call was made before the SDK was initialized.
    NotInitialized,
    /// An input buffer had an unsupported format.
    UnsupportedInputFormat,
    /// An output buffer lacked read/write (UAV) access.
    RWFlagMissing,
    /// A required input was not provided (for example a null resource).
    MissingInput,
    /// The requested feature's library could not be found or initialized.
    UnableToInitializeFeature,
    /// A newer NVIDIA driver or feature library is required.
    OutOfDate,
    /// The system lacked sufficient GPU memory.
    OutOfGPUMemory,
    /// A provided buffer had an unsupported format.
    UnsupportedFormat,
    /// The SDK lacked write permission for the application data path.
    UnableToWriteToAppDataPath,
    /// A parameter is unsupported by the current version or has an unsupported value.
    UnsupportedParameter,
    /// NVIDIA has restricted use of this feature in the current application.
    Denied,
    /// The requested functionality is not implemented in the current SDK, driver or library.
    NotImplemented,
    /// An NGX result code not covered above.
    Other(NgxResult),
}

/// What the message of an unnamed code starts with; the code in hexadecimal follows.
pub const OTHER_MESSAGE_PREFIX: &'static str = "Unhandled NGX result code: 0x";

impl DlssError {
    /// The result code that this error stands for.
    pub open spec fn code(self) -> NgxResult {
        match self {
            DlssError::FeatureNotSupported => NGX_RESULT_FAIL_FEATURE_NOT_SUPPORTED,
            DlssError::PlatformError => NGX_RESULT_FAIL_PLATFORM_ERROR,
            DlssError::FeatureAlreadyExists => NGX_RESULT_FAIL_FEATURE_ALREADY_EXISTS,
            DlssError::FeatureNotFound => NGX_RESULT_FAIL_FEATURE_NOT_FOUND,
            DlssError::InvalidParameters => NGX_RESULT_FAIL_INVALID_PARAMETER,
            DlssError::ScratchBufferTooSmall => NGX_RESULT_FAIL_SCRATCH_BUFFER_TOO_SMALL,
            DlssError::NotInitialized => NGX_RESULT_FAIL_NOT_INITIALIZED,
            DlssError::UnsupportedInputFormat => NGX_RESULT_FAIL_UNSUPPORTED_INPUT_FORMAT,
            DlssError::RWFlagMissing => NGX_RESULT_FAIL_RW_FLAG_MISSING,
            DlssError::MissingInput => NGX_RESULT_FAIL_MISSING_INPUT,
            DlssError::UnableToInitializeFeature => NGX_RESULT_FAIL_UNABLE_TO_INITIALIZE_FEATURE,
            DlssError::OutOfDate => NGX_RESULT_FAIL_OUT_OF_DATE,
            DlssError::OutOfGPUMemory => NGX_RESULT_FAIL_OUT_OF_GPU_MEMORY,
            DlssError::UnsupportedFormat => NGX_RESULT_FAIL_UNSUPPORTED_FORMAT,
            DlssError::UnableToWriteToAppDataPath =>
                NGX_RESULT_FAIL_UNABLE_TO_WRITE_TO_APP_DATA_PATH,
            DlssError::UnsupportedParameter => NGX_RESULT_FAIL_UNSUPPORTED_PARAMETER,
            DlssError::Denied => NGX_RESULT_FAIL_DENIED,
            DlssError::NotImplemented => NGX_RESULT_FAIL_NOT_IMPLEMENTED,
            DlssError::Other(code) => code,
        }
    }

    /// The fixed text of a named error; for an unnamed one, what stands before its code.
    pub open spec fn text(self) -> &'static str {
        match self {
            DlssError::FeatureNotSupported =>
                "The NGX SDK or a specific feature is not supported by the current system, hardware, and/or graphics API.",
            DlssError::PlatformError =>
                "An error occurred within the underlying platform (graphics API, OS, or a system library such as NvAPI). Consult the NGX logs and the graphics API's validation layers.",
            DlssError::FeatureAlreadyExists =>
                "The NGX feature could not be created because a feature with identical parameters already exists, and the feature does not support multiple identical instances.",
            DlssError::FeatureNotFound =>
                "A feature associated with the provided handle could not be found.",
            DlssError::InvalidParameters =>
                "One or more provided parameters had an incorrect value or type, or a required parameter was not provided.",
            DlssError::ScratchBufferTooSmall =>
                "The feature requires a scratch buffer, but none was provided or the provided buffer is too small.",
            DlssError::NotInitialized =>
                "A function that requires the NGX SDK to be initialized was called before the SDK was properly initialized.",
            DlssError::UnsupportedInputFormat =>
                "One or more input buffers supplied to the feature had an unsupported format.",
            DlssError::RWFlagMissing =>
                "The feature requires read/write access to output buffers, but one or more provided buffers did not have the correct access flags (UAV in D3D11/D3D12).",
            DlssError::MissingInput => "A required input parameter was not provided.",
            DlssError::UnableToInitializeFeature =>
                "The requested feature could not be initialized, likely because the library for that feature could not be found.",
            DlssError::OutOfDate =>
                "A function was used which requires a newer version of the NVIDIA Display Driver or feature library than is currently installed.",
            DlssError::OutOfGPUMemory =>
                "An operation could not be completed because the system lacked sufficient GPU memory.",
            DlssError::UnsupportedFormat =>
                "One or more buffers provided to the feature had an unsupported format.",
            DlssError::UnableToWriteToAppDataPath =>
                "The SDK does not have the necessary write permissions for the path specified in InApplicationDataPath.",
            DlssError::UnsupportedParameter =>
                "A parameter supplied to the feature is either unsupported by the current version or has an unsupported value.",
            DlssError::Denied =>
                "NVIDIA has restricted the use of this feature in the current application. Contact NVIDIA for further information.",
            DlssError::NotImplemented =>
                "The requested feature or functionality has not been implemented in the current version of the NGX SDK, display driver, or feature library.",
            DlssError::Other(_) => OTHER_MESSAGE_PREFIX,
        }
    }

    /// What the error says to a reader: its text, followed for an unnamed code by that code as an
    /// unsigned hexadecimal number.
    pub open spec fn spec_message(self) -> Seq<char> {
        match self {
            DlssError::Other(code) => self.text()@ + crate::text::hex_shortest(
                code as u32 as nat,
            ),
            _ => self.text()@,
        }
    }

    fn static_text(&self) -> (r: &'static str)
        ensures
            r == self.text(),
    {
        match self {
            DlssError::FeatureNotSupported =>
                "The NGX SDK or a specific feature is not supported by the current system, hardware, and/or graphics API.",
            DlssError::PlatformError =>
                "An error occurred within the underlying platform (graphics API, OS, or a system library such as NvAPI). Consult the NGX logs and the graphics API's validation layers.",
            DlssError::FeatureAlreadyExists =>
                "The NGX feature could not be created because a feature with identical parameters already exists, and the feature does not support multiple identical instances.",
            DlssError::FeatureNotFound =>
                "A feature associated with the provided handle could not be found.",
            DlssError::InvalidParameters =>
                "One or more provided parameters had an incorrect value or type, or a required parameter was not provided.",
            DlssError::ScratchBufferTooSmall =>
                "The feature requires a scratch buffer, but none was provided or the provided buffer is too small.",
            DlssError::NotInitialized =>
                "A function that requires the NGX SDK to be initialized was called before the SDK was properly initialized.",
            DlssError::UnsupportedInputFormat =>
                "One or more input buffers supplied to the feature had an unsupported format.",
            DlssError::RWFlagMissing =>
                "The feature requires read/write access to output buffers, but one or more provided buffers did not have the correct access flags (UAV in D3D11/D3D12).",
            DlssError::MissingInput => "A required input parameter was not provided.",
            DlssError::UnableToInitializeFeature =>
                "The requested feature could not be initialized, likely because the library for that feature could not be found.",
            DlssError::OutOfDate =>
                "A function was used which requires a newer version of the NVIDIA Display Driver or feature library than is currently installed.",
            DlssError::OutOfGPUMemory =>
                "An operation could not be completed because the system lacked sufficient GPU memory.",
            DlssError::UnsupportedFormat =>
                "One or more buffers provided to the feature had an unsupported format.",
            DlssError::UnableToWriteToAppDataPath =>
                "The SDK does not have the necessary write permissions for the path specified in InApplicationDataPath.",
            DlssError::UnsupportedParameter =>
                "A parameter supplied to the feature is either unsupported by the current version or has an unsupported value.",
            DlssError::Denied =>
                "NVIDIA has restricted the use of this feature in the current application. Contact NVIDIA for further information.",
            DlssError::NotImplemented =>
                "The requested feature or functionality has not been implemented in the current version of the NGX SDK, display driver, or feature library.",
            DlssError::Other(_) => OTHER_MESSAGE_PREFIX,
        }
    }

    /// The error's description, for logs and error reports.
    pub fn message(&self) -> (r: String)
        ensures
            r@ == self.spec_message(),
    {
        let mut out = self.static_text().to_string();
        if let DlssError::Other(code) = self {
            push_hex_shortest(&mut out, *code as u32);
        }
        out
    }
}

/// The codes that have an error variant of their own.
pub open spec fn is_named_failure(result: NgxResult) -> bool {
    NGX_RESULT_FAIL < result <= NGX_RESULT_FAIL_NOT_IMPLEMENTED
}

impl DlssError {
    /// Whether this is the error for the code `result`: the variant of that code, or, for a code
    /// without one, `Other`.
    pub open spec fn stands_for(self, result: NgxResult) -> bool {
        self.code() == result && (self is Other <==> !is_named_failure(result))
    }
}

/// The error that stands for a failing result code.
pub open spec fn error_of(result: NgxResult) -> DlssError {
    choose|e: DlssError| e.stands_for(result)
}

/// What an NGX call with this result code comes to.
pub open spec fn outcome_of(result: NgxResult) -> Result<(), DlssError> {
    if result == NGX_RESULT_SUCCESS {
        Ok(())
    } else {
        Err(error_of(result))
    }
}

/// One error stands for a code, and an error stands for one code: a failing call is never reported
/// as another failure.
pub proof fn errors_and_codes_correspond(a: DlssError, b: DlssError, code: NgxResult)
    requires
        a.stands_for(code),
    ensures
        b.stands_for(code) <==> a == b,
        error_of(code) == a,
        forall|other: NgxResult| a.stands_for(other) ==> other == code,
{
    assert(error_of(code).stands_for(code));
}

/// Turns an NGX result code into `Ok` or the error that stands for it. A code without a variant of
/// its own is carried along.
pub fn check_ngx_result(result: NgxResult) -> (r: Result<(), DlssError>)
    ensures
        r == outcome_of(result),
        r is Ok <==> result == NGX_RESULT_SUCCESS,
        r matches Err(e) ==> e.stands_for(result),
{
    if result == NGX_RESULT_SUCCESS {
        return Ok(());
    }
    let error =
        if result == NGX_RESULT_FAIL_FEATURE_NOT_SUPPORTED {
            DlssError::FeatureNotSupported
        } else if result == NGX_RESULT_FAIL_PLATFORM_ERROR {
            DlssError::PlatformError
        } else if result == NGX_RESULT_FAIL_FEATURE_ALREADY_EXISTS {
            DlssError::FeatureAlreadyExists
        } else if result == NGX_RESULT_FAIL_FEATURE_NOT_FOUND {
            DlssError::FeatureNotFound
        } else if result == NGX_RESULT_FAIL_INVALID_PARAMETER {
            DlssError::InvalidParameters
        } else if result == NGX_RESULT_FAIL_SCRATCH_BUFFER_TOO_SMALL {
            DlssError::ScratchBufferTooSmall
        } else if result == NGX_RESULT_FAIL_NOT_INITIALIZED {
            DlssError::NotInitialized
        } else if result == NGX_RESULT_FAIL_UNSUPPORTED_INPUT_FORMAT {
            DlssError::UnsupportedInputFormat
        } else if result == NGX_RESULT_FAIL_RW_FLAG_MISSING {
            DlssError::RWFlagMissing
        } else if result == NGX_RESULT_FAIL_MISSING_INPUT {
            DlssError::MissingInput
        } else if result == NGX_RESULT_FAIL_UNABLE_TO_INITIALIZE_FEATURE {
            DlssError::UnableToInitializeFeature
        } else if result == NGX_RESULT_FAIL_OUT_OF_DATE {
            DlssError::OutOfDate
        } else if result == NGX_RESULT_FAIL_OUT_OF_GPU_MEMORY {
            DlssError::OutOfGPUMemory
        } else if result == NGX_RESULT_FAIL_UNSUPPORTED_FORMAT {
            DlssError::UnsupportedFormat
        } else if result == NGX_RESULT_FAIL_UNABLE_TO_WRITE_TO_APP_DATA_PATH {
            DlssError::UnableToWriteToAppDataPath
        } else if result == NGX_RESULT_FAIL_UNSUPPORTED_PARAMETER {
            DlssError::UnsupportedParameter
        } else if result == NGX_RESULT_FAIL_DENIED {
            DlssError::Denied
        } else if result == NGX_RESULT_FAIL_NOT_IMPLEMENTED {
            DlssError::NotImplemented
        } else {
            DlssError::Other(result)
        };
    proof {
        errors_and_codes_correspond(error, error, result);
    }
    Err(error)
}

} // verus!

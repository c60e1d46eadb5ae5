//! What errors, results and states say to a reader.

use crate::context::DlssContext;
use crate::error::Error;
use crate::ngx_feature::NgxFeature;
use crate::nvsdk_ngx::{check_ngx_result, DlssError};
use crate::ray_reconstruction::DlssRayReconstructionContext;
use crate::streamline::dlssg_status::decode;
use crate::streamline::error::StreamlineError;
use crate::streamline::frame::{Frame, OrderError, Step};
use crate::streamline::result::SlResult;
use crate::text::{join, push_decimal, push_hex_fixed, push_hex_shortest};
use vstd::prelude::*;

verus! {

/// The value of a digit.
pub open spec fn digit_value(c: char) -> int {
    if '0' <= c <= '9' {
        c as int - '0' as int
    } else {
        c as int - 'a' as int + 10
    }
}

/// Whether a character is a digit of a base of at most sixteen, in lower case.
pub open spec fn is_digit(c: char, base: int) -> bool {
    ('0' <= c <= '9' || 'a' <= c <= 'f') && digit_value(c) < base
}

/// The number that digits stand for, the most significant first.
pub open spec fn value_of(digits: Seq<char>, base: int) -> int
    decreases digits.len(),
{
    if digits.len() == 0 {
        0
    } else {
        value_of(digits.drop_last(), base) * base + digit_value(digits.last())
    }
}

/// Whether a text is a number in a base: digits of that base with this value.
pub open spec fn is_number(digits: Seq<char>, base: int, value: int) -> bool {
    &&& digits.len() > 0
    &&& forall|i: int| 0 <= i < digits.len() ==> is_digit(#[trigger] digits[i], base)
    &&& value_of(digits, base) == value
}

/// Whether a text is the shortest number of this value in a base.
pub open spec fn is_shortest_number(digits: Seq<char>, base: int, value: int) -> bool {
    &&& is_number(digits, base, value)
    &&& digits[0] == '0' ==> digits.len() == 1
}

proof fn digits_have_their_value(n: int)
    requires
        0 <= n < 16,
    ensures
        digit_value(crate::text::hex_digit(n)) == n,
        n < 10 ==> is_digit(crate::text::hex_digit(n), 10),
        is_digit(crate::text::hex_digit(n), 16),
        crate::text::hex_digit(n) == '0' <==> n == 0,
{
    if n < 10 {
        assert(48 <= 48 + n < 58);
    } else {
        assert(97 <= 87 + n < 103);
    }
}

proof fn decimals_have_their_value(n: nat)
    ensures
        is_shortest_number(crate::text::decimal(n), 10, n as int),
        crate::text::decimal(n)[0] == '0' <==> n == 0,
    decreases n,
{
    reveal_with_fuel(value_of, 2);
    digits_have_their_value((n % 10) as int);
    let digits = crate::text::decimal(n);
    if n < 10 {
        assert(digits.drop_last() =~= seq![]);
    } else {
        decimals_have_their_value(n / 10);
        assert(digits.drop_last() =~= crate::text::decimal(n / 10));
        assert(digits[0] == crate::text::decimal(n / 10)[0]);
    }
}

proof fn shortest_hexadecimals_have_their_value(n: nat)
    ensures
        is_shortest_number(crate::text::hex_shortest(n), 16, n as int),
        crate::text::hex_shortest(n)[0] == '0' <==> n == 0,
    decreases n,
{
    reveal_with_fuel(value_of, 2);
    digits_have_their_value((n % 16) as int);
    let digits = crate::text::hex_shortest(n);
    if n < 16 {
        assert(digits.drop_last() =~= seq![]);
    } else {
        shortest_hexadecimals_have_their_value(n / 16);
        assert(digits.drop_last() =~= crate::text::hex_shortest(n / 16));
        assert(digits[0] == crate::text::hex_shortest(n / 16)[0]);
    }
}

/// A number of a fixed width is written with that many digits, if it fits.
pub proof fn fixed_hexadecimals_have_their_value(n: int, width: nat)
    requires
        0 <= n,
        width > 0,
        n < vstd::arithmetic::power::pow(16, width),
    ensures
        is_number(crate::text::hex_fixed(n, width), 16, n),
        crate::text::hex_fixed(n, width).len() == width,
    decreases width,
{
    reveal_with_fuel(value_of, 2);
    reveal_with_fuel(vstd::arithmetic::power::pow, 2);
    digits_have_their_value(n % 16);
    let digits = crate::text::hex_fixed(n, width);
    assert(digits.drop_last() =~= crate::text::hex_fixed(n / 16, (width - 1) as nat));
    if width > 1 {
        fixed_hexadecimals_have_their_value(n / 16, (width - 1) as nat);
    } else {
        assert(crate::text::hex_fixed(n / 16, 0) =~= seq![]);
    }
}

/// Numbers are appended so that they can be read back: in decimal and in hexadecimal without leading
/// zeroes, or as eight hexadecimal digits. What stood before stays.
pub proof fn numbers_can_be_read_back(
    decimal: &mut String,
    shortest: &mut String,
    fixed: &mut String,
    n: u32,
)
    requires
        call_ensures(push_decimal, (decimal, n), ()),
        call_ensures(push_hex_shortest, (shortest, n), ()),
        call_ensures(push_hex_fixed, (fixed, n, 8u32), ()),
    ensures
        exists|digits: Seq<char>|
            #[trigger] is_shortest_number(digits, 10, n as int) && final(decimal)@ == old(decimal)@
                + digits,
        exists|digits: Seq<char>|
            #[trigger] is_shortest_number(digits, 16, n as int) && final(shortest)@ == old(
                shortest,
            )@ + digits,
        exists|digits: Seq<char>|
            #[trigger] is_number(digits, 16, n as int) && digits.len() == 8 && final(fixed)@ == old(
                fixed,
            )@ + digits,
{
    reveal_with_fuel(vstd::arithmetic::power::pow, 9);
    decimals_have_their_value(n as nat);
    shortest_hexadecimals_have_their_value(n as nat);
    fixed_hexadecimals_have_their_value(n as int, 8);
}

/// Joining nothing gives nothing, joining one part gives that part, and each further part is appended
/// with the separator before it.
pub proof fn parts_are_joined_one_by_one(
    parts: Vec<&'static str>,
    more: Vec<&'static str>,
    part: &'static str,
    separator: &str,
    joined: String,
    joined_more: String,
)
    requires
        more@ == parts@.push(part),
        call_ensures(join, (&parts, separator), joined),
        call_ensures(join, (&more, separator), joined_more),
    ensures
        parts.len() == 0 ==> joined@.len() == 0 && joined_more@ == part@,
        parts.len() > 0 ==> joined_more@ == joined@ + separator@ + part@,
{
    let a = crate::text::texts(parts@);
    let b = crate::text::texts(more@);
    assert(b.drop_last() =~= a);
    assert(b.last() == part@);
}

/// The names of the bits that are set, from the lowest up.
pub open spec fn names_of_bits(status: u32) -> Seq<&'static str> {
    named(status % 2 == 1, "eFailResolutionTooLow") + named(
        status / 2 % 2 == 1,
        "eFailReflexNotDetectedAtRuntime",
    ) + named(status / 4 % 2 == 1, "eFailHDRFormatNotSupported") + named(
        status / 8 % 2 == 1,
        "eFailCommonConstantsInvalid",
    ) + named(status / 16 % 2 == 1, "eFailGetCurrentBackBufferIndexNotCalled") + named(
        status / 32 % 2 == 1,
        "eReserved5",
    )
}

/// The name alone where it applies.
pub open spec fn named(applies: bool, name: &'static str) -> Seq<&'static str> {
    if applies {
        seq![name]
    } else {
        seq![]
    }
}

/// A status reads as fine where no bit is set, and otherwise as the names of its bits, with bars
/// between them; one that sets only bits without a name reads as its digits.
pub proof fn a_status_reads_as_its_bits(
    status: u32,
    text: String,
    parts: Vec<&'static str>,
    joined: String,
)
    requires
        call_ensures(decode, (status,), text),
        parts@ == names_of_bits(status),
        call_ensures(join, (&parts, " | "), joined),
    ensures
        status == 0 ==> text@ == "eOk"@,
        status != 0 && parts.len() > 0 ==> text@ == joined@,
        status != 0 && parts.len() == 0 ==> exists|digits: Seq<char>|
            #[trigger] is_number(digits, 16, status as int) && digits.len() == 8 && text@
                == "<unknown status 0x"@ + digits + ">"@,
{
    assert((status & 1 != 0) == (status % 2 == 1)) by (bit_vector);
    assert((status & 2 != 0) == (status / 2 % 2 == 1)) by (bit_vector);
    assert((status & 4 != 0) == (status / 4 % 2 == 1)) by (bit_vector);
    assert((status & 8 != 0) == (status / 8 % 2 == 1)) by (bit_vector);
    assert((status & 16 != 0) == (status / 16 % 2 == 1)) by (bit_vector);
    assert((status & 32 != 0) == (status / 32 % 2 == 1)) by (bit_vector);
    assert(names_of_bits(status) =~= crate::streamline::dlssg_status::failure_names(status));
    reveal_with_fuel(vstd::arithmetic::power::pow, 9);
    fixed_hexadecimals_have_their_value(status as int, 8);
}

/// Each Streamline error says what failed and carries over what it knows of that.
pub proof fn streamline_errors_say_what_failed(error: StreamlineError, message: String)
    requires
        call_ensures(StreamlineError::message, (&error,), message),
    ensures
        match error {
            StreamlineError::SdkPathNotSet => message@
                == "the STREAMLINE_SDK environment variable is not set; cannot locate sl.interposer.dll (expected at $STREAMLINE_SDK/bin/x64/sl.interposer.dll)"@,
            StreamlineError::InterposerNotFound(path) => message@
                == "sl.interposer.dll was not found at the expected path: "@ + path@,
            StreamlineError::LoaderShimConflict(path) => message@
                == "a loader-shim copy of sl.interposer.dll conflicts with the interposer proxy; remove it from beside the executable: "@
                + path@,
            StreamlineError::SignatureVerificationFailed(detail) => message@
                == "sl.interposer.dll signature verification failed: "@ + detail@,
            StreamlineError::UntrustedSigner(subject) => message@
                == "sl.interposer.dll is signed, but the signer subject is not NVIDIA (subject: "@
                + crate::text::quoted(subject@) + ")"@,
            StreamlineError::LibraryLoadFailed { path, source } => message@
                == "failed to load sl.interposer.dll from "@ + path@ + ": "@ + source@,
            StreamlineError::MissingExport { symbol, source } => message@
                == "missing exported Streamline symbol "@ + crate::text::quoted(symbol@) + ": "@
                + source@,
            StreamlineError::FeatureFunctionUnavailable { feature, function, detail } => message@
                == "slGetFeatureFunction(feature="@ + crate::text::decimal(feature as nat) + ", "@
                + crate::text::quoted(function@) + ") failed: "@ + detail@,
            StreamlineError::SlCall { function, result } => message@ == function@ + " returned "@
                + result.text()@,
            StreamlineError::ContextAlreadyCreated => message@
                == "a FrameGenerationContext was already created from this Streamline handle"@,
            StreamlineError::FeatureNotSupported(result) => message@
                == "DLSS Frame Generation is not supported on this system: slIsFeatureSupported returned "@
                + result.text()@,
            StreamlineError::SurfaceUnavailable { status } => message@
                == "the wgpu surface is unavailable this frame ("@ + status@
                + "); reconfigure the surface and retry"@,
        },
{
}

/// Each named NGX error says what it is for, and an unnamed one its code.
pub proof fn ngx_errors_say_what_they_are_for(error: DlssError, message: String)
    requires
        call_ensures(DlssError::message, (&error,), message),
    ensures
        match error {
            DlssError::FeatureNotSupported => message@
                == "The NGX SDK or a specific feature is not supported by the current system, hardware, and/or graphics API."@,
            DlssError::PlatformError => message@
                == "An error occurred within the underlying platform (graphics API, OS, or a system library such as NvAPI). Consult the NGX logs and the graphics API's validation layers."@,
            DlssError::FeatureAlreadyExists => message@
                == "The NGX feature could not be created because a feature with identical parameters already exists, and the feature does not support multiple identical instances."@,
            DlssError::FeatureNotFound => message@
                == "A feature associated with the provided handle could not be found."@,
            DlssError::InvalidParameters => message@
                == "One or more provided parameters had an incorrect value or type, or a required parameter was not provided."@,
            DlssError::ScratchBufferTooSmall => message@
                == "The feature requires a scratch buffer, but none was provided or the provided buffer is too small."@,
            DlssError::NotInitialized => message@
                == "A function that requires the NGX SDK to be initialized was called before the SDK was properly initialized."@,
            DlssError::UnsupportedInputFormat => message@
                == "One or more input buffers supplied to the feature had an unsupported format."@,
            DlssError::RWFlagMissing => message@
                == "The feature requires read/write access to output buffers, but one or more provided buffers did not have the correct access flags (UAV in D3D11/D3D12)."@,
            DlssError::MissingInput => message@
                == "A required input parameter was not provided."@,
            DlssError::UnableToInitializeFeature => message@
                == "The requested feature could not be initialized, likely because the library for that feature could not be found."@,
            DlssError::OutOfDate => message@
                == "A function was used which requires a newer version of the NVIDIA Display Driver or feature library than is currently installed."@,
            DlssError::OutOfGPUMemory => message@
                == "An operation could not be completed because the system lacked sufficient GPU memory."@,
            DlssError::UnsupportedFormat => message@
                == "One or more buffers provided to the feature had an unsupported format."@,
            DlssError::UnableToWriteToAppDataPath => message@
                == "The SDK does not have the necessary write permissions for the path specified in InApplicationDataPath."@,
            DlssError::UnsupportedParameter => message@
                == "A parameter supplied to the feature is either unsupported by the current version or has an unsupported value."@,
            DlssError::Denied => message@
                == "NVIDIA has restricted the use of this feature in the current application. Contact NVIDIA for further information."@,
            DlssError::NotImplemented => message@
                == "The requested feature or functionality has not been implemented in the current version of the NGX SDK, display driver, or feature library."@,
            DlssError::Other(code) => message@ == "Unhandled NGX result code: 0x"@
                + crate::text::hex_shortest(code as u32 as nat),
        },
{
}

/// Each Streamline result has its name and its number, and every other number stands for none.
pub proof fn results_have_their_names_and_numbers(
    result: SlResult,
    name: &'static str,
    ok: bool,
    number: i32,
    of_number: Option<SlResult>,
)
    requires
        call_ensures(SlResult::name, (result,), name),
        call_ensures(SlResult::is_ok, (result,), ok),
        call_ensures(SlResult::from_number, (number,), of_number),
    ensures
        ok <==> result == SlResult::Success,
        match result {
            SlResult::Success => name@ == "Ok"@,
            SlResult::ErrorIO => name@ == "ErrorIO"@,
            SlResult::ErrorDriverOutOfDate => name@ == "ErrorDriverOutOfDate"@,
            SlResult::ErrorOSOutOfDate => name@ == "ErrorOSOutOfDate"@,
            SlResult::ErrorOSDisabledHWS => name@ == "ErrorOSDisabledHWS"@,
            SlResult::ErrorDeviceNotCreated => name@ == "ErrorDeviceNotCreated"@,
            SlResult::ErrorNoSupportedAdapterFound => name@ == "ErrorNoSupportedAdapterFound"@,
            SlResult::ErrorAdapterNotSupported => name@ == "ErrorAdapterNotSupported"@,
            SlResult::ErrorNoPlugins => name@ == "ErrorNoPlugins"@,
            SlResult::ErrorVulkanAPI => name@ == "ErrorVulkanAPI"@,
            SlResult::ErrorDXGIAPI => name@ == "ErrorDXGIAPI"@,
            SlResult::ErrorD3DAPI => name@ == "ErrorD3DAPI"@,
            SlResult::ErrorNRDAPI => name@ == "ErrorNRDAPI"@,
            SlResult::ErrorNVAPI => name@ == "ErrorNVAPI"@,
            SlResult::ErrorReflexAPI => name@ == "ErrorReflexAPI"@,
            SlResult::ErrorNGXFailed => name@ == "ErrorNGXFailed"@,
            SlResult::ErrorJSONParsing => name@ == "ErrorJSONParsing"@,
            SlResult::ErrorMissingProxy => name@ == "ErrorMissingProxy"@,
            SlResult::ErrorMissingResourceState => name@ == "ErrorMissingResourceState"@,
            SlResult::ErrorInvalidIntegration => name@ == "ErrorInvalidIntegration"@,
            SlResult::ErrorMissingInputParameter => name@ == "ErrorMissingInputParameter"@,
            SlResult::ErrorNotInitialized => name@ == "ErrorNotInitialized"@,
            SlResult::ErrorComputeFailed => name@ == "ErrorComputeFailed"@,
            SlResult::ErrorInitNotCalled => name@ == "ErrorInitNotCalled"@,
            SlResult::ErrorExceptionHandler => name@ == "ErrorExceptionHandler"@,
            SlResult::ErrorInvalidParameter => name@ == "ErrorInvalidParameter"@,
            SlResult::ErrorMissingConstants => name@ == "ErrorMissingConstants"@,
            SlResult::ErrorDuplicatedConstants => name@ == "ErrorDuplicatedConstants"@,
            SlResult::ErrorMissingOrInvalidAPI => name@ == "ErrorMissingOrInvalidAPI"@,
            SlResult::ErrorCommonConstantsMissing => name@ == "ErrorCommonConstantsMissing"@,
            SlResult::ErrorUnsupportedInterface => name@ == "ErrorUnsupportedInterface"@,
            SlResult::ErrorFeatureMissing => name@ == "ErrorFeatureMissing"@,
            SlResult::ErrorFeatureNotSupported => name@ == "ErrorFeatureNotSupported"@,
            SlResult::ErrorFeatureMissingHooks => name@ == "ErrorFeatureMissingHooks"@,
            SlResult::ErrorFeatureFailedToLoad => name@ == "ErrorFeatureFailedToLoad"@,
            SlResult::ErrorFeatureWrongPriority => name@ == "ErrorFeatureWrongPriority"@,
            SlResult::ErrorFeatureMissingDependency => name@ == "ErrorFeatureMissingDependency"@,
            SlResult::ErrorFeatureManagerInvalidState => name@ == "ErrorFeatureManagerInvalidState"@,
            SlResult::ErrorInvalidState => name@ == "ErrorInvalidState"@,
            SlResult::WarnOutOfVRAM => name@ == "WarnOutOfVRAM"@,
        },
        of_number is Some <==> 0 <= number < 40,
        match number {
            0 => of_number == Some(SlResult::Success),
            1 => of_number == Some(SlResult::ErrorIO),
            2 => of_number == Some(SlResult::ErrorDriverOutOfDate),
            3 => of_number == Some(SlResult::ErrorOSOutOfDate),
            4 => of_number == Some(SlResult::ErrorOSDisabledHWS),
            5 => of_number == Some(SlResult::ErrorDeviceNotCreated),
            6 => of_number == Some(SlResult::ErrorNoSupportedAdapterFound),
            7 => of_number == Some(SlResult::ErrorAdapterNotSupported),
            8 => of_number == Some(SlResult::ErrorNoPlugins),
            9 => of_number == Some(SlResult::ErrorVulkanAPI),
            10 => of_number == Some(SlResult::ErrorDXGIAPI),
            11 => of_number == Some(SlResult::ErrorD3DAPI),
            12 => of_number == Some(SlResult::ErrorNRDAPI),
            13 => of_number == Some(SlResult::ErrorNVAPI),
            14 => of_number == Some(SlResult::ErrorReflexAPI),
            15 => of_number == Some(SlResult::ErrorNGXFailed),
            16 => of_number == Some(SlResult::ErrorJSONParsing),
            17 => of_number == Some(SlResult::ErrorMissingProxy),
            18 => of_number == Some(SlResult::ErrorMissingResourceState),
            19 => of_number == Some(SlResult::ErrorInvalidIntegration),
            20 => of_number == Some(SlResult::ErrorMissingInputParameter),
            21 => of_number == Some(SlResult::ErrorNotInitialized),
            22 => of_number == Some(SlResult::ErrorComputeFailed),
            23 => of_number == Some(SlResult::ErrorInitNotCalled),
            24 => of_number == Some(SlResult::ErrorExceptionHandler),
            25 => of_number == Some(SlResult::ErrorInvalidParameter),
            26 => of_number == Some(SlResult::ErrorMissingConstants),
            27 => of_number == Some(SlResult::ErrorDuplicatedConstants),
            28 => of_number == Some(SlResult::ErrorMissingOrInvalidAPI),
            29 => of_number == Some(SlResult::ErrorCommonConstantsMissing),
            30 => of_number == Some(SlResult::ErrorUnsupportedInterface),
            31 => of_number == Some(SlResult::ErrorFeatureMissing),
            32 => of_number == Some(SlResult::ErrorFeatureNotSupported),
            33 => of_number == Some(SlResult::ErrorFeatureMissingHooks),
            34 => of_number == Some(SlResult::ErrorFeatureFailedToLoad),
            35 => of_number == Some(SlResult::ErrorFeatureWrongPriority),
            36 => of_number == Some(SlResult::ErrorFeatureMissingDependency),
            37 => of_number == Some(SlResult::ErrorFeatureManagerInvalidState),
            38 => of_number == Some(SlResult::ErrorInvalidState),
            39 => of_number == Some(SlResult::WarnOutOfVRAM),
            _ => of_number is None,
        },
{
    assert(SlResult::Success.number() == 0);
    assert(SlResult::ErrorIO.number() == 1);
    assert(SlResult::ErrorDriverOutOfDate.number() == 2);
    assert(SlResult::ErrorOSOutOfDate.number() == 3);
    assert(SlResult::ErrorOSDisabledHWS.number() == 4);
    assert(SlResult::ErrorDeviceNotCreated.number() == 5);
    assert(SlResult::ErrorNoSupportedAdapterFound.number() == 6);
    assert(SlResult::ErrorAdapterNotSupported.number() == 7);
    assert(SlResult::ErrorNoPlugins.number() == 8);
    assert(SlResult::ErrorVulkanAPI.number() == 9);
    assert(SlResult::ErrorDXGIAPI.number() == 10);
    assert(SlResult::ErrorD3DAPI.number() == 11);
    assert(SlResult::ErrorNRDAPI.number() == 12);
    assert(SlResult::ErrorNVAPI.number() == 13);
    assert(SlResult::ErrorReflexAPI.number() == 14);
    assert(SlResult::ErrorNGXFailed.number() == 15);
    assert(SlResult::ErrorJSONParsing.number() == 16);
    assert(SlResult::ErrorMissingProxy.number() == 17);
    assert(SlResult::ErrorMissingResourceState.number() == 18);
    assert(SlResult::ErrorInvalidIntegration.number() == 19);
    assert(SlResult::ErrorMissingInputParameter.number() == 20);
    assert(SlResult::ErrorNotInitialized.number() == 21);
    assert(SlResult::ErrorComputeFailed.number() == 22);
    assert(SlResult::ErrorInitNotCalled.number() == 23);
    assert(SlResult::ErrorExceptionHandler.number() == 24);
    assert(SlResult::ErrorInvalidParameter.number() == 25);
    assert(SlResult::ErrorMissingConstants.number() == 26);
    assert(SlResult::ErrorDuplicatedConstants.number() == 27);
    assert(SlResult::ErrorMissingOrInvalidAPI.number() == 28);
    assert(SlResult::ErrorCommonConstantsMissing.number() == 29);
    assert(SlResult::ErrorUnsupportedInterface.number() == 30);
    assert(SlResult::ErrorFeatureMissing.number() == 31);
    assert(SlResult::ErrorFeatureNotSupported.number() == 32);
    assert(SlResult::ErrorFeatureMissingHooks.number() == 33);
    assert(SlResult::ErrorFeatureFailedToLoad.number() == 34);
    assert(SlResult::ErrorFeatureWrongPriority.number() == 35);
    assert(SlResult::ErrorFeatureMissingDependency.number() == 36);
    assert(SlResult::ErrorFeatureManagerInvalidState.number() == 37);
    assert(SlResult::ErrorInvalidState.number() == 38);
    assert(SlResult::WarnOutOfVRAM.number() == 39);
}

/// An error of either path says what it said before it was converted.
pub proof fn either_error_says_the_same(
    dlss: DlssError,
    said_by_dlss: String,
    through_dlss: String,
    streamline: StreamlineError,
    said_by_streamline: String,
    through_streamline: String,
)
    requires
        call_ensures(DlssError::message, (&dlss,), said_by_dlss),
        call_ensures(Error::message, (&Error::Dlss(dlss),), through_dlss),
        call_ensures(StreamlineError::message, (&streamline,), said_by_streamline),
        call_ensures(Error::message, (&Error::Streamline(streamline),), through_streamline),
    ensures
        through_dlss@ == said_by_dlss@,
        through_streamline@ == said_by_streamline@,
{
}

/// Whether a release was reported as it should be: not at all on success, and otherwise with the
/// prefix and with what the error of the result says.
pub open spec fn is_release_report(
    report: Option<String>,
    prefix: Seq<char>,
    result: i32,
    message: Seq<char>,
) -> bool {
    &&& report is None <==> result == 1
    &&& report matches Some(text) ==> text@ == prefix + message
}

/// A failure to release is reported with what failed and why, and a success is not.
pub proof fn failures_to_release_are_reported(
    result: i32,
    checked: Result<(), DlssError>,
    message: String,
    of_context: Option<String>,
    of_feature: Option<String>,
    of_reconstruction: Option<String>,
)
    requires
        call_ensures(check_ngx_result, (result,), checked),
        checked matches Err(e) ==> call_ensures(DlssError::message, (&e,), message),
        call_ensures(DlssContext::released, (result,), of_context),
        call_ensures(NgxFeature::released, (result,), of_feature),
        call_ensures(DlssRayReconstructionContext::released, (result,), of_reconstruction),
    ensures
        is_release_report(
            of_context,
            "Failed to release DlssContext feature: "@,
            result,
            message@,
        ),
        is_release_report(of_feature, "Failed to release DLSS feature: "@, result, message@),
        is_release_report(of_reconstruction, "Failed to release DLSS feature: "@, result, message@),
{
}

/// The name of a step in reports.
pub open spec fn name_of_step(step: Step) -> Seq<char> {
    match step {
        Step::Begun => "Begun"@,
        Step::Constants => "Constants"@,
        Step::Acquired => "Acquired"@,
        Step::Tagged => "Tagged"@,
        Step::RenderEnded => "RenderEnded"@,
        Step::Presented => "Presented"@,
    }
}

/// Each step is labelled with the operation that leads to it. A step out of order is reported with
/// that label and the steps that were expected and found; a frame that was not presented, with its
/// index and the step it was left at.
pub proof fn frames_report_their_steps(
    step: Step,
    label: &'static str,
    error: OrderError,
    to_label: &'static str,
    message: String,
    frame: Frame,
    report: Option<String>,
)
    requires
        call_ensures(Step::label, (step,), label),
        call_ensures(Step::label, (error.to,), to_label),
        call_ensures(OrderError::message, (&error,), message),
        call_ensures(Frame::dropped, (&frame,), report),
    ensures
        match step {
            Step::Begun => label@ == "begin_frame"@,
            Step::Constants => label@ == "set_constants"@,
            Step::Acquired => label@ == "acquire"@,
            Step::Tagged => label@ == "tag"@,
            Step::RenderEnded => label@ == "end_render"@,
            Step::Presented => label@ == "present"@,
        },
        message@ == "DLSS-G Frame: "@ + to_label@
            + " called out of order (expected previous step "@ + name_of_step(error.expected)
            + ", found "@ + name_of_step(error.found)
            + "); the proven per-frame sequence was violated and DLSS-G may decline to generate"@,
        report matches Some(text) ==> text@ == "DLSS-G Frame (index "@ + crate::text::decimal(
            frame.index as nat,
        ) + ") was dropped before present() (last step: "@ + name_of_step(frame.progress.step)
            + "); the frame was aborted and DLSS-G saw an incomplete per-frame sequence"@,
{
}

} // verus!

//! Errors of the Streamline path.

use crate::streamline::result::SlResult;
use crate::streamline::types::Feature;
use crate::text::{push_decimal, push_quoted};
use vstd::prelude::*;

verus! {

/// Errors raised while Streamline is located, verified, loaded or called. Each carries enough to
/// diagnose the failure without a debugger.
#[derive(Debug, PartialEq, Eq)]
pub enum StreamlineError {
    /// The environment variable that locates the SDK was not set.
    SdkPathNotSet,
    /// The interposer does not exist at its expected path.
    InterposerNotFound(String),
    /// A copy of the interposer stands beside the executable under the name of a graphics library.
    LoaderShimConflict(String),
    /// The signature of the interposer could not be verified. Loading is gated on this passing.
    SignatureVerificationFailed(String),
    /// The interposer is validly signed, but not by NVIDIA.
    UntrustedSigner(String),
    /// The verified interposer could not be loaded.
    LibraryLoadFailed {
        /// The path of the interposer.
        path: String,
        /// What the loader reported.
        source: String,
    },
    /// A required export of the interposer was missing.
    MissingExport {
        /// The name of the export.
        symbol: String,
        /// What the loader reported.
        source: String,
    },
    /// A feature function could not be resolved. A resolved function that fails is reported as
    /// [`StreamlineError::SlCall`].
    FeatureFunctionUnavailable {
        /// The feature that the function belongs to.
        feature: Feature,
        /// The name of the function.
        function: String,
        /// Why it could not be resolved.
        detail: String,
    },
    /// A resolved Streamline function failed.
    SlCall {
        /// The name of the function.
        function: String,
        /// What it returned.
        result: SlResult,
    },
    /// A context was already created from this handle, which yields exactly one.
    ContextAlreadyCreated,
    /// Frame generation is not supported on this system.
    FeatureNotSupported(SlResult),
    /// The surface cannot be presented this frame; reconfigure it and retry on the next one.
    SurfaceUnavailable {
        /// The status of the surface.
        status: String,
    },
}

/// What a [`StreamlineError`] says, with its texts as sequences of characters.
pub enum StreamlineErrorView {
    SdkPathNotSet,
    InterposerNotFound(Seq<char>),
    LoaderShimConflict(Seq<char>),
    SignatureVerificationFailed(Seq<char>),
    UntrustedSigner(Seq<char>),
    LibraryLoadFailed { path: Seq<char>, source: Seq<char> },
    MissingExport { symbol: Seq<char>, source: Seq<char> },
    FeatureFunctionUnavailable { feature: Feature, function: Seq<char>, detail: Seq<char> },
    SlCall { function: Seq<char>, result: SlResult },
    ContextAlreadyCreated,
    FeatureNotSupported(SlResult),
    SurfaceUnavailable { status: Seq<char> },
}

impl View for StreamlineError {
    type V = StreamlineErrorView;

    open spec fn view(&self) -> StreamlineErrorView {
        match self {
            StreamlineError::SdkPathNotSet => StreamlineErrorView::SdkPathNotSet,
            StreamlineError::InterposerNotFound(path) => StreamlineErrorView::InterposerNotFound(
                path@,
            ),
            StreamlineError::LoaderShimConflict(path) => StreamlineErrorView::LoaderShimConflict(
                path@,
            ),
            StreamlineError::SignatureVerificationFailed(detail) =>
                StreamlineErrorView::SignatureVerificationFailed(detail@),
            StreamlineError::UntrustedSigner(subject) => StreamlineErrorView::UntrustedSigner(
                subject@,
            ),
            StreamlineError::LibraryLoadFailed { path, source } =>
                StreamlineErrorView::LibraryLoadFailed { path: path@, source: source@ },
            StreamlineError::MissingExport { symbol, source } =>
                StreamlineErrorView::MissingExport { symbol: symbol@, source: source@ },
            StreamlineError::FeatureFunctionUnavailable { feature, function, detail } =>
                StreamlineErrorView::FeatureFunctionUnavailable {
                    feature: *feature,
                    function: function@,
                    detail: detail@,
                },
            StreamlineError::SlCall { function, result } => StreamlineErrorView::SlCall {
                function: function@,
                result: *result,
            },
            StreamlineError::ContextAlreadyCreated => StreamlineErrorView::ContextAlreadyCreated,
            StreamlineError::FeatureNotSupported(result) =>
                StreamlineErrorView::FeatureNotSupported(*result),
            StreamlineError::SurfaceUnavailable { status } =>
                StreamlineErrorView::SurfaceUnavailable { status: status@ },
        }
    }
}

/// The text of [`StreamlineError::SdkPathNotSet`].
pub const SDK_PATH_NOT_SET_TEXT: &'static str =
    "the STREAMLINE_SDK environment variable is not set; cannot locate sl.interposer.dll (expected at $STREAMLINE_SDK/bin/x64/sl.interposer.dll)";

/// What [`StreamlineError::InterposerNotFound`] starts with.
pub const INTERPOSER_NOT_FOUND_PREFIX: &'static str =
    "sl.interposer.dll was not found at the expected path: ";

/// What [`StreamlineError::LoaderShimConflict`] starts with.
pub const LOADER_SHIM_CONFLICT_PREFIX: &'static str =
    "a loader-shim copy of sl.interposer.dll conflicts with the interposer proxy; remove it from beside the executable: ";

/// What [`StreamlineError::SignatureVerificationFailed`] starts with.
pub const SIGNATURE_VERIFICATION_FAILED_PREFIX: &'static str =
    "sl.interposer.dll signature verification failed: ";

/// What stands before the subject in [`StreamlineError::UntrustedSigner`].
pub const UNTRUSTED_SIGNER_PREFIX: &'static str =
    "sl.interposer.dll is signed, but the signer subject is not NVIDIA (subject: ";

/// The text of [`StreamlineError::ContextAlreadyCreated`].
pub const CONTEXT_ALREADY_CREATED_TEXT: &'static str =
    "a FrameGenerationContext was already created from this Streamline handle";

/// What stands before the result in [`StreamlineError::FeatureNotSupported`].
pub const FEATURE_NOT_SUPPORTED_PREFIX: &'static str =
    "DLSS Frame Generation is not supported on this system: slIsFeatureSupported returned ";

impl StreamlineErrorView {
    /// What the error says to a reader.
    pub open spec fn message(self) -> Seq<char> {
        match self {
            StreamlineErrorView::SdkPathNotSet => SDK_PATH_NOT_SET_TEXT@,
            StreamlineErrorView::InterposerNotFound(path) => INTERPOSER_NOT_FOUND_PREFIX@ + path,
            StreamlineErrorView::LoaderShimConflict(path) => LOADER_SHIM_CONFLICT_PREFIX@ + path,
            StreamlineErrorView::SignatureVerificationFailed(detail) =>
                SIGNATURE_VERIFICATION_FAILED_PREFIX@ + detail,
            StreamlineErrorView::UntrustedSigner(subject) => UNTRUSTED_SIGNER_PREFIX@
                + crate::text::quoted(subject) + ")"@,
            StreamlineErrorView::LibraryLoadFailed { path, source } =>
                "failed to load sl.interposer.dll from "@ + path + ": "@ + source,
            StreamlineErrorView::MissingExport { symbol, source } =>
                "missing exported Streamline symbol "@ + crate::text::quoted(symbol) + ": "@
                    + source,
            StreamlineErrorView::FeatureFunctionUnavailable { feature, function, detail } =>
                "slGetFeatureFunction(feature="@ + crate::text::decimal(feature as nat) + ", "@
                    + crate::text::quoted(function) + ") failed: "@ + detail,
            StreamlineErrorView::SlCall { function, result } => function + " returned "@
                + result.text()@,
            StreamlineErrorView::ContextAlreadyCreated => CONTEXT_ALREADY_CREATED_TEXT@,
            StreamlineErrorView::FeatureNotSupported(result) => FEATURE_NOT_SUPPORTED_PREFIX@
                + result.text()@,
            StreamlineErrorView::SurfaceUnavailable { status } =>
                "the wgpu surface is unavailable this frame ("@ + status
                    + "); reconfigure the surface and retry"@,
        }
    }
}

impl StreamlineError {
    /// The error's description, for logs and error reports.
    pub fn message(&self) -> (r: String)
        ensures
            r@ == self@.message(),
    {
        match self {
            StreamlineError::SdkPathNotSet => SDK_PATH_NOT_SET_TEXT.to_string(),
            StreamlineError::InterposerNotFound(path) => {
                let mut out = INTERPOSER_NOT_FOUND_PREFIX.to_string();
                out.append(path.as_str());
                out
            },
            StreamlineError::LoaderShimConflict(path) => {
                let mut out = LOADER_SHIM_CONFLICT_PREFIX.to_string();
                out.append(path.as_str());
                out
            },
            StreamlineError::SignatureVerificationFailed(detail) => {
                let mut out = SIGNATURE_VERIFICATION_FAILED_PREFIX.to_string();
                out.append(detail.as_str());
                out
            },
            StreamlineError::UntrustedSigner(subject) => {
                let mut out = UNTRUSTED_SIGNER_PREFIX.to_string();
                push_quoted(&mut out, subject.as_str());
                out.append(")");
                out
            },
            StreamlineError::LibraryLoadFailed { path, source } => {
                let mut out = "failed to load sl.interposer.dll from ".to_string();
                out.append(path.as_str());
                out.append(": ");
                out.append(source.as_str());
                out
            },
            StreamlineError::MissingExport { symbol, source } => {
                let mut out = "missing exported Streamline symbol ".to_string();
                push_quoted(&mut out, symbol.as_str());
                out.append(": ");
                out.append(source.as_str());
                out
            },
            StreamlineError::FeatureFunctionUnavailable { feature, function, detail } => {
                let mut out = "slGetFeatureFunction(feature=".to_string();
                push_decimal(&mut out, *feature);
                out.append(", ");
                push_quoted(&mut out, function.as_str());
                out.append(") failed: ");
                out.append(detail.as_str());
                out
            },
            StreamlineError::SlCall { function, result } => {
                let mut out = function.clone();
                out.append(" returned ");
                out.append(result.name());
                out
            },
            StreamlineError::ContextAlreadyCreated => CONTEXT_ALREADY_CREATED_TEXT.to_string(),
            StreamlineError::FeatureNotSupported(result) => {
                let mut out = FEATURE_NOT_SUPPORTED_PREFIX.to_string();
                out.append(result.name());
                out
            },
            StreamlineError::SurfaceUnavailable { status } => {
                let mut out = "the wgpu surface is unavailable this frame (".to_string();
                out.append(status.as_str());
                out.append("); reconfigure the surface and retry");
                out
            },
        }
    }
}

} // verus!

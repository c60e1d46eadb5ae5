//! What NGX is told about the application when it is initialized: who it is, where it may keep data,
//! where the feature libraries are, and how much to log.

use crate::ngx_log::{current_filter, LogFilter};
use vstd::prelude::*;

verus! {

/// The engine version reported to NGX.
pub const ENGINE_VERSION: &'static str = "0.1.0";

/// The current directory, next to the executable.
pub const CURRENT_DIRECTORY: &'static str = ".";

/// Where the release libraries are within the SDK.
pub const RELEASE_LIBRARIES: &'static str = "/lib/Windows_x86_64/rel";

/// Where the development libraries, which draw an overlay, are within the SDK.
pub const DEVELOPMENT_LIBRARIES: &'static str = "/lib/Windows_x86_64/dev";

/// The 36 characters of a project id: its hexadecimal digits in lower case, in groups of 8, 4, 4, 4
/// and 12 with a hyphen between.
pub open spec fn hyphenated(id: u128) -> Seq<char> {
    crate::text::hex_fixed(id as int / 0x1_0000_0000_0000_0000_0000_0000, 8).push('-')
        + crate::text::hex_fixed(id as int / 0x1_0000_0000_0000_0000_0000, 4).push('-')
        + crate::text::hex_fixed(id as int / 0x1_0000_0000_0000_0000, 4).push('-')
        + crate::text::hex_fixed(id as int / 0x1_0000_0000_0000, 4).push('-')
        + crate::text::hex_fixed(id as int, 12)
}

/// `uuid::Uuid::to_string` (its `Display`) on the identifier that `from_u128` makes of `id`: the
/// hyphenated form, in lower case.
#[verifier::external_body]
fn uuid_text(id: u128) -> (r: String)
    ensures
        r@ == hyphenated(id),
{
    uuid::Uuid::from_u128(id).to_string()
}

/// Hexadecimal digits are never the NUL character.
proof fn hex_has_no_nul(n: int, width: nat)
    ensures
        crate::text::hex_fixed(n, width).len() == width,
        forall|i: int| 0 <= i < width ==> crate::text::hex_fixed(n, width)[i] != '\0',
    decreases width,
{
    if width > 0 {
        hex_has_no_nul(n / 16, (width - 1) as nat);
        let digit = n % 16;
        assert(crate::text::hex_digit(digit) != '\0') by {
            if digit < 10 {
                assert(48 <= 48 + digit < 58);
            } else {
                assert(97 <= 87 + digit < 103);
            }
        }
    }
}

/// A project id is 36 characters long and has no NUL among them, so it can be handed on as a C
/// string.
pub proof fn project_ids_are_c_strings(id: u128)
    ensures
        hyphenated(id).len() == 36,
        forall|i: int| 0 <= i < 36 ==> hyphenated(id)[i] != '\0',
{
    hex_has_no_nul(id as int / 0x1_0000_0000_0000_0000_0000_0000, 8);
    hex_has_no_nul(id as int / 0x1_0000_0000_0000_0000_0000, 4);
    hex_has_no_nul(id as int / 0x1_0000_0000_0000_0000, 4);
    hex_has_no_nul(id as int / 0x1_0000_0000_0000, 4);
    hex_has_no_nul(id as int, 12);
}

/// The UTF-16 code units of a character: one, or a surrogate pair.
pub open spec fn utf16_units(c: char) -> Seq<u16> {
    if (c as u32) < 0x1_0000 {
        seq![c as u16]
    } else {
        seq![
            (0xd800 + (c as u32 - 0x1_0000) / 0x400) as u16,
            (0xdc00 + (c as u32 - 0x1_0000) % 0x400) as u16,
        ]
    }
}

/// The UTF-16 code units of a text.
pub open spec fn utf16(text: Seq<char>) -> Seq<u16>
    decreases text.len(),
{
    if text.len() == 0 {
        Seq::empty()
    } else {
        utf16(text.drop_last()) + utf16_units(text.last())
    }
}

/// The text as a wide C string: its UTF-16 code units and a terminating zero.
pub fn os_str_to_wchar(s: &str) -> (r: Vec<u16>)
    ensures
        r@ == utf16(s@).push(0),
{
    let mut units: Vec<u16> = Vec::new();
    let len: usize = s.unicode_len();
    let mut i: usize = 0;
    assert(s@.take(0) =~= Seq::empty());
    while i < len
        invariant
            i <= len == s@.len(),
            units@ == utf16(s@.take(i as int)),
        decreases len - i,
    {
        let c = s.get_char(i);
        let code: u32 = c as u32;
        assert(s@.take(i as int + 1).drop_last() =~= s@.take(i as int));
        if code < 0x1_0000 {
            units.push(code as u16);
        } else {
            units.push((0xd800 + (code - 0x1_0000) / 0x400) as u16);
            units.push((0xdc00 + (code - 0x1_0000) % 0x400) as u16);
        }
        i = i + 1;
        assert(units@ =~= utf16(s@.take(i as int)));
    }
    assert(s@.take(len as int) =~= s@);
    units.push(0);
    units
}

/// The directory below the SDK that holds the feature libraries.
pub open spec fn library_directory(debug_overlay: bool) -> Seq<char> {
    if debug_overlay {
        DEVELOPMENT_LIBRARIES@
    } else {
        RELEASE_LIBRARIES@
    }
}

/// Where NGX should look for its libraries: the current directory and, if an SDK is known, that
/// SDK's libraries.
pub open spec fn library_paths(dlss_sdk: Option<Seq<char>>, debug_overlay: bool) -> Seq<Seq<char>> {
    match dlss_sdk {
        None => seq![CURRENT_DIRECTORY@],
        Some(sdk) => seq![CURRENT_DIRECTORY@, sdk + library_directory(debug_overlay)],
    }
}

/// The view of an optional text.
pub open spec fn optional_text(text: Option<&str>) -> Option<Seq<char>> {
    match text {
        Some(text) => Some(text@),
        None => None,
    }
}

/// Where NGX should look for its libraries, as wide C strings: the current directory (next to the
/// executable) first and, if the place of the SDK is known, its release or development libraries.
pub fn shared_library_paths(dlss_sdk: Option<&str>, debug_overlay: bool) -> (r: Vec<Vec<u16>>)
    ensures
        r.len() == library_paths(optional_text(dlss_sdk), debug_overlay).len(),
        forall|i: int|
            0 <= i < r.len() ==> (#[trigger] r[i])@ == utf16(
                library_paths(optional_text(dlss_sdk), debug_overlay)[i],
            ).push(0),
{
    let mut paths: Vec<Vec<u16>> = Vec::new();
    paths.push(os_str_to_wchar(CURRENT_DIRECTORY));
    if let Some(sdk) = dlss_sdk {
        let directory = if debug_overlay {
            DEVELOPMENT_LIBRARIES
        } else {
            RELEASE_LIBRARIES
        };
        let path = sdk.to_string().concat(directory);
        paths.push(os_str_to_wchar(path.as_str()));
    }
    paths
}

/// What NGX knows an application by.
#[derive(Clone, Copy, Debug, PartialEq, Eq, Structural)]
pub enum IdentifierType {
    /// A number that NVIDIA issued.
    ApplicationId,
    /// A project id.
    ProjectId,
}

/// The engine of the application.
#[derive(Clone, Copy, Debug, PartialEq, Eq, Structural)]
pub enum NgxEngineType {
    /// An engine of its own.
    Custom,
    /// Unreal.
    Unreal,
    /// Unity.
    Unity,
    /// Omniverse.
    Omniverse,
}

/// The feature that NGX is initialized for.
#[derive(Clone, Copy, Debug, PartialEq, Eq, Structural)]
pub enum NgxFeatureId {
    /// Super Resolution.
    SuperSampling,
    /// Ray Reconstruction.
    RayReconstruction,
}

/// What NGX is told at initialization.
#[derive(Debug, PartialEq, Eq)]
pub struct FeatureInfo {
    /// The feature.
    pub feature: NgxFeatureId,
    /// What the application is known by.
    pub identifier_type: IdentifierType,
    /// The project id, hyphenated.
    pub project_id: String,
    /// The engine.
    pub engine_type: NgxEngineType,
    /// The engine version.
    pub engine_version: String,
    /// Where NGX may keep data, as a wide C string.
    pub data_path: Vec<u16>,
    /// Where NGX looks for its libraries, as wide C strings.
    pub library_paths: Vec<Vec<u16>>,
    /// Whether NGX's messages are delivered to
    /// [`ngx_log_record`](crate::ngx_log::ngx_log_record), by a callback that NGX is given.
    pub forwards_messages: bool,
    /// The lowest level of messages to produce.
    pub minimum_logging_level: i32,
    /// Whether NGX stops to log anywhere else.
    pub disable_other_logging_sinks: bool,
}

impl FeatureInfo {
    /// Whether this is what NGX is told by the application `project_id`, whose logger lets `filter`
    /// through: NGX's messages are forwarded, and no more of them are asked for than are logged.
    pub open spec fn describes(
        self,
        project_id: u128,
        data_path: Seq<u16>,
        dlss_sdk: Option<Seq<char>>,
        debug_overlay: bool,
        filter: LogFilter,
    ) -> bool {
        let paths = library_paths(dlss_sdk, debug_overlay);
        &&& self.feature == NgxFeatureId::SuperSampling
        &&& self.identifier_type == IdentifierType::ProjectId
        &&& self.project_id@ == hyphenated(project_id)
        &&& self.engine_type == NgxEngineType::Custom
        &&& self.engine_version@ == ENGINE_VERSION@
        &&& self.data_path@ == data_path.push(0)
        &&& self.library_paths.len() == paths.len()
        &&& forall|i: int|
            0 <= i < paths.len() ==> (#[trigger] self.library_paths[i])@ == utf16(paths[i]).push(0)
        &&& self.forwards_messages
        &&& self.minimum_logging_level == filter.ngx_level()
        &&& !self.disable_other_logging_sinks
    }

    /// Gathers what NGX is told where the application's logger lets `filter` through. `data_path`
    /// holds the code units of a directory that NGX may write to, without a terminating zero;
    /// `dlss_sdk` is the place of the SDK, if it is known.
    ///
    /// NGX's messages are forwarded to the logger, and their level follows its filter.
    pub fn for_filter(
        project_id: u128,
        data_path: Vec<u16>,
        dlss_sdk: Option<&str>,
        debug_overlay: bool,
        filter: LogFilter,
    ) -> (r: FeatureInfo)
        ensures
            r.describes(project_id, data_path@, optional_text(dlss_sdk), debug_overlay, filter),
            r.forwards_messages,
            r.minimum_logging_level == filter.ngx_level(),
    {
        let mut terminated = data_path;
        terminated.push(0);
        FeatureInfo {
            feature: NgxFeatureId::SuperSampling,
            identifier_type: IdentifierType::ProjectId,
            project_id: uuid_text(project_id),
            engine_type: NgxEngineType::Custom,
            engine_version: ENGINE_VERSION.to_string(),
            data_path: terminated,
            library_paths: shared_library_paths(dlss_sdk, debug_overlay),
            forwards_messages: true,
            minimum_logging_level: filter.logging_level(),
            disable_other_logging_sinks: false,
        }
    }

    /// Gathers what NGX is told, as [`FeatureInfo::for_filter`] does, for what the application's
    /// logger lets through now.
    pub fn new(
        project_id: u128,
        data_path: Vec<u16>,
        dlss_sdk: Option<&str>,
        debug_overlay: bool,
    ) -> (r: FeatureInfo)
        ensures
            exists|filter: LogFilter|
                call_ensures(current_filter, (), filter) && #[trigger] r.describes(
                    project_id,
                    data_path@,
                    optional_text(dlss_sdk),
                    debug_overlay,
                    filter,
                ),
    {
        FeatureInfo::for_filter(project_id, data_path, dlss_sdk, debug_overlay, current_filter())
    }
}

/// Runs `callback` once with what NGX is told, as [`FeatureInfo::new`] gathers it, and returns what
/// it returned.
pub fn with_feature_info<F, T>(
    project_id: u128,
    data_path: Vec<u16>,
    dlss_sdk: Option<&str>,
    debug_overlay: bool,
    callback: F,
) -> (r: T) where F: FnOnce(&FeatureInfo) -> T
    requires
        forall|info: &FeatureInfo, filter: LogFilter|
            call_ensures(current_filter, (), filter) && #[trigger] info.describes(
                project_id,
                data_path@,
                optional_text(dlss_sdk),
                debug_overlay,
                filter,
            ) ==> call_requires(callback, (info,)),
    ensures
        exists|info: &FeatureInfo, filter: LogFilter|
            call_ensures(current_filter, (), filter) && #[trigger] info.describes(
                project_id,
                data_path@,
                optional_text(dlss_sdk),
                debug_overlay,
                filter,
            ) && call_ensures(callback, (info,), r),
{
    let info = FeatureInfo::new(project_id, data_path, dlss_sdk, debug_overlay);
    callback(&info)
}

} // verus!

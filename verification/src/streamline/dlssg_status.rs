//! The status bits of frame generation.

use crate::text::{join, push_hex_fixed};
use vstd::prelude::*;

verus! {

/// Nothing is wrong.
pub const OK: u32 = 0;

/// The resolution is too low.
pub const FAIL_RESOLUTION_TOO_LOW: u32 = 1;

/// Reflex was not detected.
pub const FAIL_REFLEX_NOT_DETECTED_AT_RUNTIME: u32 = 2;

/// The HDR format is not supported.
pub const FAIL_HDR_FORMAT_NOT_SUPPORTED: u32 = 4;

/// The common constants are invalid.
pub const FAIL_COMMON_CONSTANTS_INVALID: u32 = 8;

/// The index of the back buffer was not queried.
pub const FAIL_GET_CURRENT_BACK_BUFFER_INDEX_NOT_CALLED: u32 = 16;

/// Reserved.
pub const RESERVED5: u32 = 32;

/// The text of a status without a failure.
pub const OK_TEXT: &'static str = "eOk";

/// What stands between the names of several failures.
pub const SEPARATOR: &'static str = " | ";

/// What an unnamed status starts with; its eight hexadecimal digits follow.
pub const UNKNOWN_PREFIX: &'static str = "<unknown status 0x";

/// What an unnamed status ends with.
pub const UNKNOWN_SUFFIX: &'static str = ">";

/// A list of `name` if `bit` is set in `status`, and an empty one otherwise.
pub open spec fn name_if_set(status: u32, bit: u32, name: &'static str) -> Seq<&'static str> {
    if status & bit != 0 {
        seq![name]
    } else {
        seq![]
    }
}

/// The names of the failures in a status, from the lowest bit up.
pub open spec fn failure_names(status: u32) -> Seq<&'static str> {
    name_if_set(status, FAIL_RESOLUTION_TOO_LOW, "eFailResolutionTooLow") + name_if_set(
        status,
        FAIL_REFLEX_NOT_DETECTED_AT_RUNTIME,
        "eFailReflexNotDetectedAtRuntime",
    ) + name_if_set(status, FAIL_HDR_FORMAT_NOT_SUPPORTED, "eFailHDRFormatNotSupported")
        + name_if_set(status, FAIL_COMMON_CONSTANTS_INVALID, "eFailCommonConstantsInvalid")
        + name_if_set(
        status,
        FAIL_GET_CURRENT_BACK_BUFFER_INDEX_NOT_CALLED,
        "eFailGetCurrentBackBufferIndexNotCalled",
    ) + name_if_set(status, RESERVED5, "eReserved5")
}

/// What a status says to a reader: the names of its failures, or its digits where none of them has a
/// name.
pub open spec fn status_text(status: u32) -> Seq<char> {
    if status == OK {
        OK_TEXT@
    } else if failure_names(status).len() == 0 {
        UNKNOWN_PREFIX@ + crate::text::hex_fixed(status as int, 8) + UNKNOWN_SUFFIX@
    } else {
        crate::text::joined(crate::text::texts(failure_names(status)), SEPARATOR@)
    }
}

/// Decodes a status into a text for diagnostics.
pub fn decode(status: u32) -> (r: String)
    ensures
        r@ == status_text(status),
{
    if status == OK {
        return OK_TEXT.to_string();
    }
    let mut parts: Vec<&'static str> = Vec::new();
    if status & FAIL_RESOLUTION_TOO_LOW != 0 {
        parts.push("eFailResolutionTooLow");
    }
    if status & FAIL_REFLEX_NOT_DETECTED_AT_RUNTIME != 0 {
        parts.push("eFailReflexNotDetectedAtRuntime");
    }
    if status & FAIL_HDR_FORMAT_NOT_SUPPORTED != 0 {
        parts.push("eFailHDRFormatNotSupported");
    }
    if status & FAIL_COMMON_CONSTANTS_INVALID != 0 {
        parts.push("eFailCommonConstantsInvalid");
    }
    if status & FAIL_GET_CURRENT_BACK_BUFFER_INDEX_NOT_CALLED != 0 {
        parts.push("eFailGetCurrentBackBufferIndexNotCalled");
    }
    if status & RESERVED5 != 0 {
        parts.push("eReserved5");
    }
    assert(parts@ =~= failure_names(status));
    if parts.len() == 0 {
        let mut text = UNKNOWN_PREFIX.to_string();
        push_hex_fixed(&mut text, status, 8);
        text.append(UNKNOWN_SUFFIX);
        return text;
    }
    join(&parts, SEPARATOR)
}

/// Only a status without any bit reads as fine.
pub proof fn only_a_clear_status_reads_as_ok(status: u32)
    ensures
        status_text(status) == OK_TEXT@ <==> status == OK,
{
    reveal_strlit("eOk");
    reveal_strlit("<unknown status 0x");
    reveal_strlit("eFailResolutionTooLow");
    reveal_strlit("eFailReflexNotDetectedAtRuntime");
    reveal_strlit("eFailHDRFormatNotSupported");
    reveal_strlit("eFailCommonConstantsInvalid");
    reveal_strlit("eFailGetCurrentBackBufferIndexNotCalled");
    reveal_strlit("eReserved5");
    if status != OK {
        let names = failure_names(status);
        if names.len() == 0 {
            let text = status_text(status);
            assert(text[0] == '<');
            assert(OK_TEXT@[0] == 'e');
        } else {
            assert forall|i: int| 0 <= i < names.len() implies (#[trigger] crate::text::texts(
                names,
            )[i]).len() > 3 by {}
            joined_is_as_long_as_its_parts(crate::text::texts(names), SEPARATOR@);
            assert(OK_TEXT@.len() == 3);
        }
    }
}

/// A joined text is longer than three characters where each of its parts is.
proof fn joined_is_as_long_as_its_parts(parts: Seq<Seq<char>>, separator: Seq<char>)
    requires
        parts.len() > 0,
        forall|i: int| 0 <= i < parts.len() ==> (#[trigger] parts[i]).len() > 3,
    ensures
        crate::text::joined(parts, separator).len() > 3,
{
    if parts.len() > 1 {
        assert(parts.last() == parts[parts.len() - 1]);
    }
}

} // verus!

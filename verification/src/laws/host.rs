//! What NGX is told about the host application, and what the application is told by NGX.

use crate::feature_info::{
    os_str_to_wchar, shared_library_paths, FeatureInfo, IdentifierType, NgxEngineType, NgxFeatureId,
};
use crate::hal::adapter_luid;
use crate::instance::{dxc_instance_descriptor, dxc_instance_descriptor_at, ShaderCompilerView};
use crate::ngx_log::{
    current_filter, min_logging_level, ngx_log_record, LogFilter, LogLevel, LogRecord,
};
use vstd::prelude::*;

verus! {

/// The number that four bytes stand for, the least significant first.
pub open spec fn number_of(a: u8, b: u8, c: u8, d: u8) -> int {
    a + 0x100 * b + 0x1_0000 * c + 0x100_0000 * d
}

/// Both parts of an adapter's identifier are read back from its bytes: the low part from the first
/// four, and the high part, modulo two to the thirty-second, from the others.
pub proof fn identifiers_are_read_back(low: u32, high: i32, bytes: [u8; 8])
    requires
        call_ensures(adapter_luid, (low, high), bytes),
    ensures
        number_of(bytes@[0], bytes@[1], bytes@[2], bytes@[3]) == low,
        number_of(bytes@[4], bytes@[5], bytes@[6], bytes@[7]) == (if high >= 0 {
            high as int
        } else {
            high + 0x1_0000_0000
        }),
{
    assert(high >= 0 ==> high as u32 == high) by (bit_vector);
    assert(high < 0 ==> high as u32 == high + 0x1_0000_0000) by (bit_vector);
    bytes_add_up(low);
    bytes_add_up(high as u32);
}

proof fn bytes_add_up(n: u32)
    ensures
        ({
            let bytes = crate::hal::little_endian(n);
            number_of(bytes[0], bytes[1], bytes[2], bytes[3]) == n
        }),
{
}

/// A wide string ends in a zero. A character of the basic plane is one unit, its own code; any other
/// is a high and a low surrogate that give its code back.
pub proof fn characters_become_their_units(text: &str, units: Vec<u16>)
    requires
        text@.len() == 1,
        call_ensures(os_str_to_wchar, (text,), units),
    ensures
        units[units.len() - 1] == 0,
        (text@[0] as u32) < 0x1_0000 ==> units.len() == 2 && units[0] as int == text@[0] as int,
        (text@[0] as u32) >= 0x1_0000 ==> {
            &&& units.len() == 3
            &&& 0xd800 <= units[0] < 0xdc00
            &&& 0xdc00 <= units[1] < 0xe000
            &&& 0x1_0000 + (units[0] - 0xd800) * 0x400 + (units[1] - 0xdc00) == text@[0] as int
        },
{
    reveal_with_fuel(crate::feature_info::utf16, 2);
    assert(text@.drop_last() =~= seq![]);
    assert(crate::feature_info::utf16(text@)
        =~= crate::feature_info::utf16_units(text@[0]));
    units_give_the_code_back(text@[0]);
}

proof fn units_give_the_code_back(c: char)
    ensures
        ({
            let units = crate::feature_info::utf16_units(c);
            if (c as u32) < 0x1_0000 {
                units.len() == 1 && units[0] as int == c as int
            } else {
                &&& units.len() == 2
                &&& 0xd800 <= units[0] < 0xdc00
                &&& 0xdc00 <= units[1] < 0xe000
                &&& 0x1_0000 + (units[0] - 0xd800) * 0x400 + (units[1] - 0xdc00) == c as int
            }
        }),
{
}

/// The units of one text after another are those of the first and then those of the second, so that
/// the units of a text are those of its characters in order. The empty text is a zero alone.
pub proof fn texts_become_the_units_of_their_characters(
    first: &str,
    first_units: Vec<u16>,
    second: &str,
    second_units: Vec<u16>,
    both: &str,
    units: Vec<u16>,
)
    requires
        both@ == first@ + second@,
        call_ensures(os_str_to_wchar, (first,), first_units),
        call_ensures(os_str_to_wchar, (second,), second_units),
        call_ensures(os_str_to_wchar, (both,), units),
    ensures
        units@ == first_units@.drop_last() + second_units@,
        first@.len() == 0 ==> first_units@ == seq![0u16],
{
    units_are_appended(first@, second@);
    assert(first_units@.drop_last() =~= crate::feature_info::utf16(first@));
    assert((crate::feature_info::utf16(first@) + crate::feature_info::utf16(second@)).push(0)
        =~= crate::feature_info::utf16(first@) + crate::feature_info::utf16(second@).push(0));
}

proof fn units_are_appended(first: Seq<char>, second: Seq<char>)
    ensures
        crate::feature_info::utf16(first + second) == crate::feature_info::utf16(first)
            + crate::feature_info::utf16(second),
    decreases second.len(),
{
    if second.len() == 0 {
        assert(first + second =~= first);
        assert(crate::feature_info::utf16(first) + crate::feature_info::utf16(second)
            =~= crate::feature_info::utf16(first));
    } else {
        units_are_appended(first, second.drop_last());
        assert((first + second).drop_last() =~= first + second.drop_last());
        assert(crate::feature_info::utf16(first) + (crate::feature_info::utf16(second.drop_last())
            + crate::feature_info::utf16_units(second.last())) =~= (crate::feature_info::utf16(first)
            + crate::feature_info::utf16(second.drop_last()))
            + crate::feature_info::utf16_units(second.last()));
    }
}

/// Whether these are the paths that NGX is to look for its libraries in: the current directory and
/// then, if the SDK is known, its release or its development libraries.
pub open spec fn are_library_paths(
    paths: Seq<Vec<u16>>,
    sdk: Option<&str>,
    debug_overlay: bool,
) -> bool {
    &&& paths.len() == (if sdk is Some {
        2int
    } else {
        1
    })
    &&& paths[0]@ == crate::feature_info::utf16("."@).push(0)
    &&& sdk is Some && debug_overlay ==> paths[1]@ == crate::feature_info::utf16(
        sdk->0@ + "/lib/Windows_x86_64/dev"@,
    ).push(0)
    &&& sdk is Some && !debug_overlay ==> paths[1]@ == crate::feature_info::utf16(
        sdk->0@ + "/lib/Windows_x86_64/rel"@,
    ).push(0)
}

/// NGX looks for its libraries in the current directory first, and below the SDK where that is known.
pub proof fn libraries_are_looked_for_below_the_sdk(
    sdk: Option<&str>,
    debug_overlay: bool,
    paths: Vec<Vec<u16>>,
)
    requires
        call_ensures(shared_library_paths, (sdk, debug_overlay), paths),
    ensures
        are_library_paths(paths@, sdk, debug_overlay),
{
    assert(paths@[0] == paths[0]);
    if sdk is Some {
        assert(paths@[1] == paths[1]);
    }
}

/// Whether NGX is told of the application by its project id and as an engine of its own, is given the
/// directories it asked for, and hands its messages on.
pub open spec fn tells_ngx(
    info: FeatureInfo,
    project_id: u128,
    data_path: Seq<u16>,
    sdk: Option<&str>,
    debug_overlay: bool,
) -> bool {
    &&& info.feature == NgxFeatureId::SuperSampling
    &&& info.identifier_type == IdentifierType::ProjectId
    &&& info.project_id@ == crate::feature_info::hyphenated(project_id)
    &&& info.engine_type == NgxEngineType::Custom
    &&& info.engine_version@ == "0.1.0"@
    &&& info.data_path@ == data_path.push(0)
    &&& are_library_paths(info.library_paths@, sdk, debug_overlay)
    &&& info.forwards_messages
    &&& !info.disable_other_logging_sinks
}

/// NGX is told who the application is and where it may keep data. It is asked for no messages where
/// nothing is logged, for all of them where debugging messages are, and for its ordinary ones
/// otherwise.
pub proof fn ngx_is_told_about_the_application(
    project_id: u128,
    data_path: Vec<u16>,
    sdk: Option<&str>,
    debug_overlay: bool,
    filter: LogFilter,
    info: FeatureInfo,
    now: FeatureInfo,
    level: i32,
)
    requires
        call_ensures(
            FeatureInfo::for_filter,
            (project_id, data_path, sdk, debug_overlay, filter),
            info,
        ),
        call_ensures(FeatureInfo::new, (project_id, data_path, sdk, debug_overlay), now),
        call_ensures(LogFilter::logging_level, (filter,), level),
    ensures
        tells_ngx(info, project_id, data_path@, sdk, debug_overlay),
        tells_ngx(now, project_id, data_path@, sdk, debug_overlay),
        info.minimum_logging_level == level,
        0 <= now.minimum_logging_level <= 2,
        level == 0 <==> filter == LogFilter::Off,
        level == 1 <==> filter == LogFilter::Error || filter == LogFilter::Warn || filter
            == LogFilter::Info,
        level == 2 <==> filter == LogFilter::Debug || filter == LogFilter::Trace,
{
    assert(info.library_paths@[0] == info.library_paths[0]);
    assert(now.library_paths@[0] == now.library_paths[0]);
    if sdk is Some {
        assert(info.library_paths@[1] == info.library_paths[1]);
        assert(now.library_paths@[1] == now.library_paths[1]);
    }
}

/// The digits of a project id without the hyphens between its five groups.
pub open spec fn without_hyphens(text: Seq<char>) -> Seq<char> {
    text.subrange(0, 8) + text.subrange(9, 13) + text.subrange(14, 18) + text.subrange(19, 23)
        + text.subrange(24, 36)
}

/// The project id that NGX is told has its hyphens after the eighth, twelfth, sixteenth and twentieth
/// digit, and the number is read back from its digits.
pub proof fn project_ids_are_read_back(
    project_id: u128,
    data_path: Vec<u16>,
    sdk: Option<&str>,
    debug_overlay: bool,
    filter: LogFilter,
    info: FeatureInfo,
)
    requires
        call_ensures(
            FeatureInfo::for_filter,
            (project_id, data_path, sdk, debug_overlay, filter),
            info,
        ),
    ensures
        info.project_id@.len() == 36,
        info.project_id@[8] == '-' && info.project_id@[13] == '-',
        info.project_id@[18] == '-' && info.project_id@[23] == '-',
        crate::laws::reports::is_number(
            without_hyphens(info.project_id@),
            16,
            project_id as int,
        ),
{
    let id = project_id as int;
    let text = info.project_id@;
    crate::feature_info::project_ids_are_c_strings(project_id);
    reveal_with_fuel(vstd::arithmetic::power::pow, 33);
    let a = crate::text::hex_fixed(id / 0x1_0000_0000_0000_0000_0000_0000, 8);
    let b = crate::text::hex_fixed(id / 0x1_0000_0000_0000_0000_0000, 4);
    let c = crate::text::hex_fixed(id / 0x1_0000_0000_0000_0000, 4);
    let d = crate::text::hex_fixed(id / 0x1_0000_0000_0000, 4);
    let e = crate::text::hex_fixed(id, 12);
    digits_are_split(id, 20, 12);
    digits_are_split(id / 0x1_0000_0000_0000, 16, 4);
    digits_are_split(id / 0x1_0000_0000_0000_0000, 12, 4);
    digits_are_split(id / 0x1_0000_0000_0000_0000_0000, 8, 4);
    assert(id / 0x1_0000_0000_0000 / 0x1_0000 == id / 0x1_0000_0000_0000_0000);
    assert(id / 0x1_0000_0000_0000_0000 / 0x1_0000 == id / 0x1_0000_0000_0000_0000_0000);
    assert(id / 0x1_0000_0000_0000_0000_0000 / 0x1_0000 == id
        / 0x1_0000_0000_0000_0000_0000_0000);
    assert(crate::text::hex_fixed(id, 32) == a + b + c + d + e);
    digits_have_their_width(id / 0x1_0000_0000_0000_0000_0000_0000, 8);
    digits_have_their_width(id / 0x1_0000_0000_0000_0000_0000, 4);
    digits_have_their_width(id / 0x1_0000_0000_0000_0000, 4);
    digits_have_their_width(id / 0x1_0000_0000_0000, 4);
    digits_have_their_width(id, 12);
    assert(text.subrange(0, 8) =~= a);
    assert(text.subrange(9, 13) =~= b);
    assert(text.subrange(14, 18) =~= c);
    assert(text.subrange(19, 23) =~= d);
    assert(text.subrange(24, 36) =~= e);
    crate::laws::reports::fixed_hexadecimals_have_their_value(id, 32);
}

proof fn digits_have_their_width(n: int, width: nat)
    ensures
        crate::text::hex_fixed(n, width).len() == width,
    decreases width,
{
    if width > 0 {
        digits_have_their_width(n / 16, (width - 1) as nat);
    }
}

/// The last digits of a number are written after those of what is left of it without them.
proof fn digits_are_split(n: int, first: nat, last: nat)
    requires
        n >= 0,
    ensures
        crate::text::hex_fixed(n, first + last) == crate::text::hex_fixed(
            n / vstd::arithmetic::power::pow(16, last),
            first,
        ) + crate::text::hex_fixed(n, last),
    decreases last,
{
    reveal(vstd::arithmetic::power::pow);
    if last == 0 {
        assert(n / 1 == n);
        assert(crate::text::hex_fixed(n, first) + crate::text::hex_fixed(n, 0)
            =~= crate::text::hex_fixed(n, first));
    } else {
        let before = (last - 1) as nat;
        digits_are_split(n / 16, first, before);
        vstd::arithmetic::power::lemma_pow_positive(16, before);
        vstd::arithmetic::div_mod::lemma_div_denominator(
            n,
            16,
            vstd::arithmetic::power::pow(16, before),
        );
        assert(crate::text::hex_fixed(n, first + last) =~= crate::text::hex_fixed(
            n / vstd::arithmetic::power::pow(16, last),
            first,
        ) + crate::text::hex_fixed(n, last));
    }
}

/// The level that is requested now is that of a filter that the application's logger gave.
pub proof fn the_requested_level_follows_the_logger(level: i32)
    requires
        call_ensures(min_logging_level, (), level),
    ensures
        exists|filter: LogFilter| #[trigger]
            call_ensures(current_filter, (), filter) && (level == 0 <==> filter == LogFilter::Off)
                && (level == 2 <==> filter == LogFilter::Debug || filter == LogFilter::Trace) && 0
                <= level <= 2,
{
}

/// A message of NGX is logged without the whitespace at its end, and only that is left out. One that
/// is null, empty or all whitespace is not logged. Verbose messages are for debugging.
pub proof fn messages_are_logged_without_trailing_whitespace(
    message: Option<&str>,
    level: i32,
    record: Option<LogRecord>,
)
    requires
        call_ensures(ngx_log_record, (message, level), record),
    ensures
        record is None <==> message is None || forall|i: int|
            0 <= i < message->0@.len() ==> crate::ngx_log::is_whitespace(
                #[trigger] message->0@[i],
            ),
        record matches Some(logged) ==> {
            let text = logged.text@;
            &&& 0 < text.len() <= message->0@.len()
            &&& text == message->0@.take(text.len() as int)
            &&& !crate::ngx_log::is_whitespace(text.last())
            &&& forall|i: int|
                text.len() <= i < message->0@.len() ==> crate::ngx_log::is_whitespace(
                    #[trigger] message->0@[i],
                )
            &&& logged.target@ == "dlss_wgpu_dx12::ngx"@
            &&& logged.level == LogLevel::Debug <==> level == 2
            &&& logged.level == LogLevel::Info <==> level != 2
        },
{
    if let Some(text) = message {
        crate::ngx_log::trimmed_text_does_not_end_in_whitespace(text@);
        only_whitespace_is_trimmed(text@);
        let kept = crate::ngx_log::trimmed(text@);
        if kept.len() > 0 {
            assert(kept.last() == text@[kept.len() - 1]);
        }
    }
}

proof fn only_whitespace_is_trimmed(text: Seq<char>)
    ensures
        crate::ngx_log::trimmed(text).len() <= text.len(),
        forall|i: int|
            crate::ngx_log::trimmed(text).len() <= i < text.len()
                ==> crate::ngx_log::is_whitespace(#[trigger] text[i]),
    decreases text.len(),
{
    if text.len() > 0 && crate::ngx_log::is_whitespace(text.last()) {
        let before = text.drop_last();
        only_whitespace_is_trimmed(before);
        assert forall|i: int|
            crate::ngx_log::trimmed(text).len() <= i < text.len() implies
            crate::ngx_log::is_whitespace(#[trigger] text[i]) by {
            if i < before.len() {
                assert(before[i] == text[i]);
            }
        }
    }
}

/// A graphics instance is asked for on D3D12 alone, with the dynamic compiler at the path that was
/// given, and under its file name where none was.
pub proof fn shaders_are_compiled_from_the_given_path(
    dxc_path: String,
    at: wgpu::InstanceDescriptor,
    default_path: String,
    default: wgpu::InstanceDescriptor,
)
    requires
        call_ensures(dxc_instance_descriptor_at, (dxc_path,), at),
        call_ensures(dxc_instance_descriptor, (), default),
        default_path@ == "dxcompiler.dll"@,
    ensures
        at == crate::instance::descriptor_with(8, ShaderCompilerView::DynamicDxc(dxc_path@)),
        default == crate::instance::descriptor_with(
            8,
            ShaderCompilerView::DynamicDxc(default_path@),
        ),
        dxc_path@ == default_path@ ==> at == default,
{
}

} // verus!

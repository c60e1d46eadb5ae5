//! Locating, verifying and loading the interposer, and resolving its functions.

use crate::feature_info::os_str_to_wchar;
use crate::streamline::error::StreamlineError;
use crate::streamline::ffi::{
    feature_fn, feature_function_list, files_have_equal_bytes, find_loader_shim,
    interposer_path_from, library_outcome, plugin_outcome, reject_loader_shims, resolve,
    resolve_existing_interposer, resolved_feature_fns, FeatureFunction, InterposerPath, LoadStep,
    Loader, PluginDirectory,
};
use crate::streamline::result::SlResult;
use crate::streamline::security::{
    contains_ignoring_case, is_revocation_offline, unverified_signer_allowed_from,
    verify_interposer_signature, verify_signed_dll, VerifyReply, VerifyStep,
};
use crate::streamline::signer::{extract_signer_subject, SignerReply, SignerStep};
use vstd::prelude::*;

verus! {

/// The interposer is looked for below the root of the SDK, which is kept, under its one path; it is
/// loaded from there exactly when it is there.
pub proof fn the_interposer_is_found_below_the_sdk<R>(
    sdk: Option<R>,
    located: Result<InterposerPath<R>, StreamlineError>,
    path: String,
    is_present: bool,
    resolved: Result<String, StreamlineError>,
)
    requires
        call_ensures(interposer_path_from::<R>, (sdk,), located),
        call_ensures(resolve_existing_interposer, (path, is_present), resolved),
    ensures
        located is Ok <==> sdk is Some,
        located matches Ok(found) ==> {
            &&& sdk == Some(found.root)
            &&& found.below.len() == 3
            &&& found.below[0]@ == "bin"@
            &&& found.below[1]@ == "x64"@
            &&& found.below[2]@ == "sl.interposer.dll"@
        },
        located matches Err(e) ==> e is SdkPathNotSet,
        resolved is Ok <==> is_present,
        resolved matches Ok(p) ==> p == path,
        resolved matches Err(e) ==> (e matches StreamlineError::InterposerNotFound(p) && p == path),
{
}

/// Two files are the same exactly when both could be read and neither differs from the other in its
/// length or in any byte.
pub proof fn files_are_compared_byte_by_byte(
    a: Option<&Vec<u8>>,
    b: Option<&Vec<u8>>,
    same: bool,
    swapped: bool,
)
    requires
        call_ensures(files_have_equal_bytes, (a, b), same),
        call_ensures(files_have_equal_bytes, (b, a), swapped),
    ensures
        same <==> a is Some && b is Some && a->0.len() == b->0.len() && forall|i: int|
            0 <= i < a->0.len() ==> (#[trigger] a->0[i]) == b->0[i],
        swapped == same,
{
    if a is Some && b is Some && a->0.len() == b->0.len() && forall|i: int|
        0 <= i < a->0.len() ==> (#[trigger] a->0[i]) == b->0[i] {
        assert(a->0@ =~= b->0@);
    }
}

/// The first of the two graphics libraries that is a copy of the interposer is found, and none if
/// neither is. A library that was found is refused under its path.
pub proof fn the_first_loader_shim_is_refused<
    F: Fn(&'static str) -> bool,
    S: Fn(&'static str) -> bool,
>(
    is_file: F,
    is_shim: S,
    found: Option<&'static str>,
    shown: String,
    outcome: Result<(), StreamlineError>,
)
    requires
        call_ensures(find_loader_shim::<F, S>, (is_file, is_shim), found),
        call_ensures(reject_loader_shims, (found, shown), outcome),
    ensures
        found matches Some(name) ==> {
            &&& call_ensures(is_file, (name,), true) && call_ensures(is_shim, (name,), true)
            &&& name == "dxgi.dll" || (name == "d3d12.dll" && (call_ensures(
                is_file,
                ("dxgi.dll",),
                false,
            ) || call_ensures(is_shim, ("dxgi.dll",), false)))
        },
        found is None ==> {
            &&& call_ensures(is_file, ("dxgi.dll",), false) || call_ensures(
                is_shim,
                ("dxgi.dll",),
                false,
            )
            &&& call_ensures(is_file, ("d3d12.dll",), false) || call_ensures(
                is_shim,
                ("d3d12.dll",),
                false,
            )
        },
        outcome is Ok <==> found is None,
        outcome matches Err(e) ==> (e matches StreamlineError::LoaderShimConflict(p) && p == shown),
{
}

/// Whether the steps from `at` on verify the plugins in a directory.
pub open spec fn verify_plugins(
    steps: Seq<LoadStep>,
    at: int,
    directory: PluginDirectory,
) -> bool {
    &&& steps[at] == (LoadStep::VerifyPlugin { directory, name: "sl.common.dll" })
    &&& steps[at + 1] == (LoadStep::VerifyPlugin { directory, name: "sl.dlss_g.dll" })
    &&& steps[at + 2] == (LoadStep::VerifyPlugin { directory, name: "sl.reflex.dll" })
    &&& steps[at + 3] == (LoadStep::VerifyPlugin { directory, name: "sl.pcl.dll" })
    &&& steps[at + 4] == (LoadStep::VerifyPlugin { directory, name: "nvngx_dlssg.dll" })
}

/// Whether the steps from `at` on load the interposer, resolve its exports, and end.
pub open spec fn load_and_resolve(steps: Seq<LoadStep>, at: int) -> bool {
    &&& steps.len() == at + 10
    &&& steps[at] == LoadStep::LoadLibrary
    &&& steps[at + 1] == LoadStep::ResolveExport("slInit")
    &&& steps[at + 2] == LoadStep::ResolveExport("slShutdown")
    &&& steps[at + 3] == LoadStep::ResolveExport("slSetD3DDevice")
    &&& steps[at + 4] == LoadStep::ResolveExport("slIsFeatureSupported")
    &&& steps[at + 5] == LoadStep::ResolveExport("slGetFeatureRequirements")
    &&& steps[at + 6] == LoadStep::ResolveExport("slGetNewFrameToken")
    &&& steps[at + 7] == LoadStep::ResolveExport("slSetConstants")
    &&& steps[at + 8] == LoadStep::ResolveExport("slSetTagForFrame")
    &&& steps[at + 9] == LoadStep::ResolveExport("slGetFeatureFunction")
}

/// The loading is planned in this order: the checks of the interposer, those of the plugins, first
/// beside the executable and then beside the interposer, and then the loading and the resolution of
/// its exports.
pub proof fn loading_is_planned_in_order(
    executable_known: bool,
    same_directory: bool,
    loader: Loader,
    first: Option<LoadStep>,
)
    requires
        call_ensures(Loader::new, (executable_known, same_directory), loader),
        call_ensures(Loader::current, (&loader,), first),
    ensures
        first == Some(LoadStep::InterposerExists),
        loader.passed() == 0,
        !loader.failed(),
        loader.steps()[0] == LoadStep::InterposerExists,
        executable_known ==> {
            &&& loader.steps()[1] == LoadStep::NoLoaderShim
            &&& loader.steps()[2] == LoadStep::VerifyInterposer
            &&& verify_plugins(loader.steps(), 3, PluginDirectory::Executable)
        },
        executable_known && same_directory ==> load_and_resolve(loader.steps(), 8),
        executable_known && !same_directory ==> {
            &&& verify_plugins(loader.steps(), 8, PluginDirectory::Interposer)
            &&& load_and_resolve(loader.steps(), 13)
        },
        !executable_known ==> {
            &&& loader.steps()[1] == LoadStep::VerifyInterposer
            &&& verify_plugins(loader.steps(), 2, PluginDirectory::Interposer)
            &&& load_and_resolve(loader.steps(), 7)
        },
{
    reveal_with_fuel(crate::streamline::ffi::all_plugin_steps, 3);
    let directories = crate::streamline::ffi::plugin_directories(executable_known, same_directory);
    let plugins = crate::streamline::ffi::all_plugin_steps(directories);
    if directories.len() == 2 {
        assert(directories.drop_last() =~= seq![PluginDirectory::Executable]);
        assert(directories.drop_last().drop_last() =~= seq![]);
        assert(plugins.len() == 10);
    } else {
        assert(directories.drop_last() =~= seq![]);
        assert(plugins.len() == 5);
    }
}

/// Loading goes from one step to the next as long as the steps succeed, and to none after a failure.
/// The interposer is loaded exactly when every step has succeeded.
pub proof fn loading_stops_at_the_first_failure(
    loader: &mut Loader,
    before: Option<LoadStep>,
    outcome: Result<(), StreamlineError>,
    reported: Result<(), StreamlineError>,
    after: Option<LoadStep>,
    loaded: bool,
)
    requires
        call_ensures(Loader::current, (&*old(loader),), before),
        call_ensures(Loader::advance, (loader, outcome), reported),
        call_ensures(Loader::current, (&*final(loader),), after),
        call_ensures(Loader::is_loaded, (&*final(loader),), loaded),
    ensures
        reported == outcome,
        before is Some && outcome is Err ==> after is None && !loaded,
        before is Some && outcome is Ok ==> {
            let next = old(loader).passed() as int + 1;
            &&& before == Some(old(loader).steps()[next - 1])
            &&& next < old(loader).steps().len() ==> after == Some(old(loader).steps()[next])
                && !loaded
            &&& next == old(loader).steps().len() ==> after is None && loaded
        },
        before is None ==> after is None && (loaded <==> !old(loader).failed()),
{
}

/// A plugin that is there must verify, and one that is not is skipped. A library that was not loaded
/// and an export that was not found are reported with what the loader said.
pub proof fn failures_of_loading_are_reported(
    is_present: bool,
    verified: Result<(), StreamlineError>,
    plugin: Result<(), StreamlineError>,
    path: String,
    loaded: Result<(), String>,
    library: Result<(), StreamlineError>,
    symbol: &str,
    found: Result<u64, String>,
    export: Result<u64, StreamlineError>,
)
    requires
        call_ensures(plugin_outcome, (is_present, verified), plugin),
        call_ensures(library_outcome, (path, loaded), library),
        call_ensures(resolve, (symbol, found), export),
    ensures
        is_present ==> plugin == verified,
        !is_present ==> plugin is Ok,
        library is Ok <==> loaded is Ok,
        library matches Err(e) ==> (e matches StreamlineError::LibraryLoadFailed {
            path: p,
            source,
        } && p == path && loaded == Err::<(), String>(source)),
        export is Ok <==> found is Ok,
        export matches Ok(address) ==> found == Ok::<u64, String>(address),
        export matches Err(e) ==> (e matches StreamlineError::MissingExport { symbol: s, source }
            && s@ == symbol@ && found == Err::<u64, String>(source)),
{
}

/// A feature function is usable exactly when it was resolved, and not to null. What a resolved one
/// returned is handed on.
pub proof fn feature_functions_must_be_resolved(
    list: Vec<FeatureFunction>,
    function: FeatureFunction,
    result: SlResult,
    address: u64,
    resolved: Result<u64, StreamlineError>,
    feature: u32,
    name: &str,
    returned: Option<SlResult>,
    outcome: Result<SlResult, StreamlineError>,
)
    requires
        call_ensures(feature_function_list, (), list),
        call_ensures(feature_fn, (function, result, address), resolved),
        call_ensures(resolved_feature_fns, (feature, name, returned), outcome),
    ensures
        list.len() == 5,
        list[0] == (FeatureFunction { feature: 1000, name: "slDLSSGSetOptions" }),
        list[1] == (FeatureFunction { feature: 1000, name: "slDLSSGGetState" }),
        list[2] == (FeatureFunction { feature: 3, name: "slReflexSetOptions" }),
        list[3] == (FeatureFunction { feature: 3, name: "slReflexSleep" }),
        list[4] == (FeatureFunction { feature: 4, name: "slPCLSetMarker" }),
        resolved is Ok <==> result == SlResult::Success && address != 0,
        resolved matches Ok(a) ==> a == address,
        resolved matches Err(e) ==> (e matches StreamlineError::FeatureFunctionUnavailable {
            feature: f,
            function: n,
            detail,
        } && f == function.feature && n@ == function.name@ && detail@ == (if result
            != SlResult::Success {
            "slGetFeatureFunction returned "@ + result.text()@
        } else {
            "slGetFeatureFunction returned a null function pointer"@
        })),
        outcome is Ok <==> returned is Some,
        outcome matches Ok(r) ==> returned == Some(r),
        outcome matches Err(e) ==> (e matches StreamlineError::FeatureFunctionUnavailable {
            feature: f,
            function: n,
            detail,
        } && f == feature && n@ == name@ && detail@
            == "feature function not resolved (resolve_feature_functions not called)"@),
{
}

/// Exactly three statuses say that no revocation server could be reached. Neither success nor a
/// revoked certificate is among them.
pub proof fn unreachable_servers_are_told_from_revocation(status: i32, offline: bool)
    requires
        call_ensures(is_revocation_offline, (status,), offline),
    ensures
        offline <==> status == -0x7ff4_fef2 || status == -0x7ff6_dfed || status == -0x7ff6_dfee,
        status == 0 || status == -0x7ff4_fef4 ==> !offline,
{
    assert((status as u32 == 0x800b_010eu32) == (status == -0x7ff4_fef2i32)) by (bit_vector);
    assert((status as u32 == 0x8009_2013u32) == (status == -0x7ff6_dfedi32)) by (bit_vector);
    assert((status as u32 == 0x8009_2012u32) == (status == -0x7ff6_dfeei32)) by (bit_vector);
}

/// Whether two texts are the same but for the case of their ASCII letters.
pub open spec fn differ_in_case_only(a: Seq<char>, b: Seq<char>) -> bool {
    &&& a.len() == b.len()
    &&& forall|i: int|
        0 <= i < a.len() ==> {
            ||| (#[trigger] a[i]) == b[i]
            ||| 'a' <= a[i] <= 'z' && a[i] as u32 == b[i] as u32 + 32
            ||| 'a' <= b[i] <= 'z' && b[i] as u32 == a[i] as u32 + 32
        }
}

/// The case of a text does not matter to what is found in it. In a text without lower-case letters
/// exactly those texts are found that stand somewhere in it.
pub proof fn texts_are_searched_in_any_case(
    text: &str,
    other: &str,
    needle: &str,
    found: bool,
    found_in_other: bool,
)
    requires
        call_ensures(contains_ignoring_case, (text, needle), found),
        call_ensures(contains_ignoring_case, (other, needle), found_in_other),
    ensures
        differ_in_case_only(text@, other@) ==> found == found_in_other,
        (forall|i: int| 0 <= i < text@.len() ==> !('a' <= #[trigger] text@[i] <= 'z')) ==> (found
            <==> exists|place: int|
            0 <= place <= text@.len() - needle@.len() && #[trigger] text@.subrange(
                place,
                place + needle@.len(),
            ) == needle@),
{
    if differ_in_case_only(text@, other@) {
        case_does_not_matter(text@, other@, needle@);
        assert(differ_in_case_only(other@, text@)) by {
            assert forall|i: int| 0 <= i < other@.len() implies {
                ||| (#[trigger] other@[i]) == text@[i]
                ||| 'a' <= other@[i] <= 'z' && other@[i] as u32 == text@[i] as u32 + 32
                ||| 'a' <= text@[i] <= 'z' && text@[i] as u32 == other@[i] as u32 + 32
            } by {
                assert(text@[i] == text@[i]);
            }
        }
        case_does_not_matter(other@, text@, needle@);
    }
    if forall|i: int| 0 <= i < text@.len() ==> !('a' <= #[trigger] text@[i] <= 'z') {
        if found {
            let place = choose|place: int|
                #[trigger] crate::streamline::security::found_at(text@, needle@, place);
            assert forall|i: int| 0 <= i < needle@.len() implies text@.subrange(
                place,
                place + needle@.len(),
            )[i] == needle@[i] by {
                assert(text@[place + i] == needle@[i]);
            }
            assert(text@.subrange(place, place + needle@.len()) =~= needle@);
        }
        if exists|place: int|
            0 <= place <= text@.len() - needle@.len() && #[trigger] text@.subrange(
                place,
                place + needle@.len(),
            ) == needle@ {
            let place = choose|place: int|
                0 <= place <= text@.len() - needle@.len() && #[trigger] text@.subrange(
                    place,
                    place + needle@.len(),
                ) == needle@;
            assert forall|i: int| 0 <= i < needle@.len() implies
                crate::streamline::security::ascii_upper(#[trigger] text@[place + i])
                == needle@[i] by {
                assert(text@.subrange(place, place + needle@.len())[i] == text@[place + i]);
            }
            assert(crate::streamline::security::found_at(text@, needle@, place));
        }
    }
}

proof fn case_does_not_matter(a: Seq<char>, b: Seq<char>, needle: Seq<char>)
    requires
        differ_in_case_only(a, b),
    ensures
        crate::streamline::security::contains_in_any_case(a, needle)
            ==> crate::streamline::security::contains_in_any_case(b, needle),
{
    if crate::streamline::security::contains_in_any_case(a, needle) {
        let place = choose|place: int|
            #[trigger] crate::streamline::security::found_at(a, needle, place);
        assert forall|i: int| 0 <= i < needle.len() implies
            crate::streamline::security::ascii_upper(#[trigger] b[place + i]) == needle[i] by {
            assert(crate::streamline::security::ascii_upper(a[place + i]) == needle[i]);
        }
        assert(crate::streamline::security::found_at(b, needle, place));
    }
}

/// Whether a text names NVIDIA, in any case, somewhere.
pub open spec fn names_nvidia(text: Seq<char>) -> bool {
    exists|place: int| #[trigger] nvidia_stands_at(text, place)
}

/// Whether NVIDIA stands in a text at a place, in any case.
pub open spec fn nvidia_stands_at(text: Seq<char>, place: int) -> bool {
    &&& 0 <= place <= text.len() - 6
    &&& text[place] == 'N' || text[place] == 'n'
    &&& text[place + 1] == 'V' || text[place + 1] == 'v'
    &&& text[place + 2] == 'I' || text[place + 2] == 'i'
    &&& text[place + 3] == 'D' || text[place + 3] == 'd'
    &&& text[place + 4] == 'I' || text[place + 4] == 'i'
    &&& text[place + 5] == 'A' || text[place + 5] == 'a'
}

proof fn nvidia_is_what_is_looked_for(text: Seq<char>)
    ensures
        names_nvidia(text) <==> crate::streamline::security::contains_in_any_case(text, "NVIDIA"@),
{
    reveal_strlit("NVIDIA");
    assert forall|place: int| #[trigger] nvidia_stands_at(text, place) implies
        crate::streamline::security::found_at(text, "NVIDIA"@, place) by {
        assert forall|i: int| 0 <= i < 6 implies crate::streamline::security::ascii_upper(
            #[trigger] text[place + i],
        ) == "NVIDIA"@[i] by {
            if i == 0 {
            } else if i == 1 {
            } else if i == 2 {
            } else if i == 3 {
            } else if i == 4 {
            } else {
                assert(i == 5);
            }
        }
    }
    assert forall|place: int| #[trigger]
        crate::streamline::security::found_at(text, "NVIDIA"@, place) implies nvidia_stands_at(
        text,
        place,
    ) by {
        assert(crate::streamline::security::ascii_upper(text[place + 0]) == 'N');
        assert(crate::streamline::security::ascii_upper(text[place + 1]) == 'V');
        assert(crate::streamline::security::ascii_upper(text[place + 2]) == 'I');
        assert(crate::streamline::security::ascii_upper(text[place + 3]) == 'D');
        assert(crate::streamline::security::ascii_upper(text[place + 4]) == 'I');
        assert(crate::streamline::security::ascii_upper(text[place + 5]) == 'A');
    }
    if names_nvidia(text) {
        let place = choose|place: int| #[trigger] nvidia_stands_at(text, place);
        assert(crate::streamline::security::found_at(text, "NVIDIA"@, place));
    }
    if crate::streamline::security::contains_in_any_case(text, "NVIDIA"@) {
        let place = choose|place: int|
            #[trigger] crate::streamline::security::found_at(text, "NVIDIA"@, place);
        assert(nvidia_stands_at(text, place));
    }
}

/// A signer that could not be read may pass exactly when the opt-out is set to `1` and the guard
/// against it is not.
pub proof fn the_opt_out_needs_a_one(allow: Option<&str>, require: Option<&str>, allowed: bool)
    requires
        call_ensures(unverified_signer_allowed_from, (allow, require), allowed),
    ensures
        allowed <==> allow is Some && allow->0@ == "1"@ && !(require is Some && require->0@
            == "1"@),
{
}

/// Whether a step refuses the library for its signature, with this report.
pub open spec fn refuses_with(step: VerifyStep, report: Seq<char>) -> bool {
    step matches VerifyStep::Refused(StreamlineError::SignatureVerificationFailed(text)) && text@
        == report
}

/// What follows each question about a library. A file that was opened is checked with revocation. A
/// trusted one has its signer read; one whose revocation could not be checked is checked once more,
/// without; any other is refused. A signer passes exactly when it names NVIDIA, or could not be read
/// and the user has opted out. What has ended stays ended.
pub proof fn each_question_leads_to_the_next(
    step: VerifyStep,
    path: &str,
    reply: VerifyReply,
    allow_unverified: bool,
    next: VerifyStep,
)
    requires
        call_ensures(VerifyStep::next, (step, path, reply, allow_unverified), next),
    ensures
        step is Open && reply.open_error is None ==> next == (VerifyStep::CheckTrust {
            revocation: true,
        }),
        step is Open && reply.open_error is Some ==> refuses_with(
            next,
            "could not open '"@ + path@ + "' for verification with a deny-write share lock: "@
                + reply.open_error->0@,
        ),
        step matches VerifyStep::CheckTrust { revocation } ==> {
            let offline = reply.status == -0x7ff4_fef2 || reply.status == -0x7ff6_dfed
                || reply.status == -0x7ff6_dfee;
            &&& reply.status == 0 ==> next == (VerifyStep::ReadSigner { revocation })
            &&& revocation && offline ==> next == (VerifyStep::CheckTrust { revocation: false })
            &&& reply.status != 0 && !(revocation && offline) ==> refuses_with(
                next,
                (if revocation {
                    "WinVerifyTrust returned HRESULT 0x"@
                } else {
                    "WinVerifyTrust (offline no-revocation retry) returned HRESULT 0x"@
                }) + crate::text::hex_fixed(reply.status as u32 as int, 8) + " for '"@ + path@
                    + "'"@,
            )
        },
        step matches VerifyStep::ReadSigner { revocation } ==> match reply.subject {
            Ok(subject) => {
                &&& names_nvidia(subject@) ==> next == (VerifyStep::Verified {
                    revocation,
                    signer_confirmed: true,
                })
                &&& !names_nvidia(subject@) ==> (next matches VerifyStep::Refused(
                    StreamlineError::UntrustedSigner(shown),
                ) && shown@ == subject@)
            },
            Err(detail) => {
                &&& allow_unverified ==> next == (VerifyStep::Verified {
                    revocation,
                    signer_confirmed: false,
                })
                &&& !allow_unverified ==> refuses_with(
                    next,
                    "could not confirm the signer is NVIDIA (fail-closed default; set STREAMLINE_ALLOW_UNVERIFIED_SIGNER=1 to allow an unverifiable signer): "@
                        + detail@,
                )
            },
        },
        step is Verified || step is Refused ==> next == step,
{
    let status = reply.status;
    assert((status as u32 == 0x800b_010eu32) == (status == -0x7ff4_fef2i32)) by (bit_vector);
    assert((status as u32 == 0x8009_2013u32) == (status == -0x7ff6_dfedi32)) by (bit_vector);
    assert((status as u32 == 0x8009_2012u32) == (status == -0x7ff6_dfeei32)) by (bit_vector);
    if let Ok(subject) = reply.subject {
        nvidia_is_what_is_looked_for(subject@);
    }
}

/// A library that can be opened, is trusted with its revocation checked, and was signed by NVIDIA is
/// verified, be it the interposer or a library that it pulls in, and whatever was opted out of.
pub proof fn a_trusted_library_of_nvidia_passes(
    first: VerifyStep,
    path: &str,
    opened: VerifyReply,
    second: VerifyStep,
    trusted: VerifyReply,
    third: VerifyStep,
    read: VerifyReply,
    last: VerifyStep,
    allow_unverified: bool,
    outcome: Option<Result<(), StreamlineError>>,
)
    requires
        call_ensures(verify_interposer_signature, (), first) || call_ensures(
            verify_signed_dll,
            (),
            first,
        ),
        opened.open_error is None,
        call_ensures(VerifyStep::next, (first, path, opened, allow_unverified), second),
        trusted.status == 0,
        call_ensures(VerifyStep::next, (second, path, trusted, allow_unverified), third),
        read.subject is Ok,
        names_nvidia(read.subject->Ok_0@),
        call_ensures(VerifyStep::next, (third, path, read, allow_unverified), last),
        call_ensures(VerifyStep::outcome, (last,), outcome),
    ensures
        last == (VerifyStep::Verified { revocation: true, signer_confirmed: true }),
        outcome == Some(Ok::<(), StreamlineError>(())),
{
    each_question_leads_to_the_next(first, path, opened, allow_unverified, second);
    each_question_leads_to_the_next(second, path, trusted, allow_unverified, third);
    each_question_leads_to_the_next(third, path, read, allow_unverified, last);
}

/// A library may be loaded exactly when it was verified; why it was refused is handed on.
pub proof fn only_verified_libraries_may_be_loaded(
    step: VerifyStep,
    outcome: Option<Result<(), StreamlineError>>,
)
    requires
        call_ensures(VerifyStep::outcome, (step,), outcome),
    ensures
        outcome == Some(Ok::<(), StreamlineError>(())) <==> step is Verified,
        step matches VerifyStep::Refused(e) ==> outcome == Some(Err::<(), StreamlineError>(e)),
        outcome is None <==> !(step is Verified || step is Refused),
{
}

/// What follows each question about a signer, and which reply ends the reading with a report.
pub proof fn a_signer_is_read_call_by_call(
    first: SignerStep,
    step: SignerStep,
    reply: SignerReply,
    signer_info_size: u32,
    next: SignerStep,
)
    requires
        call_ensures(extract_signer_subject, (), first),
        call_ensures(SignerStep::next, (step, reply, signer_info_size), next),
    ensures
        first == SignerStep::OpenSignature,
        step is OpenSignature ==> {
            &&& reply.error is None ==> next == SignerStep::MeasureSignerInfo
            &&& reply.error is Some ==> says(
                next,
                "CryptQueryObject"@ + " failed: "@ + reply.error->0@,
            )
        },
        step is MeasureSignerInfo ==> {
            &&& reply.error is None && reply.length >= signer_info_size ==> next == (
            SignerStep::ReadSignerInfo { size: reply.length })
            &&& reply.error is None && reply.length < signer_info_size ==> says(
                next,
                "CMSG_SIGNER_INFO blob too small ("@ + crate::text::decimal(reply.length as nat)
                    + " bytes)"@,
            )
            &&& reply.error is Some ==> says(
                next,
                "CryptMsgGetParam(size)"@ + " failed: "@ + reply.error->0@,
            )
        },
        step is ReadSignerInfo ==> {
            &&& reply.error is None ==> next == SignerStep::FindCertificate
            &&& reply.error is Some ==> says(
                next,
                "CryptMsgGetParam(data)"@ + " failed: "@ + reply.error->0@,
            )
        },
        step is FindCertificate ==> {
            &&& reply.found ==> next == SignerStep::MeasureName
            &&& !reply.found ==> says(
                next,
                "CertFindCertificateInStore found no signer certificate"@,
            )
        },
        step is MeasureName ==> {
            &&& reply.length > 1 ==> next == (SignerStep::ReadName { length: reply.length })
            &&& reply.length <= 1 ==> says(next, "certificate has an empty subject name"@)
        },
        step is ReadName ==> {
            &&& reply.length > 0 ==> (next matches SignerStep::Done(Ok(_)))
            &&& reply.length == 0 ==> says(next, "CertGetNameStringW returned an empty name"@)
        },
        step is Done ==> next == step,
{
}

/// Whether a reading has ended with this report.
pub open spec fn says(step: SignerStep, report: Seq<char>) -> bool {
    step matches SignerStep::Done(Err(text)) && text@ == report
}

/// A name that was written as a wide C string is read back, whatever follows it in the buffer.
pub proof fn names_are_read_back(
    name: &str,
    units: Vec<u16>,
    rest: Seq<u16>,
    length: u32,
    reply: SignerReply,
    signer_info_size: u32,
    next: SignerStep,
)
    requires
        !name@.contains('\0'),
        call_ensures(os_str_to_wchar, (name,), units),
        reply.name@ == units@ + rest,
        reply.length > 0,
        call_ensures(
            SignerStep::next,
            ((SignerStep::ReadName { length }), reply, signer_info_size),
            next,
        ),
    ensures
        next matches SignerStep::Done(Ok(subject)) && subject@ == name@,
{
    let encoded = crate::feature_info::utf16(name@);
    a_text_without_nul_has_no_zero(name@);
    assert(reply.name@ =~= encoded + (seq![0u16] + rest));
    a_zero_ends_the_name(encoded, seq![0u16] + rest);
}

proof fn a_text_without_nul_has_no_zero(text: Seq<char>)
    requires
        !text.contains('\0'),
    ensures
        forall|i: int|
            0 <= i < crate::feature_info::utf16(text).len()
                ==> #[trigger] crate::feature_info::utf16(text)[i] != 0,
    decreases text.len(),
{
    if text.len() > 0 {
        let before = text.drop_last();
        assert forall|i: int| 0 <= i < before.len() implies before[i] != '\0' by {
            assert(text[i] == before[i]);
        }
        a_text_without_nul_has_no_zero(before);
        assert(text[text.len() - 1] == text.last());
        a_character_has_no_zero(text.last());
        let units = crate::feature_info::utf16(text);
        let start = crate::feature_info::utf16(before);
        assert forall|i: int| 0 <= i < units.len() implies #[trigger] units[i] != 0 by {
            if i < start.len() {
                assert(units[i] == start[i]);
            } else {
                assert(units[i] == crate::feature_info::utf16_units(text.last())[i - start.len()]);
            }
        }
    }
}

proof fn a_character_has_no_zero(c: char)
    requires
        c != '\0',
    ensures
        forall|i: int|
            0 <= i < crate::feature_info::utf16_units(c).len()
                ==> #[trigger] crate::feature_info::utf16_units(c)[i] != 0,
{
}

proof fn a_zero_ends_the_name(name: Seq<u16>, rest: Seq<u16>)
    requires
        forall|i: int| 0 <= i < name.len() ==> #[trigger] name[i] != 0,
        rest.len() > 0,
        rest[0] == 0,
    ensures
        crate::streamline::signer::until_zero(name + rest) == name,
    decreases name.len(),
{
    if name.len() == 0 {
        assert(name + rest =~= rest);
        assert(crate::streamline::signer::until_zero(rest) =~= name);
    } else {
        let tail = name.skip(1);
        assert forall|i: int| 0 <= i < tail.len() implies #[trigger] tail[i] != 0 by {
            assert(tail[i] == name[i + 1]);
        }
        a_zero_ends_the_name(tail, rest);
        assert((name + rest).skip(1) =~= tail + rest);
        assert((name + rest)[0] == name[0]);
        assert(seq![name[0]] + tail =~= name);
    }
}

} // verus!

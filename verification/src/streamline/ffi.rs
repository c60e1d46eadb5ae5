//! Locating, checking and loading the interposer, and resolving its functions.
//!
//! The interposer is loaded from below the SDK. It is loaded only after every check has passed: it
//! exists, no copy of it stands beside the executable under the name of a graphics library, and it
//! and every known plugin that it will pull in are signed by NVIDIA.

use crate::streamline::error::StreamlineError;
use crate::streamline::result::SlResult;
use crate::streamline::types::{Feature, K_FEATURE_DLSS_G, K_FEATURE_PCL, K_FEATURE_REFLEX};
use vstd::prelude::*;

verus! {

/// The environment variable that locates the Streamline SDK.
pub const STREAMLINE_SDK_ENV: &'static str = "STREAMLINE_SDK";

/// The interposer's file name.
pub const INTERPOSER_NAME: &'static str = "sl.interposer.dll";

/// The directory below the SDK root.
pub const BIN_DIRECTORY: &'static str = "bin";

/// The directory below that one.
pub const PLATFORM_DIRECTORY: &'static str = "x64";

/// The plugins that the interposer pulls in from wherever the system finds them.
pub open spec fn sibling_plugins() -> Seq<&'static str> {
    seq!["sl.common.dll", "sl.dlss_g.dll", "sl.reflex.dll", "sl.pcl.dll", "nvngx_dlssg.dll"]
}

/// The names under which a copy of the interposer beside the executable would front the system's
/// graphics libraries.
pub open spec fn loader_shim_names() -> Seq<&'static str> {
    seq!["dxgi.dll", "d3d12.dll"]
}

/// The exports of the interposer that are used.
pub open spec fn export_names() -> Seq<&'static str> {
    seq![
        "slInit",
        "slShutdown",
        "slSetD3DDevice",
        "slIsFeatureSupported",
        "slGetFeatureRequirements",
        "slGetNewFrameToken",
        "slSetConstants",
        "slSetTagForFrame",
        "slGetFeatureFunction",
    ]
}

/// The interposer's path. The root is kept in whatever form the caller has it (`R`), because not
/// every path is a text.
#[derive(Debug, PartialEq, Eq)]
pub struct InterposerPath<R> {
    /// The root of the SDK.
    pub root: R,
    /// The components below it, in order.
    pub below: Vec<&'static str>,
}

/// The interposer's path below the root of the SDK, if that is known.
pub fn interposer_path_from<R>(sdk: Option<R>) -> (r: Result<InterposerPath<R>, StreamlineError>)
    ensures
        match sdk {
            None => r matches Err(StreamlineError::SdkPathNotSet),
            Some(root) => r matches Ok(path) && path.root == root && path.below@ == seq![
                BIN_DIRECTORY,
                PLATFORM_DIRECTORY,
                INTERPOSER_NAME,
            ],
        },
{
    match sdk {
        None => Err(StreamlineError::SdkPathNotSet),
        Some(root) => Ok(
            InterposerPath { root, below: vec![BIN_DIRECTORY, PLATFORM_DIRECTORY, INTERPOSER_NAME] },
        ),
    }
}

/// Whether the interposer can be loaded from `path`, given whether it is there.
pub fn resolve_existing_interposer(path: String, is_present: bool) -> (r: Result<
    String,
    StreamlineError,
>)
    ensures
        if is_present {
            r == Ok::<String, StreamlineError>(path)
        } else {
            r matches Err(StreamlineError::InterposerNotFound(shown)) && shown == path
        },
{
    if is_present {
        Ok(path)
    } else {
        Err(StreamlineError::InterposerNotFound(path))
    }
}

/// Whether two files hold the same bytes. A file that could not be read (`None`) is not the same as
/// any other.
pub fn files_have_equal_bytes(a: Option<&Vec<u8>>, b: Option<&Vec<u8>>) -> (r: bool)
    ensures
        r == (a is Some && b is Some && a->0@ == b->0@),
{
    match (a, b) {
        (Some(x), Some(y)) => {
            if x.len() != y.len() {
                return false;
            }
            let mut i: usize = 0;
            while i < x.len()
                invariant
                    a == Some(x),
                    b == Some(y),
                    i <= x.len(),
                    x.len() == y.len(),
                    forall|j: int| 0 <= j < i ==> x[j] == y[j],
                decreases x.len() - i,
            {
                if x[i] != y[i] {
                    assert(!(x@ =~= y@));
                    return false;
                }
                i = i + 1;
            }
            assert(x@ =~= y@);
            true
        },
        _ => false,
    }
}

/// Whether, as the two predicates have it, the file `name` is there and is a loader shim.
pub open spec fn is_found<F: Fn(&'static str) -> bool, S: Fn(&'static str) -> bool>(
    is_file: F,
    is_shim: S,
    name: &'static str,
) -> bool {
    call_ensures(is_file, (name,), true) && call_ensures(is_shim, (name,), true)
}

/// Whether, as the two predicates have it, the file `name` is not there or is no loader shim.
pub open spec fn is_passed_over<F: Fn(&'static str) -> bool, S: Fn(&'static str) -> bool>(
    is_file: F,
    is_shim: S,
    name: &'static str,
) -> bool {
    call_ensures(is_file, (name,), false) || (call_ensures(is_file, (name,), true) && call_ensures(
        is_shim,
        (name,),
        false,
    ))
}

/// The name of the first loader shim beside the executable, among the names of the shims in their
/// order. `is_file` says whether there is a file of a name, and `is_shim` whether that file is a
/// copy of the interposer, for which it has to be read.
///
/// No file is read in vain: `is_shim` may rely on being asked only of a file that is there, and only
/// while no earlier file was found to be a shim.
pub fn find_loader_shim<F: Fn(&'static str) -> bool, S: Fn(&'static str) -> bool>(
    is_file: F,
    is_shim: S,
) -> (r: Option<&'static str>)
    requires
        call_requires(is_file, (loader_shim_names()[0],)),
        call_requires(is_file, (loader_shim_names()[1],)),
        call_ensures(is_file, (loader_shim_names()[0],), true) ==> call_requires(
            is_shim,
            (loader_shim_names()[0],),
        ),
        is_passed_over(is_file, is_shim, loader_shim_names()[0]) && call_ensures(
            is_file,
            (loader_shim_names()[1],),
            true,
        ) ==> call_requires(is_shim, (loader_shim_names()[1],)),
    ensures
        match r {
            Some(name) => is_found(is_file, is_shim, name) && (name == loader_shim_names()[0] || (
            name == loader_shim_names()[1] && is_passed_over(
                is_file,
                is_shim,
                loader_shim_names()[0],
            ))),
            None => is_passed_over(is_file, is_shim, loader_shim_names()[0]) && is_passed_over(
                is_file,
                is_shim,
                loader_shim_names()[1],
            ),
        },
{
    if is_file("dxgi.dll") && is_shim("dxgi.dll") {
        return Some("dxgi.dll");
    }
    if is_file("d3d12.dll") && is_shim("d3d12.dll") {
        return Some("d3d12.dll");
    }
    None
}

/// Refuses to go on where a loader shim stands beside the executable: initialization would enter the
/// interposer through it again and again.
///
/// `shown` is the path of the executable's directory with the shim's name appended.
pub fn reject_loader_shims(shim: Option<&'static str>, shown: String) -> (r: Result<
    (),
    StreamlineError,
>)
    ensures
        match shim {
            None => r == Ok::<(), StreamlineError>(()),
            Some(_) => r matches Err(StreamlineError::LoaderShimConflict(path)) && path == shown,
        },
{
    match shim {
        None => Ok(()),
        Some(_) => Err(StreamlineError::LoaderShimConflict(shown)),
    }
}

/// Where plugins are looked for.
#[derive(Clone, Copy, Debug, PartialEq, Eq, Structural)]
pub enum PluginDirectory {
    /// The directory of the executable, which the system searches first.
    Executable,
    /// The directory of the interposer.
    Interposer,
}

/// One of the steps that the interposer is loaded in.
#[derive(Clone, Copy, Debug, PartialEq, Eq)]
pub enum LoadStep {
    /// Check that the interposer exists.
    InterposerExists,
    /// Check that there is no loader shim beside the executable.
    NoLoaderShim,
    /// Verify the signature of the interposer and hold the file open.
    VerifyInterposer,
    /// Verify the signature of a plugin, if it is there.
    VerifyPlugin {
        /// Where the plugin would be.
        directory: PluginDirectory,
        /// Its file name.
        name: &'static str,
    },
    /// Load the interposer.
    LoadLibrary,
    /// Resolve an export.
    ResolveExport(&'static str),
}

/// The directories that plugins are verified in: the executable's, if it is known, and the
/// interposer's, unless it is the same.
pub open spec fn plugin_directories(executable_known: bool, same: bool) -> Seq<PluginDirectory> {
    (if executable_known {
        seq![PluginDirectory::Executable]
    } else {
        seq![]
    }) + (if executable_known && same {
        seq![]
    } else {
        seq![PluginDirectory::Interposer]
    })
}

/// The checks of all plugins in one directory.
pub open spec fn plugin_steps(directory: PluginDirectory) -> Seq<LoadStep> {
    sibling_plugins().map_values(|name: &'static str| LoadStep::VerifyPlugin { directory, name })
}

/// The checks of all plugins in all directories.
pub open spec fn all_plugin_steps(directories: Seq<PluginDirectory>) -> Seq<LoadStep>
    decreases directories.len(),
{
    if directories.len() == 0 {
        Seq::empty()
    } else {
        all_plugin_steps(directories.drop_last()) + plugin_steps(directories.last())
    }
}

/// The steps before the interposer is loaded.
pub open spec fn checks(executable_known: bool, same: bool) -> Seq<LoadStep> {
    seq![LoadStep::InterposerExists] + (if executable_known {
        seq![LoadStep::NoLoaderShim]
    } else {
        seq![]
    }) + seq![LoadStep::VerifyInterposer] + all_plugin_steps(
        plugin_directories(executable_known, same),
    )
}

/// The steps after the interposer is loaded.
pub open spec fn resolutions() -> Seq<LoadStep> {
    export_names().map_values(|name: &'static str| LoadStep::ResolveExport(name))
}

/// All the steps that the interposer is loaded in, in order.
pub open spec fn load_steps(executable_known: bool, same: bool) -> Seq<LoadStep> {
    checks(executable_known, same).push(LoadStep::LoadLibrary) + resolutions()
}

fn push_plugin_steps(steps: &mut Vec<LoadStep>, directory: PluginDirectory)
    ensures
        final(steps)@ == old(steps)@ + plugin_steps(directory),
{
    steps.push(LoadStep::VerifyPlugin { directory, name: "sl.common.dll" });
    steps.push(LoadStep::VerifyPlugin { directory, name: "sl.dlss_g.dll" });
    steps.push(LoadStep::VerifyPlugin { directory, name: "sl.reflex.dll" });
    steps.push(LoadStep::VerifyPlugin { directory, name: "sl.pcl.dll" });
    steps.push(LoadStep::VerifyPlugin { directory, name: "nvngx_dlssg.dll" });
    assert(steps@ =~= old(steps)@ + plugin_steps(directory));
}

/// The loading of the interposer. It goes from one step to the next as long as the steps succeed.
#[derive(Debug, PartialEq, Eq)]
pub struct Loader {
    steps: Vec<LoadStep>,
    passed: usize,
    failed: bool,
}

impl Loader {
    /// All the steps.
    pub closed spec fn steps(self) -> Seq<LoadStep> {
        self.steps@
    }

    /// How many of them have succeeded.
    pub closed spec fn passed(self) -> nat {
        self.passed as nat
    }

    /// Whether a step has failed.
    pub closed spec fn failed(self) -> bool {
        self.failed
    }

    /// Plans the loading. The executable's directory may be unknown; otherwise it may be the same as
    /// the interposer's, where plugins are then verified only once.
    pub fn new(executable_known: bool, same_directory: bool) -> (r: Loader)
        ensures
            r.steps() == load_steps(executable_known, same_directory),
            r.passed() == 0,
            !r.failed(),
    {
        let mut steps: Vec<LoadStep> = vec![LoadStep::InterposerExists];
        if executable_known {
            steps.push(LoadStep::NoLoaderShim);
        }
        steps.push(LoadStep::VerifyInterposer);
        proof {
            reveal_with_fuel(all_plugin_steps, 3);
        }
        if executable_known {
            push_plugin_steps(&mut steps, PluginDirectory::Executable);
        }
        if !(executable_known && same_directory) {
            push_plugin_steps(&mut steps, PluginDirectory::Interposer);
        }
        proof {
            let directories = plugin_directories(executable_known, same_directory);
            if directories.len() == 2 {
                assert(directories.drop_last() =~= seq![PluginDirectory::Executable]);
                assert(directories.drop_last().drop_last() =~= seq![]);
            } else {
                assert(directories.drop_last() =~= seq![]);
            }
            assert(steps@ =~= checks(executable_known, same_directory));
        }
        steps.push(LoadStep::LoadLibrary);
        steps.push(LoadStep::ResolveExport("slInit"));
        steps.push(LoadStep::ResolveExport("slShutdown"));
        steps.push(LoadStep::ResolveExport("slSetD3DDevice"));
        steps.push(LoadStep::ResolveExport("slIsFeatureSupported"));
        steps.push(LoadStep::ResolveExport("slGetFeatureRequirements"));
        steps.push(LoadStep::ResolveExport("slGetNewFrameToken"));
        steps.push(LoadStep::ResolveExport("slSetConstants"));
        steps.push(LoadStep::ResolveExport("slSetTagForFrame"));
        steps.push(LoadStep::ResolveExport("slGetFeatureFunction"));
        assert(steps@ =~= load_steps(executable_known, same_directory));
        Loader { steps, passed: 0, failed: false }
    }

    /// The step to take now; `None` once all have succeeded or one has failed.
    pub open spec fn pending(self) -> Option<LoadStep> {
        if self.failed() || self.passed() >= self.steps().len() {
            None
        } else {
            Some(self.steps()[self.passed() as int])
        }
    }

    /// The step to take now; `None` once all have succeeded or one has failed.
    pub fn current(&self) -> (r: Option<LoadStep>)
        ensures
            r == self.pending(),
    {
        if self.failed || self.passed >= self.steps.len() {
            None
        } else {
            Some(self.steps[self.passed])
        }
    }

    /// Whether the interposer is loaded and all of its exports are resolved.
    pub fn is_loaded(&self) -> (r: bool)
        ensures
            r == (!self.failed() && self.passed() >= self.steps().len()),
    {
        !self.failed && self.passed >= self.steps.len()
    }

    /// Takes the outcome of the current step. After a failure no further step is taken.
    pub fn advance(&mut self, outcome: Result<(), StreamlineError>) -> (r: Result<
        (),
        StreamlineError,
    >)
        ensures
            r == outcome,
            final(self).steps() == old(self).steps(),
            old(self).pending() is None ==> final(self).passed() == old(self).passed()
                && final(self).failed() == old(self).failed(),
            old(self).pending() is Some ==> {
                &&& final(self).failed() == (outcome is Err)
                &&& final(self).passed() == old(self).passed() + (if outcome is Ok {
                    1int
                } else {
                    0
                })
            },
    {
        if !self.failed && self.passed < self.steps.len() {
            if outcome.is_ok() {
                self.passed = self.passed + 1;
            } else {
                self.failed = true;
            }
        }
        outcome
    }
}

/// The outcome of a plugin's check: a plugin that is not there is skipped, one that is there must
/// verify.
pub fn plugin_outcome(is_present: bool, verified: Result<(), StreamlineError>) -> (r: Result<
    (),
    StreamlineError,
>)
    ensures
        r == (if is_present {
            verified
        } else {
            Ok(())
        }),
{
    if is_present {
        verified
    } else {
        Ok(())
    }
}

/// The outcome of loading the interposer from `path`, from the loader's own report.
pub fn library_outcome(path: String, loaded: Result<(), String>) -> (r: Result<
    (),
    StreamlineError,
>)
    ensures
        match loaded {
            Ok(()) => r == Ok::<(), StreamlineError>(()),
            Err(report) => r matches Err(StreamlineError::LibraryLoadFailed { path: p, source })
                && p == path && source == report,
        },
{
    match loaded {
        Ok(()) => Ok(()),
        Err(source) => Err(StreamlineError::LibraryLoadFailed { path, source }),
    }
}

/// The outcome of resolving an export, from the loader's own report.
pub fn resolve(symbol: &str, found: Result<u64, String>) -> (r: Result<u64, StreamlineError>)
    ensures
        match found {
            Ok(address) => r == Ok::<u64, StreamlineError>(address),
            Err(report) => r matches Err(StreamlineError::MissingExport { symbol: s, source }) && s@
                == symbol@ && source == report,
        },
{
    match found {
        Ok(address) => Ok(address),
        Err(source) => Err(StreamlineError::MissingExport { symbol: symbol.to_string(), source }),
    }
}

/// The interposer is loaded only when it exists, no loader shim was found beside a known executable,
/// its own signature was verified, and so was that of every known plugin in every directory that
/// plugins are taken from.
pub proof fn nothing_is_loaded_unverified(
    loader: Loader,
    executable_known: bool,
    same_directory: bool,
    directory: PluginDirectory,
    name: &'static str,
)
    requires
        loader.steps() == load_steps(executable_known, same_directory),
        loader.pending() == Some(LoadStep::LoadLibrary),
        plugin_directories(executable_known, same_directory).contains(directory),
        sibling_plugins().contains(name),
    ensures
        ({
            let done = loader.steps().take(loader.passed() as int);
            &&& done.contains(LoadStep::InterposerExists)
            &&& executable_known ==> done.contains(LoadStep::NoLoaderShim)
            &&& done.contains(LoadStep::VerifyInterposer)
            &&& done.contains(LoadStep::VerifyPlugin { directory, name })
        }),
{
    let before = checks(executable_known, same_directory);
    let n = before.len() as int;
    let steps = loader.steps();
    checks_do_not_load(executable_known, same_directory);
    assert(steps[n] == LoadStep::LoadLibrary);
    assert forall|i: int| 0 <= i < steps.len() && i != n implies steps[i] != LoadStep::LoadLibrary by {
        if i < n {
            assert(steps[i] == before[i]);
        } else {
            assert(steps[i] == resolutions()[i - n - 1]);
        }
    }
    let done = steps.take(loader.passed() as int);
    assert(done =~= before);
    let k = if executable_known {
        2int
    } else {
        1
    };
    assert(before[0] == LoadStep::InterposerExists);
    assert(executable_known ==> before[1] == LoadStep::NoLoaderShim);
    assert(before[k] == LoadStep::VerifyInterposer);
    plugins_are_checked(plugin_directories(executable_known, same_directory), directory, name);
    let plugins = all_plugin_steps(plugin_directories(executable_known, same_directory));
    let j = choose|j: int|
        0 <= j < plugins.len() && plugins[j] == (LoadStep::VerifyPlugin { directory, name });
    assert(before[k + 1 + j] == plugins[j]);
}

/// Plugin checks hold the check of each plugin in each directory.
proof fn plugins_are_checked(
    directories: Seq<PluginDirectory>,
    directory: PluginDirectory,
    name: &'static str,
)
    requires
        directories.contains(directory),
        sibling_plugins().contains(name),
    ensures
        all_plugin_steps(directories).contains(LoadStep::VerifyPlugin { directory, name }),
    decreases directories.len(),
{
    let step = LoadStep::VerifyPlugin { directory, name };
    let before = all_plugin_steps(directories.drop_last());
    let here = plugin_steps(directories.last());
    if directories.last() == directory {
        let i = choose|i: int| 0 <= i < sibling_plugins().len() && sibling_plugins()[i] == name;
        assert(here[i] == step);
        assert(all_plugin_steps(directories)[before.len() + i] == step);
    } else {
        let d = choose|d: int| 0 <= d < directories.len() && directories[d] == directory;
        assert(directories.drop_last()[d] == directory);
        plugins_are_checked(directories.drop_last(), directory, name);
        let i = choose|i: int| 0 <= i < before.len() && before[i] == step;
        assert(all_plugin_steps(directories)[i] == step);
    }
}

/// None of the checks loads the interposer.
proof fn checks_do_not_load(executable_known: bool, same: bool)
    ensures
        forall|i: int|
            0 <= i < checks(executable_known, same).len() ==> #[trigger] checks(
                executable_known,
                same,
            )[i] != LoadStep::LoadLibrary,
{
    let plugins = all_plugin_steps(plugin_directories(executable_known, same));
    plugin_checks_do_not_load(plugin_directories(executable_known, same));
    let all = checks(executable_known, same);
    let k = if executable_known {
        3int
    } else {
        2
    };
    assert forall|i: int| 0 <= i < all.len() implies #[trigger] all[i]
        != LoadStep::LoadLibrary by {
        if i >= k {
            assert(all[i] == plugins[i - k]);
        }
    }
}

proof fn plugin_checks_do_not_load(directories: Seq<PluginDirectory>)
    ensures
        forall|i: int|
            0 <= i < all_plugin_steps(directories).len() ==> #[trigger] all_plugin_steps(
                directories,
            )[i] != LoadStep::LoadLibrary,
    decreases directories.len(),
{
    if directories.len() > 0 {
        plugin_checks_do_not_load(directories.drop_last());
        let before = all_plugin_steps(directories.drop_last());
        let all = all_plugin_steps(directories);
        assert forall|i: int| 0 <= i < all.len() implies #[trigger] all[i]
            != LoadStep::LoadLibrary by {
            if i < before.len() {
                assert(all[i] == before[i]);
            }
        }
    }
}

/// A feature function that is resolved by name once the device is set.
#[derive(Clone, Copy, Debug, PartialEq, Eq)]
pub struct FeatureFunction {
    /// The feature that it belongs to.
    pub feature: Feature,
    /// Its name.
    pub name: &'static str,
}

/// The feature functions, in the order they are resolved in.
pub open spec fn feature_functions() -> Seq<FeatureFunction> {
    seq![
        FeatureFunction { feature: K_FEATURE_DLSS_G, name: "slDLSSGSetOptions" },
        FeatureFunction { feature: K_FEATURE_DLSS_G, name: "slDLSSGGetState" },
        FeatureFunction { feature: K_FEATURE_REFLEX, name: "slReflexSetOptions" },
        FeatureFunction { feature: K_FEATURE_REFLEX, name: "slReflexSleep" },
        FeatureFunction { feature: K_FEATURE_PCL, name: "slPCLSetMarker" },
    ]
}

/// The feature functions, in the order they are resolved in.
pub fn feature_function_list() -> (r: Vec<FeatureFunction>)
    ensures
        r@ == feature_functions(),
{
    vec![
        FeatureFunction { feature: K_FEATURE_DLSS_G, name: "slDLSSGSetOptions" },
        FeatureFunction { feature: K_FEATURE_DLSS_G, name: "slDLSSGGetState" },
        FeatureFunction { feature: K_FEATURE_REFLEX, name: "slReflexSetOptions" },
        FeatureFunction { feature: K_FEATURE_REFLEX, name: "slReflexSleep" },
        FeatureFunction { feature: K_FEATURE_PCL, name: "slPCLSetMarker" },
    ]
}

/// What stands before the result in the report of a function that could not be resolved.
pub const UNRESOLVED_PREFIX: &'static str = "slGetFeatureFunction returned ";

/// The report of a function that was resolved to null.
pub const NULL_FUNCTION_TEXT: &'static str =
    "slGetFeatureFunction returned a null function pointer";

/// The report of a function that is used before it was resolved.
pub const NOT_RESOLVED_TEXT: &'static str =
    "feature function not resolved (resolve_feature_functions not called)";

/// The error for a feature function that cannot be used.
pub open spec fn unavailable(
    feature: Feature,
    function: Seq<char>,
    detail: Seq<char>,
) -> crate::streamline::error::StreamlineErrorView {
    crate::streamline::error::StreamlineErrorView::FeatureFunctionUnavailable {
        feature,
        function,
        detail,
    }
}

/// The outcome of resolving a feature function: its address, unless the call failed or gave null.
pub fn feature_fn(function: FeatureFunction, result: SlResult, address: u64) -> (r: Result<
    u64,
    StreamlineError,
>)
    ensures
        r is Ok <==> result == SlResult::Success && address != 0,
        r matches Ok(resolved) ==> resolved == address,
        r matches Err(e) ==> e@ == unavailable(
            function.feature,
            function.name@,
            if result != SlResult::Success {
                UNRESOLVED_PREFIX@ + result.text()@
            } else {
                NULL_FUNCTION_TEXT@
            },
        ),
{
    if !result.is_ok() {
        let mut detail = UNRESOLVED_PREFIX.to_string();
        detail.append(result.name());
        return Err(
            StreamlineError::FeatureFunctionUnavailable {
                feature: function.feature,
                function: function.name.to_string(),
                detail,
            },
        );
    }
    if address == 0 {
        return Err(
            StreamlineError::FeatureFunctionUnavailable {
                feature: function.feature,
                function: function.name.to_string(),
                detail: NULL_FUNCTION_TEXT.to_string(),
            },
        );
    }
    Ok(address)
}

/// What a call of a feature function returned; an error where the function was never resolved
/// (`None`).
pub fn resolved_feature_fns(
    feature: Feature,
    function: &str,
    result: Option<SlResult>,
) -> (r: Result<SlResult, StreamlineError>)
    ensures
        match result {
            Some(result) => r == Ok::<SlResult, StreamlineError>(result),
            None => r matches Err(e) && e@ == unavailable(
                feature,
                function@,
                NOT_RESOLVED_TEXT@,
            ),
        },
{
    match result {
        Some(result) => Ok(result),
        None => Err(
            StreamlineError::FeatureFunctionUnavailable {
                feature,
                function: function.to_string(),
                detail: NOT_RESOLVED_TEXT.to_string(),
            },
        ),
    }
}

} // verus!

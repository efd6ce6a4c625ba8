//! Acquiring a companion tool on first use: run it; if it is missing from the
//! cache, install it under a lock and run it once more. Also where the
//! installers download from, and the rule that makes concurrent installs of
//! the same tool install it once.
use vstd::prelude::*;
use vstd::string::*;
use crate::error::DriverError;
use crate::paths::file_name;
use crate::text::same_text;
use crate::tool_path::ToolPath;

verus! {

/// Whether an error, or any cause below it, says a program was not found.
pub open spec fn is_not_found(e: DriverError) -> bool
    decreases e,
{
    match e {
        DriverError::NotFound { .. } => true,
        DriverError::Context { cause, .. } => is_not_found(*cause),
        _ => false,
    }
}

/// Whether `e`, or any cause below it, says a program was not found.
pub fn any_not_found(e: &DriverError) -> (r: bool)
    ensures
        r == is_not_found(*e),
    decreases e,
{
    match e {
        DriverError::NotFound { .. } => true,
        DriverError::Context { cause, .. } => any_not_found(cause),
        _ => false,
    }
}

/// Where an acquisition stands.
#[derive(Clone, Copy, Debug, PartialEq, Eq, Structural)]
pub enum Phase {
    /// The tool is being run for the first time.
    FirstRun,
    /// The tool's lock is being taken, to look again whether the tool is there.
    Locking,
    /// The installer is running, under the tool's lock.
    Installing,
    /// The tool is being run again after it was installed.
    Retry,
    /// Nothing more to do.
    Finished,
}

/// What the caller does next.
#[derive(Debug)]
pub enum AcquireAction {
    /// Run the tool (again).
    Run,
    /// Take the tool's lock and look whether the tool is there now.
    Lock,
    /// Run the installer, still under the tool's lock.
    Install,
    /// Stop with this outcome.
    Finish(Result<(), DriverError>),
}

/// The acquisition of one tool, driven by the outcomes of the runs and of
/// the installer that the caller performs.
#[derive(Debug)]
pub struct Acquire {
    pub overridden: bool,
    pub phase: Phase,
}

/// The next phase and action after a run ended with `outcome`.
pub open spec fn after_run(
    phase: Phase,
    overridden: bool,
    outcome: Result<(), DriverError>,
) -> (Phase, AcquireAction) {
    match outcome {
        Ok(()) => (Phase::Finished, AcquireAction::Finish(Ok(()))),
        Err(e) => if phase == Phase::FirstRun && !overridden && is_not_found(e) {
            (Phase::Locking, AcquireAction::Lock)
        } else {
            (Phase::Finished, AcquireAction::Finish(Err(e)))
        },
    }
}

/// Whether, with its lock held, a tool or download still has to be
/// installed: only when it is not there yet.
pub open spec fn needs_install(present: bool) -> bool {
    !present
}

/// The next phase and action once the tool's lock is held and the tool was
/// found `present` or not: another process may have installed it meanwhile.
pub open spec fn after_lock(present: bool) -> (Phase, AcquireAction) {
    if needs_install(present) {
        (Phase::Installing, AcquireAction::Install)
    } else {
        (Phase::Retry, AcquireAction::Run)
    }
}

/// The next phase and action after the installer ended with `outcome`.
pub open spec fn after_install(outcome: Result<(), DriverError>) -> (Phase, AcquireAction) {
    match outcome {
        Ok(()) => (Phase::Retry, AcquireAction::Run),
        Err(e) => (Phase::Finished, AcquireAction::Finish(Err(e))),
    }
}

impl Acquire {
    /// Starts acquiring the tool at `tool`; the first action is to run it.
    pub fn start(tool: &ToolPath) -> (r: Acquire)
        ensures
            r.overridden == (tool is Overridden),
            r.phase == Phase::FirstRun,
    {
        Acquire { overridden: tool.is_overridden(), phase: Phase::FirstRun }
    }

    /// Takes the outcome of a run. A first run that failed because the
    /// program is missing leads to the tool's lock, unless the path was
    /// chosen by the user; every other outcome ends the acquisition, an error
    /// unchanged.
    pub fn on_run(&mut self, outcome: Result<(), DriverError>) -> (r: AcquireAction)
        requires
            old(self).phase == Phase::FirstRun || old(self).phase == Phase::Retry,
        ensures
            (final(self).phase, r) == after_run(old(self).phase, old(self).overridden, outcome),
            final(self).overridden == old(self).overridden,
    {
        match outcome {
            Ok(()) => {
                self.phase = Phase::Finished;
                AcquireAction::Finish(Ok(()))
            },
            Err(e) => {
                if self.phase == Phase::FirstRun && !self.overridden && any_not_found(&e) {
                    self.phase = Phase::Locking;
                    AcquireAction::Lock
                } else {
                    self.phase = Phase::Finished;
                    AcquireAction::Finish(Err(e))
                }
            },
        }
    }

    /// Takes what was found once the tool's lock is held: install the tool
    /// when it is still missing, else run it again without installing.
    pub fn on_locked(&mut self, present: bool) -> (r: AcquireAction)
        requires
            old(self).phase == Phase::Locking,
        ensures
            (final(self).phase, r) == after_lock(present),
            final(self).overridden == old(self).overridden,
    {
        if present {
            self.phase = Phase::Retry;
            AcquireAction::Run
        } else {
            self.phase = Phase::Installing;
            AcquireAction::Install
        }
    }

    /// Takes the outcome of the installer: run the tool once more, or stop
    /// with the installer's error.
    pub fn on_install(&mut self, outcome: Result<(), DriverError>) -> (r: AcquireAction)
        requires
            old(self).phase == Phase::Installing,
        ensures
            (final(self).phase, r) == after_install(outcome),
            final(self).overridden == old(self).overridden,
    {
        match outcome {
            Ok(()) => {
                self.phase = Phase::Retry;
                AcquireAction::Run
            },
            Err(e) => {
                self.phase = Phase::Finished;
                AcquireAction::Finish(Err(e))
            },
        }
    }
}

/// A tool whose path the user chose is never installed: whatever a run
/// returns, the acquisition finishes, and a failure comes back exactly as
/// the run reported it.
pub proof fn overridden_tool_never_installs(phase: Phase, outcome: Result<(), DriverError>)
    ensures
        after_run(phase, true, outcome).1 is Finish,
        after_run(phase, true, outcome).1 == AcquireAction::Finish(outcome),
{
    match outcome {
        Ok(u) => assert(u == ()),
        Err(_) => {},
    }
}

/// A tool is installed at most once per acquisition: a tool found under the
/// lock is not installed; after the installer, the only run left is the
/// retry, and it finishes whatever it returns.
pub proof fn retry_never_installs_again(overridden: bool, outcome: Result<(), DriverError>)
    ensures
        after_lock(true) == (Phase::Retry, AcquireAction::Run),
        after_install(Ok(())).0 == Phase::Retry,
        after_run(Phase::Retry, overridden, outcome).1 is Finish,
{
}

/// Decides, under the download lock, whether to fetch: only when the
/// destination is still missing. Across attempts serialized by a lock,
/// `lock_serialized_installs_once` bounds how often this, or `on_locked`,
/// leads to an install.
pub fn fetch_needed(dest_exists: bool) -> (r: bool)
    ensures
        r == needs_install(dest_exists),
{
    !dest_exists
}

/// How many of `decisions` are fetches.
pub open spec fn fetch_count(decisions: Seq<bool>) -> nat
    decreases decisions.len(),
{
    if decisions.len() == 0 {
        0
    } else {
        fetch_count(decisions.drop_last()) + if decisions.last() {
            1nat
        } else {
            0nat
        }
    }
}

/// Whether `observed` is what attempts serialized by a lock see:
/// the destination is there when it was there at first, or when an earlier
/// attempt fetched it (a successful fetch leaves it in place).
pub open spec fn lock_serialized(initially: bool, observed: Seq<bool>, decisions: Seq<bool>) -> bool {
    &&& observed.len() == decisions.len()
    &&& forall|i: int|
        0 <= i < observed.len() ==> (#[trigger] observed[i] == (initially || exists|j: int|
            0 <= j < i && decisions[j]))
}

/// Attempts that take a lock one after another, each deciding by
/// `needs_install` of what it found (as `on_locked` does under the tool's
/// lock, and `fetch_needed` under the download lock), install a missing tool
/// exactly once and a present one never: the later attempts find it in place
/// and install nothing again.
pub proof fn lock_serialized_installs_once(
    initially: bool,
    observed: Seq<bool>,
    decisions: Seq<bool>,
)
    requires
        lock_serialized(initially, observed, decisions),
        forall|i: int| 0 <= i < decisions.len() ==> #[trigger] decisions[i] == needs_install(observed[i]),
    ensures
        fetch_count(decisions) == (if decisions.len() > 0 && !initially {
            1nat
        } else {
            0nat
        }),
    decreases decisions.len(),
{
    if decisions.len() > 0 {
        let n = decisions.len() - 1;
        let d0 = decisions.drop_last();
        let o0 = observed.drop_last();
        assert forall|i: int| 0 <= i < o0.len() implies (#[trigger] o0[i] == (initially || exists|
            j: int,
        | 0 <= j < i && d0[j])) by {
            assert(o0[i] == observed[i]);
            if exists|j: int| 0 <= j < i && decisions[j] {
                let j = choose|j: int| 0 <= j < i && decisions[j];
                assert(d0[j]);
            }
        }
        assert forall|i: int| 0 <= i < d0.len() implies #[trigger] d0[i] == needs_install(o0[i]) by {
            assert(d0[i] == decisions[i]);
            assert(o0[i] == observed[i]);
        }
        lock_serialized_installs_once(initially, o0, d0);
        if initially {
            assert(observed[n]);
            assert(!decisions[n]);
        } else if n > 0 {
            assert(observed[0] == (initially || exists|j: int| 0 <= j < 0 && decisions[j]));
            assert(!observed[0]);
            assert(decisions[0]);
            assert(observed[n] == (initially || exists|j: int| 0 <= j < n && decisions[j]));
            assert(observed[n]);
            assert(!decisions[n]);
        } else {
            assert(observed[0] == (initially || exists|j: int| 0 <= j < 0 && decisions[j]));
            assert(decisions[0]);
            assert(d0.len() == 0);
        }
    }
}

/// The platform name of the binding generator's precompiled releases, where
/// there is one.
pub open spec fn bindgen_target_of(os: Seq<char>, arch: Seq<char>) -> Option<Seq<char>> {
    if arch != "x86_64"@ {
        None
    } else if os == "linux"@ {
        Some("x86_64-unknown-linux-musl"@)
    } else if os == "macos"@ {
        Some("x86_64-apple-darwin"@)
    } else if os == "windows"@ {
        Some("x86_64-pc-windows-msvc"@)
    } else {
        None
    }
}

/// The platform name of the optimizer's precompiled releases, where there is
/// one.
pub open spec fn wasm_opt_target_of(os: Seq<char>, arch: Seq<char>) -> Option<Seq<char>> {
    if arch != "x86_64"@ {
        None
    } else if os == "linux"@ {
        Some("x86_64-linux"@)
    } else if os == "macos"@ {
        Some("x86_64-apple-darwin"@)
    } else if os == "windows"@ {
        Some("x86_64-windows"@)
    } else {
        None
    }
}


/// The precompiled binding-generator platform for `os` and `arch`.
pub fn bindgen_target(os: &str, arch: &str) -> (r: Option<&'static str>)
    ensures
        r.is_some() == bindgen_target_of(os@, arch@).is_some(),
        r.is_some() ==> r.unwrap()@ == bindgen_target_of(os@, arch@).unwrap(),
{
    if !same_text(arch, "x86_64") {
        None
    } else if same_text(os, "linux") {
        Some("x86_64-unknown-linux-musl")
    } else if same_text(os, "macos") {
        Some("x86_64-apple-darwin")
    } else if same_text(os, "windows") {
        Some("x86_64-pc-windows-msvc")
    } else {
        None
    }
}

/// The precompiled optimizer platform for `os` and `arch`; an error that
/// says how to proceed where there is none.
pub fn wasm_opt_target(os: &str, arch: &str) -> (r: Result<&'static str, DriverError>)
    ensures
        r is Ok == wasm_opt_target_of(os@, arch@).is_some(),
        r is Ok ==> r->Ok_0@ == wasm_opt_target_of(os@, arch@).unwrap(),
        r is Err ==> r->Err_0 is Message,
{
    if same_text(arch, "x86_64") {
        if same_text(os, "linux") {
            return Ok("x86_64-linux");
        } else if same_text(os, "macos") {
            return Ok("x86_64-apple-darwin");
        } else if same_text(os, "windows") {
            return Ok("x86_64-windows");
        }
    }
    Err(
        DriverError::Message {
            text: "no precompiled binaries of `wasm-opt` are available for this platform, you'll want to set `$WASM_OPT` to a preinstalled `wasm-opt` command or disable via `wasm-opt = false` in your manifest".to_owned(),
        },
    )
}

/// The release tag of the optimizer that is downloaded.
pub const WASM_OPT_TAG: &'static str = "version_89";

/// The archive of the binding generator `version` for `target`.
pub open spec fn bindgen_url_of(version: Seq<char>, target: Seq<char>) -> Seq<char> {
    "https://github.com/rustwasm/wasm-bindgen/releases/download/"@ + version + "/wasm-bindgen-"@
        + version + "-"@ + target + ".tar.gz"@
}

/// The archive of the optimizer release `tag` for `target`.
pub open spec fn wasm_opt_url_of(tag: Seq<char>, target: Seq<char>) -> Seq<char> {
    "https://github.com/WebAssembly/binaryen/releases/download/"@ + tag + "/binaryen-"@ + tag
        + "-"@ + target + ".tar.gz"@
}

/// Where the binding generator `version` for `target` is downloaded from.
pub fn bindgen_url(version: &str, target: &str) -> (r: String)
    ensures
        r@ == bindgen_url_of(version@, target@),
{
    let r = "https://github.com/rustwasm/wasm-bindgen/releases/download/".to_owned().concat(
        version,
    ).concat("/wasm-bindgen-").concat(version).concat("-").concat(target).concat(".tar.gz");
    r
}

/// Where the optimizer release `tag` for `target` is downloaded from.
pub fn wasm_opt_url(tag: &str, target: &str) -> (r: String)
    ensures
        r@ == wasm_opt_url_of(tag@, target@),
{
    "https://github.com/WebAssembly/binaryen/releases/download/".to_owned().concat(tag).concat(
        "/binaryen-",
    ).concat(tag).concat("-").concat(target).concat(".tar.gz")
}

/// Whether an archive entry at `entry` is the file called `name`: its last
/// component is `name`.
pub fn entry_matches(entry: &str, name: &str) -> (r: bool)
    ensures
        r == (file_name(entry@) == name@),
{
    same_text(crate::paths::file_name_str(entry), name)
}

} // verus!

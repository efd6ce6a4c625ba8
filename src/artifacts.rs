//! The build model: the compiler's events, the modules they report, and the
//! section and optimizer toggles that follow from a profile and the manifest.
use vstd::prelude::*;
use vstd::string::*;
use crate::error::DriverError;
use crate::paths::{is_wasm, is_wasm_path};
use crate::text::{first_word, leading_words, same_text, second_word};

verus! {

/// The package name of the binding generator, as it appears in a package id.
pub open spec fn bindgen_crate() -> Seq<char> {
    seq!['w', 'a', 's', 'm', '-', 'b', 'i', 'n', 'd', 'g', 'e', 'n']
}

/// The build profile the compiler reported for an artifact.
#[derive(Debug)]
pub struct Profile {
    pub opt_level: String,
    pub debuginfo: Option<u32>,
    pub test: bool,
}

impl Profile {
    /// A copy of this profile.
    pub fn duplicate(&self) -> (r: Profile)
        ensures
            r == *self,
    {
        Profile { opt_level: self.opt_level.clone(), debuginfo: self.debuginfo, test: self.test }
    }
}

/// Toggles read from the project manifest's metadata; `None` when unset.
#[derive(Clone, Copy, Debug, PartialEq, Eq, Structural)]
pub struct ManifestConfig {
    pub wasm_opt: Option<bool>,
    pub wasm_name_section: Option<bool>,
    pub wasm_producers_section: Option<bool>,
}

impl ManifestConfig {
    /// The configuration with every toggle unset.
    pub fn unset() -> (r: ManifestConfig)
        ensures
            r.wasm_opt.is_none(),
            r.wasm_name_section.is_none(),
            r.wasm_producers_section.is_none(),
    {
        ManifestConfig { wasm_opt: None, wasm_name_section: None, wasm_producers_section: None }
    }
}

/// One event of the compiler's line-delimited output.
#[derive(Debug)]
pub enum CargoMessage {
    CompilerArtifact { filenames: Vec<String>, package_id: String, profile: Profile, fresh: bool },
    BuildScriptExecuted,
    RunWithArgs { args: Vec<String> },
}

/// A module produced by the build.
#[derive(Debug)]
pub struct Artifact {
    pub path: String,
    pub profile: Profile,
    /// Whether the compiler reused an earlier build instead of compiling.
    pub fresh: bool,
}

/// What a build produced, gathered from its events.
#[derive(Debug)]
pub struct CargoBuild {
    /// The version of the binding generator that a dependency asked for.
    pub wasm_bindgen: Option<String>,
    /// The modules, in the order the compiler reported them.
    pub wasms: Vec<Artifact>,
    /// The run requests, in the order they were emitted.
    pub runs: Vec<Vec<String>>,
    pub manifest_config: ManifestConfig,
}

/// The mathematical content of a `CargoBuild`.
pub struct BuildView {
    pub wasm_bindgen: Option<Seq<char>>,
    pub wasms: Seq<Artifact>,
    pub runs: Seq<Vec<String>>,
    pub manifest_config: ManifestConfig,
}

impl View for CargoBuild {
    type V = BuildView;

    open spec fn view(&self) -> BuildView {
        BuildView {
            wasm_bindgen: match self.wasm_bindgen {
                Some(v) => Some(v@),
                None => None,
            },
            wasms: self.wasms@,
            runs: self.runs@,
            manifest_config: self.manifest_config,
        }
    }
}

/// The binding-generator version a package id asks for: its second word,
/// when its first word is the generator's crate name.
pub open spec fn bindgen_version_of(package_id: Seq<char>) -> Option<Seq<char>> {
    if first_word(package_id) == Some(bindgen_crate()) {
        second_word(package_id)
    } else {
        None
    }
}

/// The modules among `files`, in order, each with `profile` and `fresh`.
pub open spec fn wasm_artifacts(files: Seq<String>, profile: Profile, fresh: bool) -> Seq<Artifact>
    decreases files.len(),
{
    if files.len() == 0 {
        Seq::empty()
    } else {
        let rest = wasm_artifacts(files.drop_last(), profile, fresh);
        if is_wasm_path(files.last()@) {
            rest.push(Artifact { path: files.last(), profile, fresh })
        } else {
            rest
        }
    }
}

/// One line of the compiler's output, and the event it decoded to or why it
/// did not decode.
#[derive(Debug)]
pub struct DecodedLine {
    pub line: String,
    pub decoded: Result<CargoMessage, String>,
}

/// The events of lines that all decoded.
pub open spec fn messages_of(ls: Seq<DecodedLine>) -> Seq<CargoMessage> {
    ls.map_values(|l: DecodedLine| l.decoded->Ok_0)
}

/// The build after one more event.
pub open spec fn observe_spec(b: BuildView, m: CargoMessage) -> BuildView {
    match m {
        CargoMessage::CompilerArtifact { filenames, package_id, profile, fresh } => BuildView {
            wasm_bindgen: match bindgen_version_of(package_id@) {
                Some(v) => Some(v),
                None => b.wasm_bindgen,
            },
            wasms: b.wasms + wasm_artifacts(filenames@, profile, fresh),
            ..b
        },
        CargoMessage::BuildScriptExecuted => b,
        CargoMessage::RunWithArgs { args } => BuildView { runs: b.runs.push(args), ..b },
    }
}

/// The build that a sequence of events describes.
pub open spec fn build_of(ms: Seq<CargoMessage>, manifest_config: ManifestConfig) -> BuildView
    decreases ms.len(),
{
    if ms.len() == 0 {
        BuildView {
            wasm_bindgen: None,
            wasms: Seq::empty(),
            runs: Seq::empty(),
            manifest_config,
        }
    } else {
        observe_spec(build_of(ms.drop_last(), manifest_config), ms.last())
    }
}

/// Whether the name section is kept: always with debug info, else unless the
/// manifest turns it off.
pub open spec fn name_section_kept(p: Profile, m: ManifestConfig) -> bool {
    p.debuginfo.is_some() || m.wasm_name_section != Some(false)
}

/// Whether the producers section is kept, by the same rule as the name section.
pub open spec fn producers_section_kept(p: Profile, m: ManifestConfig) -> bool {
    p.debuginfo.is_some() || m.wasm_producers_section != Some(false)
}

/// Whether the optimizer runs: no debug info, some optimization, and not
/// turned off by the manifest.
pub open spec fn optimizer_runs(p: Profile, m: ManifestConfig) -> bool {
    p.debuginfo.is_none() && p.opt_level@ != seq!['0'] && m.wasm_opt != Some(false)
}

/// Whether `s` is the one-character text `0`.
fn is_level_zero(s: &String) -> (r: bool)
    ensures
        r == (s@ == seq!['0']),
{
    let zero = "0";
    proof {
        reveal_strlit("0");
    }
    assert(zero@ =~= seq!['0']);
    same_text(s.as_str(), zero)
}

/// The binding-generator version that `package_id` asks for, if any.
pub fn bindgen_version(package_id: &str) -> (r: Option<String>)
    ensures
        r.is_some() == bindgen_version_of(package_id@).is_some(),
        r.is_some() ==> r.unwrap()@ == bindgen_version_of(package_id@).unwrap(),
{
    let (first, second) = leading_words(package_id);
    let name = "wasm-bindgen";
    proof {
        reveal_strlit("wasm-bindgen");
    }
    assert(name@ =~= bindgen_crate());
    match first {
        Some(f) => {
            if same_text(f.as_str(), name) {
                second
            } else {
                None
            }
        },
        None => None,
    }
}

impl CargoBuild {
    /// A build with no events observed yet.
    pub fn new(manifest_config: ManifestConfig) -> (r: CargoBuild)
        ensures
            r@ == build_of(Seq::empty(), manifest_config),
    {
        CargoBuild { wasm_bindgen: None, wasms: Vec::new(), runs: Vec::new(), manifest_config }
    }

    /// Records one event of the compiler's output.
    pub fn observe(&mut self, m: CargoMessage)
        ensures
            final(self)@ == observe_spec(old(self)@, m),
    {
        match m {
            CargoMessage::CompilerArtifact { filenames, package_id, profile, fresh } => {
                match bindgen_version(package_id.as_str()) {
                    Some(v) => {
                        self.wasm_bindgen = Some(v);
                    },
                    None => {},
                }
                let ghost b1 = self@;
                let ghost files = filenames@;
                let ghost before = self.wasms@;
                let mut rest = filenames;
                let n = rest.len();
                let mut i: usize = 0;
                while rest.len() > 0
                    invariant
                        n == files.len(),
                        i <= files.len(),
                        self@.runs == b1.runs,
                        self@.wasm_bindgen == b1.wasm_bindgen,
                        self@.manifest_config == b1.manifest_config,
                        rest@ == files.subrange(i as int, files.len() as int),
                        self.wasms@ == before + wasm_artifacts(
                            files.subrange(0, i as int),
                            profile,
                            fresh,
                        ),
                    decreases rest.len(),
                {
                    let f = rest.remove(0);
                    assert(files.subrange(0, i + 1).drop_last() == files.subrange(0, i as int));
                    assert(files.subrange(0, i + 1).last() == f);
                    if is_wasm(f.as_str()) {
                        self.wasms.push(Artifact { path: f, profile: profile.duplicate(), fresh });
                    }
                    i = i + 1;
                }
                assert(files.subrange(0, files.len() as int) == files);
            },
            CargoMessage::BuildScriptExecuted => {},
            CargoMessage::RunWithArgs { args } => {
                self.runs.push(args);
            },
        }
    }

    /// Gathers a whole sequence of events, in order.
    pub fn from_messages(messages: Vec<CargoMessage>, manifest_config: ManifestConfig) -> (r:
        CargoBuild)
        ensures
            r@ == build_of(messages@, manifest_config),
            forall|k: int|
                0 <= k < r.wasms@.len() ==> is_wasm_path((#[trigger] r.wasms@[k]).path@),
    {
        let ghost ms = messages@;
        let mut build = CargoBuild::new(manifest_config);
        let mut rest = messages;
        let n = rest.len();
        let mut i: usize = 0;
        while rest.len() > 0
            invariant
                n == ms.len(),
                i <= ms.len(),
                rest@ == ms.subrange(i as int, ms.len() as int),
                build@ == build_of(ms.subrange(0, i as int), manifest_config),
            decreases rest.len(),
        {
            let m = rest.remove(0);
            assert(ms.subrange(0, i + 1).drop_last() == ms.subrange(0, i as int));
            assert(ms.subrange(0, i + 1).last() == m);
            build.observe(m);
            i = i + 1;
        }
        assert(ms.subrange(0, ms.len() as int) == ms);
        proof {
            built_artifacts_are_modules(ms, manifest_config);
        }
        build
    }

    /// Gathers the decoded lines of the compiler's output, in order. Fails on
    /// the first line that did not decode, naming that line and the reason.
    pub fn from_lines(lines: Vec<DecodedLine>, manifest_config: ManifestConfig) -> (r: Result<
        CargoBuild,
        DriverError,
    >)
        ensures
            r is Ok <==> (forall|i: int| 0 <= i < lines@.len() ==> (#[trigger] lines@[i]).decoded is Ok),
            r is Ok ==> r->Ok_0@ == build_of(messages_of(lines@), manifest_config),
            r is Ok ==> forall|k: int|
                0 <= k < r->Ok_0.wasms@.len() ==> is_wasm_path(
                    (#[trigger] r->Ok_0.wasms@[k]).path@,
                ),
            r is Err ==> exists|i: int|
                0 <= i < lines@.len() && (#[trigger] lines@[i]).decoded is Err && (forall|j: int|
                    0 <= j < i ==> (#[trigger] lines@[j]).decoded is Ok) && r->Err_0 == (DriverError::Decode {
                    line: lines@[i].line,
                    reason: lines@[i].decoded->Err_0,
                }),
    {
        let ghost ls = lines@;
        let mut build = CargoBuild::new(manifest_config);
        let mut rest = lines;
        let n = rest.len();
        let mut i: usize = 0;
        while rest.len() > 0
            invariant
                ls == lines@,
                n == ls.len(),
                i <= ls.len(),
                rest@ == ls.subrange(i as int, ls.len() as int),
                forall|j: int| 0 <= j < i ==> (#[trigger] ls[j]).decoded is Ok,
                build@ == build_of(messages_of(ls.subrange(0, i as int)), manifest_config),
            decreases rest.len(),
        {
            let l = rest.remove(0);
            assert(l == ls[i as int]);
            match l.decoded {
                Ok(m) => {
                    assert(messages_of(ls.subrange(0, i + 1)).drop_last() =~= messages_of(
                        ls.subrange(0, i as int),
                    ));
                    build.observe(m);
                },
                Err(reason) => {
                    assert(ls[i as int].decoded is Err);
                    return Err(DriverError::Decode { line: l.line, reason });
                },
            }
            i = i + 1;
        }
        assert(ls.subrange(0, ls.len() as int) == ls);
        proof {
            built_artifacts_are_modules(messages_of(ls), manifest_config);
        }
        Ok(build)
    }

    /// Whether the name section is kept for a module built with `profile`.
    pub fn enable_name_section(&self, profile: &Profile) -> (r: bool)
        ensures
            r == name_section_kept(*profile, self.manifest_config),
    {
        profile.debuginfo.is_some() || match self.manifest_config.wasm_name_section {
            Some(b) => b,
            None => true,
        }
    }

    /// Whether the producers section is kept for a module built with `profile`.
    pub fn enable_producers_section(&self, profile: &Profile) -> (r: bool)
        ensures
            r == producers_section_kept(*profile, self.manifest_config),
    {
        profile.debuginfo.is_some() || match self.manifest_config.wasm_producers_section {
            Some(b) => b,
            None => true,
        }
    }

    /// Whether the optimizer runs over a module built with `profile`.
    pub fn enable_wasm_opt(&self, profile: &Profile) -> (r: bool)
        ensures
            r == optimizer_runs(*profile, self.manifest_config),
    {
        if profile.debuginfo.is_some() || is_level_zero(&profile.opt_level) {
            return false;
        }
        match self.manifest_config.wasm_opt {
            Some(b) => b,
            None => true,
        }
    }
}

} // verus!

verus! {

/// With debug info requested, the name and producers sections are both kept,
/// whatever the manifest says.
pub proof fn debuginfo_keeps_sections(profile: Profile, manifest: ManifestConfig)
    requires
        profile.debuginfo.is_some(),
    ensures
        name_section_kept(profile, manifest),
        producers_section_kept(profile, manifest),
{
}

/// Without debug info, a section is kept exactly when its manifest toggle is
/// unset or true, and dropped exactly when it is false.
pub proof fn manifest_decides_sections(profile: Profile, manifest: ManifestConfig)
    requires
        profile.debuginfo.is_none(),
    ensures
        name_section_kept(profile, manifest) <==> (manifest.wasm_name_section.is_none()
            || manifest.wasm_name_section == Some(true)),
        producers_section_kept(profile, manifest) <==> (manifest.wasm_producers_section.is_none()
            || manifest.wasm_producers_section == Some(true)),
        !name_section_kept(profile, manifest) <==> manifest.wasm_name_section == Some(false),
        !producers_section_kept(profile, manifest) <==> manifest.wasm_producers_section == Some(
            false,
        ),
{
    match manifest.wasm_name_section {
        Some(b) => {},
        None => {},
    }
    match manifest.wasm_producers_section {
        Some(b) => {},
        None => {},
    }
}

/// The optimizer runs exactly when there is no debug info, the optimization
/// level is not `0`, and the manifest does not turn it off.
pub proof fn optimizer_condition(profile: Profile, manifest: ManifestConfig)
    ensures
        optimizer_runs(profile, manifest) <==> (profile.debuginfo.is_none() && profile.opt_level@
            != seq!['0'] && manifest.wasm_opt != Some(false)),
{
}

proof fn lemma_wasm_artifacts_are_modules(files: Seq<String>, profile: Profile, fresh: bool)
    ensures
        forall|k: int|
            0 <= k < wasm_artifacts(files, profile, fresh).len() ==> is_wasm_path(
                (#[trigger] wasm_artifacts(files, profile, fresh)[k]).path@,
            ),
    decreases files.len(),
{
    if files.len() > 0 {
        lemma_wasm_artifacts_are_modules(files.drop_last(), profile, fresh);
    }
}

/// Every artifact of a build names a module: its path has the `wasm`
/// extension.
pub proof fn built_artifacts_are_modules(ms: Seq<CargoMessage>, manifest_config: ManifestConfig)
    ensures
        forall|k: int|
            0 <= k < build_of(ms, manifest_config).wasms.len() ==> is_wasm_path(
                (#[trigger] build_of(ms, manifest_config).wasms[k]).path@,
            ),
    decreases ms.len(),
{
    if ms.len() > 0 {
        built_artifacts_are_modules(ms.drop_last(), manifest_config);
        let before = build_of(ms.drop_last(), manifest_config);
        match ms.last() {
            CargoMessage::CompilerArtifact { filenames, package_id, profile, fresh } => {
                lemma_wasm_artifacts_are_modules(filenames@, profile, fresh);
                let added = wasm_artifacts(filenames@, profile, fresh);
                assert forall|k: int|
                    0 <= k < build_of(ms, manifest_config).wasms.len() implies is_wasm_path(
                    (#[trigger] build_of(ms, manifest_config).wasms[k]).path@,
                ) by {
                    if k < before.wasms.len() {
                        assert(build_of(ms, manifest_config).wasms[k] == before.wasms[k]);
                    } else {
                        assert(build_of(ms, manifest_config).wasms[k] == added[k
                            - before.wasms.len()]);
                    }
                }
            },
            _ => {},
        }
    }
}

} // verus!

//! Post-processing of each module: which transformation runs (if any), the
//! arguments of the companion tools, and the codec pass that demangles
//! function names and keeps or drops custom sections.
use vstd::prelude::*;
use vstd::string::*;
use crate::artifacts::{
    optimizer_runs, name_section_kept, producers_section_kept, Artifact, BuildView, CargoBuild,
    Profile,
};
use crate::paths::{is_wasm_path, replace_wasm_extension, with_wasm_extension};
use crate::text::texts;
use crate::codec::{demangled_names, encoding, parse_result, process_module};
use crate::error::DriverError;

verus! {

/// How a module is transformed.
#[derive(Debug)]
pub enum Transform {
    /// Re-encoded through the module codec, then optionally optimized.
    Plain { name_section: bool, producers_section: bool, optimize: bool },
    /// Handed to the binding generator of the given version.
    Bindgen {
        version: String,
        keep_debug: bool,
        remove_name_section: bool,
        remove_producers_section: bool,
    },
}

/// What becomes of one module. The steps are, in order: remove `raw` if
/// present; rename the module to `raw`; when there is a `transform`, run it
/// from `raw` into `staged` and, once it succeeded, rename `staged` to
/// `processed` (when it fails, the module is restored from an earlier
/// `processed`, if any, and the error is returned); finally replace the
/// module by `processed` (a hard link, else a copy).
#[derive(Debug)]
pub struct ArtifactPlan {
    pub raw: String,
    pub staged: String,
    pub processed: String,
    pub transform: Option<Transform>,
}

/// The sibling that holds the compiler's own output.
pub open spec fn raw_path(p: Seq<char>) -> Seq<char> {
    replace_wasm_extension(p, "rustc.wasm"@)
}

/// The sibling that a transformation writes before it is known to succeed.
pub open spec fn staged_path(p: Seq<char>) -> Seq<char> {
    replace_wasm_extension(p, "wasi-staged.wasm"@)
}

/// The sibling that holds the finished module.
pub open spec fn processed_path(p: Seq<char>) -> Seq<char> {
    replace_wasm_extension(p, "wasi.wasm"@)
}

/// Whether a module has to be transformed again: it was recompiled, or no
/// processed sibling survives from an earlier run.
pub open spec fn needs_processing(fresh: bool, processed_exists: bool) -> bool {
    !fresh || !processed_exists
}

/// Whether `t` is the transformation a build prescribes for a module.
pub open spec fn transform_matches(t: Transform, b: BuildView, p: Profile) -> bool {
    match t {
        Transform::Plain { name_section, producers_section, optimize } => {
            &&& b.wasm_bindgen.is_none()
            &&& name_section == name_section_kept(p, b.manifest_config)
            &&& producers_section == producers_section_kept(p, b.manifest_config)
            &&& optimize == optimizer_runs(p, b.manifest_config)
        },
        Transform::Bindgen {
            version,
            keep_debug,
            remove_name_section,
            remove_producers_section,
        } => {
            &&& b.wasm_bindgen == Some(version@)
            &&& keep_debug == p.debuginfo.is_some()
            &&& remove_name_section == !name_section_kept(p, b.manifest_config)
            &&& remove_producers_section == !producers_section_kept(p, b.manifest_config)
        },
    }
}

/// Decides what becomes of `artifact`, given whether its processed sibling
/// from an earlier run exists.
pub fn plan_artifact(build: &CargoBuild, artifact: &Artifact, processed_exists: bool) -> (r:
    ArtifactPlan)
    requires
        is_wasm_path(artifact.path@),
    ensures
        r.raw@ == raw_path(artifact.path@),
        r.staged@ == staged_path(artifact.path@),
        r.processed@ == processed_path(artifact.path@),
        r.transform.is_some() == needs_processing(artifact.fresh, processed_exists),
        artifact.fresh && processed_exists ==> r.transform.is_none(),
        r.transform.is_some() ==> transform_matches(r.transform.unwrap(), build@, artifact.profile),
{
    let raw = with_wasm_extension(artifact.path.as_str(), "rustc.wasm");
    let staged = with_wasm_extension(artifact.path.as_str(), "wasi-staged.wasm");
    let processed = with_wasm_extension(artifact.path.as_str(), "wasi.wasm");
    if artifact.fresh && processed_exists {
        return ArtifactPlan { raw, staged, processed, transform: None };
    }
    let profile = &artifact.profile;
    let name_section = build.enable_name_section(profile);
    let producers_section = build.enable_producers_section(profile);
    let transform = match &build.wasm_bindgen {
        Some(version) => Transform::Bindgen {
            version: version.clone(),
            keep_debug: profile.debuginfo.is_some(),
            remove_name_section: !name_section,
            remove_producers_section: !producers_section,
        },
        None => Transform::Plain {
            name_section,
            producers_section,
            optimize: build.enable_wasm_opt(profile),
        },
    };
    ArtifactPlan { raw, staged, processed, transform: Some(transform) }
}

/// A fresh module whose processed sibling survives is not transformed again:
/// no tool runs, and the module put in place is that earlier processed
/// sibling, unchanged. A recompiled module, or one without a processed
/// sibling, is always transformed.
pub proof fn fresh_module_is_reused(fresh: bool, processed_exists: bool)
    ensures
        fresh && processed_exists ==> !needs_processing(fresh, processed_exists),
        !fresh || !processed_exists ==> needs_processing(fresh, processed_exists),
{
}

/// In the binding-generator branch without debug info, each section is
/// removed exactly when the manifest turns it off.
pub proof fn bindgen_removals_follow_manifest(t: Transform, b: BuildView, p: Profile)
    requires
        transform_matches(t, b, p),
        t is Bindgen,
        p.debuginfo.is_none(),
    ensures
        t->Bindgen_remove_name_section == (b.manifest_config.wasm_name_section == Some(false)),
        t->Bindgen_remove_producers_section == (b.manifest_config.wasm_producers_section == Some(
            false,
        )),
{
}

/// The codec pass of the plain branch, with the section choices of `t`: the
/// module parsed from `bytes`, every function name demangled, re-encoded.
pub fn encode_plain(t: &Transform, bytes: &[u8]) -> (r: Result<Vec<u8>, DriverError>)
    requires
        t is Plain,
    ensures
        match *t {
            Transform::Plain { name_section, producers_section, .. } => {
                &&& r is Ok == parse_result(bytes@, name_section, producers_section).is_some()
                &&& r is Ok ==> r->Ok_0@ == encoding(
                    (bytes@, name_section, producers_section),
                    demangled_names(
                        parse_result(bytes@, name_section, producers_section).unwrap(),
                    ),
                )
                &&& r is Err ==> r->Err_0 is Message
            },
            _ => false,
        },
{
    match t {
        Transform::Plain { name_section, producers_section, .. } => process_module(
            bytes,
            *name_section,
            *producers_section,
        ),
        Transform::Bindgen { .. } => unreached(),
    }
}

/// The optimizer's arguments.
pub open spec fn wasm_opt_args_spec(
    input: Seq<char>,
    opt_level: Seq<char>,
    output: Seq<char>,
    keep_names: bool,
    keep_producers: bool,
) -> Seq<Seq<char>> {
    let base = seq![input, "-O"@ + opt_level, "-o"@, output];
    let debug = if keep_names {
        "--debuginfo"@
    } else {
        "--strip-debug"@
    };
    if keep_producers {
        base.push(debug)
    } else {
        base.push(debug).push("--strip-producers"@)
    }
}

/// The binding generator's arguments.
pub open spec fn wasm_bindgen_args_spec(
    input: Seq<char>,
    out_dir: Seq<char>,
    keep_debug: bool,
    remove_names: bool,
    remove_producers: bool,
) -> Seq<Seq<char>> {
    let a = seq![input];
    let b = if keep_debug {
        a.push("--keep-debug"@)
    } else {
        a
    };
    let c = b + seq!["--out-dir"@, out_dir, "--out-name"@, "foo"@];
    let d = if remove_names {
        c.push("--remove-name-section"@)
    } else {
        c
    };
    if remove_producers {
        d.push("--remove-producers-section"@)
    } else {
        d
    }
}

/// Arguments for the optimizer: read `input`, optimize at `opt_level`, write
/// `output`, keep or strip debug names, and strip the producers section when
/// it is not kept.
pub fn wasm_opt_args(
    input: &str,
    opt_level: &str,
    output: &str,
    keep_names: bool,
    keep_producers: bool,
) -> (r: Vec<String>)
    ensures
        texts(r@) == wasm_opt_args_spec(input@, opt_level@, output@, keep_names, keep_producers),
{
    let mut r: Vec<String> = Vec::new();
    r.push(input.to_owned());
    let level = "-O".to_owned().concat(opt_level);
    r.push(level);
    r.push("-o".to_owned());
    r.push(output.to_owned());
    if keep_names {
        r.push("--debuginfo".to_owned());
    } else {
        r.push("--strip-debug".to_owned());
    }
    if !keep_producers {
        r.push("--strip-producers".to_owned());
    }
    assert(texts(r@) =~= wasm_opt_args_spec(
        input@,
        opt_level@,
        output@,
        keep_names,
        keep_producers,
    ));
    r
}

/// Arguments for the binding generator: read `input`, write into `out_dir`
/// under the name `foo`, with the requested debug and section flags.
pub fn wasm_bindgen_args(
    input: &str,
    out_dir: &str,
    keep_debug: bool,
    remove_names: bool,
    remove_producers: bool,
) -> (r: Vec<String>)
    ensures
        texts(r@) == wasm_bindgen_args_spec(
            input@,
            out_dir@,
            keep_debug,
            remove_names,
            remove_producers,
        ),
{
    let mut r: Vec<String> = Vec::new();
    r.push(input.to_owned());
    if keep_debug {
        r.push("--keep-debug".to_owned());
    }
    r.push("--out-dir".to_owned());
    r.push(out_dir.to_owned());
    r.push("--out-name".to_owned());
    r.push("foo".to_owned());
    if remove_names {
        r.push("--remove-name-section".to_owned());
    }
    if remove_producers {
        r.push("--remove-producers-section".to_owned());
    }
    assert(texts(r@) =~= wasm_bindgen_args_spec(
        input@,
        out_dir@,
        keep_debug,
        remove_names,
        remove_producers,
    ));
    r
}

} // verus!

//! What an invocation asks for, and the arguments handed to the compiler,
//! to the runtime and to the installers.
use vstd::prelude::*;
use vstd::string::*;
use crate::error::DriverError;
use crate::text::{same_text, starts_with, texts};

verus! {

/// A compiler subcommand the driver passes through.
#[derive(Clone, Copy, Debug, PartialEq, Eq, Structural)]
pub enum Subcommand {
    Build,
    Run,
    Test,
    Bench,
    Check,
    Fix,
}

/// What the first argument asks for.
#[derive(Clone, Copy, Debug, PartialEq, Eq, Structural)]
pub enum Invocation {
    Sub(Subcommand),
    /// The `self` maintenance command.
    Maintenance,
    Version,
    Help,
}

/// A self-maintenance command.
#[derive(Clone, Copy, Debug, PartialEq, Eq, Structural)]
pub enum SelfCommand {
    Clean,
    UpdateCheck,
}

/// The compiler's name for a subcommand.
pub open spec fn subcommand_text(s: Subcommand) -> Seq<char> {
    match s {
        Subcommand::Build => "build"@,
        Subcommand::Run => "run"@,
        Subcommand::Test => "test"@,
        Subcommand::Bench => "bench"@,
        Subcommand::Check => "check"@,
        Subcommand::Fix => "fix"@,
    }
}

/// What an argument asks for.
pub open spec fn invocation_of(arg: Option<Seq<char>>) -> Invocation {
    match arg {
        Some(a) => if a == "build"@ {
            Invocation::Sub(Subcommand::Build)
        } else if a == "run"@ {
            Invocation::Sub(Subcommand::Run)
        } else if a == "test"@ {
            Invocation::Sub(Subcommand::Test)
        } else if a == "bench"@ {
            Invocation::Sub(Subcommand::Bench)
        } else if a == "check"@ {
            Invocation::Sub(Subcommand::Check)
        } else if a == "fix"@ {
            Invocation::Sub(Subcommand::Fix)
        } else if a == "self"@ {
            Invocation::Maintenance
        } else if a == "version"@ || a == "-V"@ || a == "--version"@ {
            Invocation::Version
        } else {
            Invocation::Help
        },
        None => Invocation::Help,
    }
}

/// Reads the subcommand argument; anything unknown asks for help.
pub fn parse_invocation(arg: Option<&str>) -> (r: Invocation)
    ensures
        r == invocation_of(crate::cache::text_of(arg)),
{
    match arg {
        Some(a) => if same_text(a, "build") {
            Invocation::Sub(Subcommand::Build)
        } else if same_text(a, "run") {
            Invocation::Sub(Subcommand::Run)
        } else if same_text(a, "test") {
            Invocation::Sub(Subcommand::Test)
        } else if same_text(a, "bench") {
            Invocation::Sub(Subcommand::Bench)
        } else if same_text(a, "check") {
            Invocation::Sub(Subcommand::Check)
        } else if same_text(a, "fix") {
            Invocation::Sub(Subcommand::Fix)
        } else if same_text(a, "self") {
            Invocation::Maintenance
        } else if same_text(a, "version") || same_text(a, "-V") || same_text(a, "--version") {
            Invocation::Version
        } else {
            Invocation::Help
        },
        None => Invocation::Help,
    }
}

/// The compiler's name for `s`.
pub fn subcommand_name(s: Subcommand) -> (r: &'static str)
    ensures
        r@ == subcommand_text(s),
{
    match s {
        Subcommand::Build => "build",
        Subcommand::Run => "run",
        Subcommand::Test => "test",
        Subcommand::Bench => "bench",
        Subcommand::Check => "check",
        Subcommand::Fix => "fix",
    }
}

/// Whether `s` executes built modules, and so needs a runtime.
pub fn needs_runtime(s: Subcommand) -> (r: bool)
    ensures
        r == (s == Subcommand::Run || s == Subcommand::Bench || s == Subcommand::Test),
{
    match s {
        Subcommand::Run | Subcommand::Bench | Subcommand::Test => true,
        _ => false,
    }
}

/// The compiler's arguments: the subcommand, the WASI target, structured
/// output, then the user's arguments unchanged.
pub open spec fn cargo_args_spec(s: Subcommand, rest: Seq<Seq<char>>) -> Seq<Seq<char>> {
    seq![
        subcommand_text(s),
        "--target"@,
        "wasm32-wasi"@,
        "--message-format"@,
        "json-render-diagnostics"@,
    ] + rest
}

/// The compiler's arguments for subcommand `s` and the user's `rest`.
pub fn cargo_args(s: Subcommand, rest: &Vec<String>) -> (r: Vec<String>)
    ensures
        texts(r@) == cargo_args_spec(s, texts(rest@)),
{
    let mut r: Vec<String> = Vec::new();
    r.push(subcommand_name(s).to_owned());
    r.push("--target".to_owned());
    r.push("wasm32-wasi".to_owned());
    r.push("--message-format".to_owned());
    r.push("json-render-diagnostics".to_owned());
    let ghost head = texts(r@);
    let mut i: usize = 0;
    while i < rest.len()
        invariant
            i <= rest@.len(),
            head.len() == 5,
            texts(r@) == head + texts(rest@.subrange(0, i as int)),
        decreases rest@.len() - i,
    {
        let ghost before = r@;
        r.push(rest[i].clone());
        assert(texts(r@) =~= texts(before).push(rest@[i as int]@));
        assert(texts(rest@.subrange(0, i + 1)) =~= texts(rest@.subrange(0, i as int)).push(
            rest@[i as int]@,
        ));
        assert(texts(r@) =~= head + texts(rest@.subrange(0, i + 1)));
        i = i + 1;
    }
    assert(rest@.subrange(0, rest@.len() as int) =~= rest@);
    assert(head =~= seq![
        subcommand_text(s),
        "--target"@,
        "wasm32-wasi"@,
        "--message-format"@,
        "json-render-diagnostics"@,
    ]);
    r
}

/// Whether an argument asks for verbose output.
pub open spec fn is_verbose_flag(a: Seq<char>) -> bool {
    a.len() >= 9 && a.subrange(0, 9) == "--verbose"@ || a.len() >= 2 && a.subrange(0, 2) == "-v"@
}

/// Whether any of `args` asks for verbose output: it begins with
/// `--verbose` or `-v`.
pub fn asks_verbose(args: &Vec<String>) -> (r: bool)
    ensures
        r == exists|i: int| 0 <= i < args@.len() && #[trigger] is_verbose_flag(args@[i]@),
{
    let long = "--verbose";
    let short = "-v";
    proof {
        reveal_strlit("--verbose");
        reveal_strlit("-v");
    }
    let mut i: usize = 0;
    while i < args.len()
        invariant
            i <= args@.len(),
            long@ == "--verbose"@,
            long@.len() == 9,
            short@ == "-v"@,
            short@.len() == 2,
            forall|j: int| 0 <= j < i ==> !#[trigger] is_verbose_flag(args@[j]@),
        decreases args@.len() - i,
    {
        let a = args[i].as_str();
        if starts_with(a, long) || starts_with(a, short) {
            assert(is_verbose_flag(args@[i as int]@));
            return true;
        }
        i = i + 1;
    }
    false
}

/// The runtime's arguments for one run request: `--`, then the request.
pub fn runner_args(run: &Vec<String>) -> (r: Vec<String>)
    ensures
        texts(r@) == seq!["--"@] + texts(run@),
{
    let mut r: Vec<String> = Vec::new();
    r.push("--".to_owned());
    let mut i: usize = 0;
    while i < run.len()
        invariant
            i <= run@.len(),
            texts(r@) == seq!["--"@] + texts(run@.subrange(0, i as int)),
        decreases run@.len() - i,
    {
        let ghost before = r@;
        r.push(run[i].clone());
        assert(texts(r@) =~= texts(before).push(run@[i as int]@));
        assert(texts(run@.subrange(0, i + 1)) =~= texts(run@.subrange(0, i as int)).push(
            run@[i as int]@,
        ));
        assert(texts(r@) =~= seq!["--"@] + texts(run@.subrange(0, i + 1)));
        i = i + 1;
    }
    assert(run@.subrange(0, run@.len() as int) =~= run@);
    r
}

/// `parts` joined by single spaces.
pub open spec fn spaced(parts: Seq<Seq<char>>) -> Seq<char>
    decreases parts.len(),
{
    if parts.len() == 0 {
        Seq::empty()
    } else if parts.len() == 1 {
        parts[0]
    } else {
        spaced(parts.drop_last()) + " "@ + parts.last()
    }
}

/// The status line of a run request: its words between backquotes.
pub fn run_banner(run: &Vec<String>) -> (r: String)
    ensures
        r@ == "`"@ + spaced(texts(run@)) + "`"@,
{
    let mut line = String::new();
    let mut i: usize = 0;
    while i < run.len()
        invariant
            i <= run@.len(),
            line@ == spaced(texts(run@.subrange(0, i as int))),
        decreases run@.len() - i,
    {
        let ghost prev = run@.subrange(0, i as int);
        if i > 0 {
            line.append(" ");
        }
        line.append(run[i].as_str());
        let ghost next = run@.subrange(0, i + 1);
        assert(texts(next).drop_last() =~= texts(prev));
        assert(i == 0 ==> texts(next) =~= seq![run@[0]@]);
        i = i + 1;
    }
    assert(run@.subrange(0, run@.len() as int) =~= run@);
    let r = "`".to_owned().concat(line.as_str()).concat("`");
    r
}

/// The name of the stamp that records the WASI target as installed, for the
/// toolchain named in the environment, if any.
pub fn wasi_target_stamp_name(toolchain: Option<&str>) -> (r: String)
    ensures
        r@ == "wasi-target-installed"@ + (match toolchain {
            Some(t) => t@,
            None => Seq::empty(),
        }),
{
    let r = "wasi-target-installed".to_owned();
    match toolchain {
        Some(t) => r.concat(t),
        None => {
            assert(r@ + Seq::<char>::empty() =~= r@);
            r
        },
    }
}

/// What to do about the WASI target: nothing when it is installed
/// (`Ok(false)`), install it through rustup when rustup is in use
/// (`Ok(true)`), else fail.
pub fn wasi_target_step(target_installed: bool, rustup_in_use: bool) -> (r: Result<
    bool,
    DriverError,
>)
    ensures
        target_installed ==> r == Ok::<bool, DriverError>(false),
        !target_installed && rustup_in_use ==> r == Ok::<bool, DriverError>(true),
        !target_installed && !rustup_in_use ==> r == Err::<bool, DriverError>(
            DriverError::ToolchainMissing,
        ),
{
    if target_installed {
        Ok(false)
    } else if rustup_in_use {
        Ok(true)
    } else {
        Err(DriverError::ToolchainMissing)
    }
}

/// Reads the argument of the `self` command.
pub fn parse_self_command(arg: Option<&str>) -> (r: Result<SelfCommand, DriverError>)
    ensures
        arg.is_none() ==> r is Err && r->Err_0 is Message && r->Err_0->Message_text@
            == "`self` command must be followed by `clean` or `update-check`"@,
        arg.is_some() && arg.unwrap()@ == "clean"@ ==> r == Ok::<SelfCommand, DriverError>(
            SelfCommand::Clean,
        ),
        arg.is_some() && arg.unwrap()@ == "update-check"@ ==> r == Ok::<
            SelfCommand,
            DriverError,
        >(SelfCommand::UpdateCheck),
        arg.is_some() && arg.unwrap()@ != "clean"@ && arg.unwrap()@ != "update-check"@ ==> r is Err
            && r->Err_0 is Message && r->Err_0->Message_text@ == "unsupported `self` command: "@
            + arg.unwrap()@,
{
    proof {
        reveal_strlit("clean");
        reveal_strlit("update-check");
        assert("clean"@.len() != "update-check"@.len());
    }
    match arg {
        Some(a) => if same_text(a, "clean") {
            Ok(SelfCommand::Clean)
        } else if same_text(a, "update-check") {
            Ok(SelfCommand::UpdateCheck)
        } else {
            Err(
                DriverError::Message {
                    text: "unsupported `self` command: ".to_owned().concat(a),
                },
            )
        },
        None => Err(
            DriverError::Message {
                text: "`self` command must be followed by `clean` or `update-check`".to_owned(),
            },
        ),
    }
}

/// The error for a line of compiler output that matched no known event.
pub fn decode_failure(line: &str, reason: &str) -> (r: DriverError)
    ensures
        r is Decode,
        r->Decode_line@ == line@,
        r->Decode_reason@ == reason@,
{
    DriverError::Decode { line: line.to_owned(), reason: reason.to_owned() }
}

/// The arguments that build and install the binding generator `version`
/// from source under `root`.
pub fn bindgen_install_args(version: &str, root: &str) -> (r: Vec<String>)
    ensures
        texts(r@) == seq![
            "install"@,
            "wasm-bindgen-cli"@,
            "--version"@,
            "="@ + version@,
            "--root"@,
            root@,
            "--bin"@,
            "wasm-bindgen"@,
        ],
{
    let mut r: Vec<String> = Vec::new();
    r.push("install".to_owned());
    r.push("wasm-bindgen-cli".to_owned());
    r.push("--version".to_owned());
    r.push("=".to_owned().concat(version));
    r.push("--root".to_owned());
    r.push(root.to_owned());
    r.push("--bin".to_owned());
    r.push("wasm-bindgen".to_owned());
    assert(texts(r@) =~= seq![
        "install"@,
        "wasm-bindgen-cli"@,
        "--version"@,
        "="@ + version@,
        "--root"@,
        root@,
        "--bin"@,
        "wasm-bindgen"@,
    ]);
    r
}

} // verus!

use cargo_wasi::acquire::{
    bindgen_target, bindgen_url, entry_matches, fetch_needed, wasm_opt_target, wasm_opt_url,
    Acquire, AcquireAction, Phase, WASM_OPT_TAG,
};
use cargo_wasi::cache::Cache;
use cargo_wasi::cli::{
    asks_verbose, bindgen_install_args, cargo_args, decode_failure, needs_runtime,
    parse_invocation, parse_self_command, run_banner, runner_args, wasi_target_stamp_name,
    wasi_target_step, Invocation, SelfCommand, Subcommand,
};
use cargo_wasi::codec::{process_module, rename_for};
use cargo_wasi::config::Config;
use cargo_wasi::error::{
    check_success, exit_code_for, hide_normal_process_exit, normal_process_exit_code, with_context,
    DriverError,
};
use cargo_wasi::paths::{is_wasm, join, with_wasm_extension};
use cargo_wasi::text::{env_var_name, leading_words};
use cargo_wasi::tool_path::ToolPath;

fn strings(v: &[&str]) -> Vec<String> {
    v.iter().map(|s| s.to_string()).collect()
}

fn config_with(vars: &[(&str, &str)]) -> Config {
    let vars = vars.iter().map(|(k, v)| (k.to_string(), v.to_string())).collect();
    let mut config = Config::new(vars, String::new());
    config.use_cache(Cache::from_dirs(Some("/home/u/.cache"), None, "0.1.28").unwrap());
    config
}

fn process_failure(code: Option<i32>, stdout: &[u8], stderr: &[u8]) -> DriverError {
    check_success(
        "\"cargo\" \"build\"".to_string(),
        false,
        code,
        "exit status: 101".to_string(),
        stdout.to_vec(),
        stderr.to_vec(),
    )
    .unwrap_err()
}

// A module with one function whose name-section entry is `_ZN3foo3barE`.
fn module_with_mangled_name() -> Vec<u8> {
    let mut m = vec![0x00, 0x61, 0x73, 0x6d, 0x01, 0x00, 0x00, 0x00];
    m.extend_from_slice(&[0x01, 0x04, 0x01, 0x60, 0x00, 0x00]);
    m.extend_from_slice(&[0x03, 0x02, 0x01, 0x00]);
    m.extend_from_slice(&[0x0a, 0x04, 0x01, 0x02, 0x00, 0x0b]);
    let name = b"_ZN3foo3barE";
    let mut sub = vec![0x01, 0x00, name.len() as u8];
    sub.extend_from_slice(name);
    let mut custom = vec![0x04];
    custom.extend_from_slice(b"name");
    custom.push(0x01);
    custom.push(sub.len() as u8);
    custom.extend_from_slice(&sub);
    m.push(0x00);
    m.push(custom.len() as u8);
    m.extend_from_slice(&custom);
    m
}

fn contains(haystack: &[u8], needle: &[u8]) -> bool {
    haystack.windows(needle.len()).any(|w| w == needle)
}

#[test]
fn codec_demangles_function_names() {
    let out = process_module(&module_with_mangled_name(), true, true).ok().unwrap();
    assert!(contains(&out, b"foo::bar"));
    assert!(!contains(&out, b"_ZN3foo3barE"));
}

#[test]
fn codec_drops_sections_on_request() {
    let kept = process_module(&module_with_mangled_name(), true, true).ok().unwrap();
    assert!(contains(&kept, b"producers"));
    let stripped = process_module(&module_with_mangled_name(), false, false).ok().unwrap();
    assert!(!contains(&stripped, b"producers"));
    assert!(!contains(&stripped, b"foo::bar"));
}

#[test]
fn codec_rejects_garbage() {
    match process_module(b"not wasm", true, true) {
        Err(DriverError::Message { text }) => assert!(!text.is_empty()),
        _ => panic!("expected a codec error"),
    }
}

#[test]
fn rename_demangles_only_mangled_symbols() {
    assert_eq!(rename_for(&Some("_ZN3foo3barE".to_string())), Some("foo::bar".to_string()));
    assert_eq!(rename_for(&Some("main".to_string())), None);
    assert_eq!(rename_for(&None), None);
}

#[test]
fn silent_child_failure_is_hidden_when_not_verbose() {
    let mut config = config_with(&[]);
    let e = hide_normal_process_exit(process_failure(Some(101), b"", b""), &config);
    assert_eq!(normal_process_exit_code(&e), Some(101));
    config.set_verbose(true);
    let e = hide_normal_process_exit(process_failure(Some(101), b"", b""), &config);
    assert_eq!(normal_process_exit_code(&e), None);
    match e {
        DriverError::Process(p) => {
            assert_eq!(p.code, Some(101));
            assert!(!p.hidden);
        }
        _ => panic!("expected a process error"),
    }
}

#[test]
fn noisy_or_abnormal_failures_stay_visible() {
    let config = config_with(&[]);
    for e in [
        process_failure(Some(101), b"out", b""),
        process_failure(Some(1), b"", b"err"),
        process_failure(Some(128), b"", b""),
        process_failure(Some(-1), b"", b""),
        process_failure(None, b"", b""),
    ] {
        let e = hide_normal_process_exit(e, &config);
        assert_eq!(normal_process_exit_code(&e), None);
    }
    let wrapped = with_context(process_failure(Some(2), b"", b""), "while building".to_string());
    let e = hide_normal_process_exit(wrapped, &config);
    assert_eq!(normal_process_exit_code(&e), None);
    let e = hide_normal_process_exit(process_failure(Some(0), b"", b""), &config);
    assert_eq!(normal_process_exit_code(&e), Some(0));
}

#[test]
fn success_is_no_error() {
    assert!(check_success(String::new(), true, Some(0), String::new(), vec![], vec![]).is_ok());
}

#[test]
fn tool_paths_come_from_the_cache() {
    let config = config_with(&[("PATH", "/bin")]);
    let opt = config.get_wasm_opt();
    assert!(!opt.is_overridden());
    assert_eq!(opt.bin_path(), "/home/u/.cache/cargo-wasi/0.1.28/wasm-opt/wasm-opt");
    let (base, parts) = opt.cache_paths().unwrap();
    assert_eq!(base, "/home/u/.cache/cargo-wasi/0.1.28/wasm-opt");
    assert_eq!(parts, &strings(&["wasm-opt"]));
    let bindgen = config.get_wasm_bindgen("0.2.50");
    assert_eq!(
        bindgen.bin_path(),
        "/home/u/.cache/cargo-wasi/0.1.28/wasm-bindgen/0.2.50/wasm-bindgen"
    );
}

#[test]
fn executable_suffix_is_appended() {
    let mut config = Config::new(vec![], ".exe".to_string());
    config.use_cache(Cache::from_dirs(None, Some("C:/Users/u"), "0.1.28").unwrap());
    assert_eq!(
        config.get_wasm_opt().bin_path(),
        "C:/Users/u/.cargo-wasi/0.1.28/wasm-opt/wasm-opt.exe"
    );
}

#[test]
fn environment_overrides_tool_paths() {
    let config = config_with(&[("WASM_OPT", "/opt/bin/wasm-opt"), ("WASM_BINDGEN", "/x/wb")]);
    let opt = config.get_wasm_opt();
    assert!(opt.is_overridden());
    assert_eq!(opt.bin_path(), "/opt/bin/wasm-opt");
    assert!(opt.cache_paths().is_none());
    assert_eq!(config.get_wasm_bindgen("0.2.50").bin_path(), "/x/wb");
    assert_eq!(config.env_var("WASM_OPT").map(|s| s.as_str()), Some("/opt/bin/wasm-opt"));
    assert_eq!(config.env_var("wasm_opt"), None);
}

#[test]
fn cache_needs_some_directory() {
    let c = Cache::from_dirs(Some("/c/"), Some("/h"), "1.2.3").unwrap();
    assert_eq!(c.root(), "/c/cargo-wasi/1.2.3");
    let stamp = c.stamp("wasi-target-installedstable").unwrap();
    assert_eq!(stamp.path(), "/c/cargo-wasi/1.2.3/stamps/wasi-target-installedstable");
    assert!(matches!(c.stamp("a/b"), Err(DriverError::Message { .. })));
    assert!(matches!(c.stamp("a\\b"), Err(DriverError::Message { .. })));
    match Cache::from_dirs(None, None, "1.2.3") {
        Err(DriverError::Message { text }) => {
            assert_eq!(text, "failed to find home directory, is $HOME set?")
        }
        _ => panic!("expected an error"),
    }
}

#[test]
fn stamp_guards_only_successful_checks() {
    let c = Cache::from_dirs(Some("/nonexistent-cache-dir-for-tests"), None, "0").unwrap();
    let mut created = false;
    let r: Result<(), String> =
        c.stamp("a").unwrap().ensure_given(false, || Err("no".to_string()), |_| {
            panic!("a failed check must not create the stamp")
        });
    assert_eq!(r, Err("no".to_string()));
    let r: Result<(), String> = c.stamp("b").unwrap().ensure_given(false, || Ok(()), |_| {
        created = true;
        Ok(())
    });
    assert_eq!(r, Ok(()));
    assert!(created);
    let r: Result<(), String> = c.stamp("c").unwrap().ensure_given(true, || panic!("must not run"), |_| {
        panic!("must not create")
    });
    assert_eq!(r, Ok(()));
    assert!(!c.stamp("d").unwrap().is_present());
}

#[test]
fn missing_cached_tool_is_installed_then_retried_once() {
    let tool = ToolPath::Cached {
        bin_path: "/c/wasm-opt/wasm-opt".to_string(),
        base: "/c/wasm-opt".to_string(),
        sub_paths: strings(&["wasm-opt"]),
    };
    let mut a = Acquire::start(&tool);
    let missing = DriverError::NotFound { program: "/c/wasm-opt/wasm-opt".to_string() };
    assert!(matches!(a.on_run(Err(missing)), AcquireAction::Lock));
    assert!(matches!(a.on_locked(false), AcquireAction::Install));
    assert!(matches!(a.on_install(Ok(())), AcquireAction::Run));
    assert!(a.phase == Phase::Retry);
    let again = DriverError::NotFound { program: "/c/wasm-opt/wasm-opt".to_string() };
    assert!(matches!(a.on_run(Err(again)), AcquireAction::Finish(Err(DriverError::NotFound { .. }))));
    assert!(a.phase == Phase::Finished);
}

#[test]
fn overridden_tool_is_never_installed() {
    let tool = ToolPath::Overridden("/does/not/exist".to_string());
    let mut a = Acquire::start(&tool);
    let missing = DriverError::NotFound { program: "/does/not/exist".to_string() };
    match a.on_run(Err(missing)) {
        AcquireAction::Finish(Err(DriverError::NotFound { program })) => {
            assert_eq!(program, "/does/not/exist")
        }
        _ => panic!("expected the raw not-found error"),
    }
}

#[test]
fn other_failures_are_not_installs() {
    let tool = ToolPath::Cached { bin_path: "/c/t".to_string(), base: "/c".to_string(), sub_paths: vec![] };
    let mut a = Acquire::start(&tool);
    let failed = DriverError::Message { text: "boom".to_string() };
    assert!(matches!(a.on_run(Err(failed)), AcquireAction::Finish(Err(DriverError::Message { .. }))));
    let mut b = Acquire::start(&tool);
    let wrapped = with_context(
        DriverError::NotFound { program: "/c/t".to_string() },
        "failed to run".to_string(),
    );
    assert!(matches!(b.on_run(Err(wrapped)), AcquireAction::Lock));
    assert!(matches!(b.on_locked(false), AcquireAction::Install));
    assert!(matches!(b.on_install(Err(DriverError::ToolchainMissing)), AcquireAction::Finish(Err(_))));
    let mut c = Acquire::start(&tool);
    assert!(matches!(c.on_run(Ok(())), AcquireAction::Finish(Ok(()))));
}

#[test]
fn second_download_under_lock_is_skipped() {
    assert!(fetch_needed(false));
    assert!(!fetch_needed(true));
}

#[test]
fn download_locations() {
    assert_eq!(
        bindgen_url("0.2.50", "x86_64-unknown-linux-musl"),
        "https://github.com/rustwasm/wasm-bindgen/releases/download/0.2.50/wasm-bindgen-0.2.50-x86_64-unknown-linux-musl.tar.gz"
    );
    assert_eq!(
        wasm_opt_url(WASM_OPT_TAG, "x86_64-linux"),
        "https://github.com/WebAssembly/binaryen/releases/download/version_89/binaryen-version_89-x86_64-linux.tar.gz"
    );
    assert_eq!(bindgen_target("linux", "x86_64"), Some("x86_64-unknown-linux-musl"));
    assert_eq!(bindgen_target("macos", "x86_64"), Some("x86_64-apple-darwin"));
    assert_eq!(bindgen_target("windows", "x86_64"), Some("x86_64-pc-windows-msvc"));
    assert_eq!(bindgen_target("linux", "aarch64"), None);
    assert_eq!(wasm_opt_target("windows", "x86_64").ok(), Some("x86_64-windows"));
    assert!(matches!(wasm_opt_target("freebsd", "x86_64"), Err(DriverError::Message { .. })));
    assert!(entry_matches("binaryen-version_89/bin/wasm-opt", "wasm-opt"));
    assert!(entry_matches("wasm-opt", "wasm-opt"));
    assert!(!entry_matches("binaryen-version_89/bin/wasm-opt.js", "wasm-opt"));
    assert!(!entry_matches("bin/not-wasm-opt", "wasm-opt"));
    assert_eq!(
        bindgen_install_args("0.2.50", "/c/wasm-bindgen/0.2.50"),
        strings(&[
            "install",
            "wasm-bindgen-cli",
            "--version",
            "=0.2.50",
            "--root",
            "/c/wasm-bindgen/0.2.50",
            "--bin",
            "wasm-bindgen"
        ])
    );
}

#[test]
fn invocation_parsing() {
    assert!(parse_invocation(Some("build")) == Invocation::Sub(Subcommand::Build));
    assert!(parse_invocation(Some("fix")) == Invocation::Sub(Subcommand::Fix));
    assert!(parse_invocation(Some("-V")) == Invocation::Version);
    assert!(parse_invocation(Some("--version")) == Invocation::Version);
    assert!(parse_invocation(Some("frobnicate")) == Invocation::Help);
    assert!(parse_invocation(None) == Invocation::Help);
    assert!(parse_invocation(Some("self")) == Invocation::Maintenance);
    assert!(needs_runtime(Subcommand::Test));
    assert!(!needs_runtime(Subcommand::Check));
}

#[test]
fn compiler_arguments() {
    let args = cargo_args(Subcommand::Run, &strings(&["--release", "--", "a"]));
    assert_eq!(
        args,
        strings(&[
            "run",
            "--target",
            "wasm32-wasi",
            "--message-format",
            "json-render-diagnostics",
            "--release",
            "--",
            "a"
        ])
    );
    assert!(asks_verbose(&strings(&["--release", "-vv"])));
    assert!(asks_verbose(&strings(&["--verbose"])));
    assert!(!asks_verbose(&strings(&["--release", "-V", "--v"])));
}

#[test]
fn run_requests() {
    let run = strings(&["/t/foo.wasm", "a", "-b"]);
    assert_eq!(runner_args(&run), strings(&["--", "/t/foo.wasm", "a", "-b"]));
    assert_eq!(run_banner(&run), "`/t/foo.wasm a -b`");
    assert_eq!(run_banner(&vec![]), "``");
}

#[test]
fn wasi_target_installation() {
    assert_eq!(wasi_target_stamp_name(Some("stable-x86_64")), "wasi-target-installedstable-x86_64");
    assert_eq!(wasi_target_stamp_name(None), "wasi-target-installed");
    assert_eq!(wasi_target_step(true, false).ok(), Some(false));
    assert_eq!(wasi_target_step(false, true).ok(), Some(true));
    assert!(matches!(wasi_target_step(false, false), Err(DriverError::ToolchainMissing)));
}

#[test]
fn self_bad() {
    match parse_self_command(None) {
        Err(DriverError::Message { text }) => {
            assert_eq!(text, "`self` command must be followed by `clean` or `update-check`")
        }
        _ => panic!(),
    }
    match parse_self_command(Some("x")) {
        Err(DriverError::Message { text }) => assert_eq!(text, "unsupported `self` command: x"),
        _ => panic!(),
    }
    assert!(parse_self_command(Some("clean")).ok() == Some(SelfCommand::Clean));
    assert!(parse_self_command(Some("update-check")).ok() == Some(SelfCommand::UpdateCheck));
}

#[test]
fn decode_failures_keep_the_line() {
    match decode_failure("{bad json", "expected value") {
        DriverError::Decode { line, reason } => {
            assert_eq!(line, "{bad json");
            assert_eq!(reason, "expected value");
        }
        _ => panic!(),
    }
}

#[test]
fn text_and_path_helpers() {
    assert_eq!(env_var_name("wasm-bindgen"), "WASM_BINDGEN");
    assert_eq!(leading_words("\t a  b c"), (Some("a".to_string()), Some("b".to_string())));
    assert_eq!(leading_words("   "), (None, None));
    assert_eq!(leading_words("one"), (Some("one".to_string()), None));
    assert!(is_wasm("/a.b/foo.wasm"));
    assert!(!is_wasm("/a.wasm/foo"));
    assert!(!is_wasm("/t/.wasm"));
    assert_eq!(with_wasm_extension("/t/foo.wasm", "rustc.wasm"), "/t/foo.rustc.wasm");
    assert_eq!(join("/a/", "b"), "/a/b");
    assert_eq!(join("", "b"), "b");
    assert_eq!(join("/a", "b"), "/a/b");
}

#[test]
fn process_failure_report() {
    let e = check_success(
        "\"wasm-opt\" \"in.wasm\"".to_string(),
        false,
        Some(1),
        "exit status: 1".to_string(),
        b"line one\nline two".to_vec(),
        vec![0x66, 0xff, 0x0a, 0x67],
    )
    .unwrap_err();
    assert_eq!(
        e.message(),
        "failed to execute \"wasm-opt\" \"in.wasm\"\n    status: exit status: 1\n    stdout:\n        line one\n        line two\n    stderr:\n        f\u{fffd}\n        g"
    );
    let quiet = process_failure(Some(101), b"", b"");
    assert_eq!(
        quiet.message(),
        "failed to execute \"cargo\" \"build\"\n    status: exit status: 101"
    );
}

#[test]
fn error_layers() {
    let e = with_context(
        DriverError::NotFound { program: "wasm-opt".to_string() },
        "`wasm-opt` failed to execute".to_string(),
    );
    assert_eq!(e.message(), "`wasm-opt` failed to execute");
    let cause = e.cause().unwrap();
    assert_eq!(cause.message(), "program not found: wasm-opt");
    assert!(cause.cause().is_none());
    assert_eq!(decode_failure("x", "y").message(), "failed to parse x: y");
    let d = DriverError::Download { url: "https://e/x.tar.gz".to_string(), reason: "404".to_string() };
    assert_eq!(d.message(), "failed to download https://e/x.tar.gz: 404");
    let f = DriverError::Filesystem { path: "/t/a".to_string(), reason: "denied".to_string() };
    assert_eq!(f.message(), "failed to access `/t/a`: denied");
    assert!(DriverError::ToolchainMissing.message().starts_with("failed to find the `wasm32-wasi` target"));
}

#[test]
fn exit_status_follows_hidden_child() {
    let mut config = config_with(&[]);
    let hidden = hide_normal_process_exit(process_failure(Some(101), b"", b""), &config);
    assert_eq!(exit_code_for(&hidden), 101);
    config.set_verbose(true);
    let shown = hide_normal_process_exit(process_failure(Some(101), b"", b""), &config);
    assert_eq!(exit_code_for(&shown), 1);
    assert_eq!(exit_code_for(&DriverError::ToolchainMissing), 1);
}

#[test]
fn lock_files_live_in_the_cache_root() {
    let c = Cache::from_dirs(Some("/c"), None, "0.1.28").unwrap();
    assert_eq!(c.tool_lock_path("wasm-opt"), "/c/cargo-wasi/0.1.28/wasm-opt-lock");
    assert_eq!(c.download_lock_path(), "/c/cargo-wasi/0.1.28/downloading");
}

#[test]
fn report_lists_causes_indented() {
    let e = with_context(
        with_context(
            DriverError::Message { text: "a\nb".to_string() },
            "`wasm-opt` failed to execute".to_string(),
        ),
        "failed to process wasm at `/t/foo.rustc.wasm`".to_string(),
    );
    assert_eq!(
        e.report(),
        strings(&["failed to process wasm at `/t/foo.rustc.wasm`", "`wasm-opt` failed to execute", "a\n    b"])
    );
    assert_eq!(DriverError::Message { text: "x\ny".to_string() }.report(), strings(&["x\ny"]));
}

#[test]
fn tool_installed_by_another_process_is_not_installed_again() {
    let tool = ToolPath::Cached {
        bin_path: "/c/wasm-opt/wasm-opt".to_string(),
        base: "/c/wasm-opt".to_string(),
        sub_paths: strings(&["wasm-opt"]),
    };
    let mut a = Acquire::start(&tool);
    let missing = DriverError::NotFound { program: "/c/wasm-opt/wasm-opt".to_string() };
    assert!(matches!(a.on_run(Err(missing)), AcquireAction::Lock));
    assert!(matches!(a.on_locked(true), AcquireAction::Run));
    assert!(a.phase == Phase::Retry);
    assert!(matches!(a.on_run(Ok(())), AcquireAction::Finish(Ok(()))));
}

//! The error taxonomy of the driver, and the rule that hides a child
//! process's failure when the child has evidently reported it itself.
use vstd::prelude::*;
use crate::config::Config;

verus! {

/// A child process that exited unsuccessfully.
#[derive(Debug)]
pub struct ProcessError {
    /// How the command was invoked, for the message.
    pub cmd_desc: String,
    /// The exit code, when the process exited normally.
    pub code: Option<i32>,
    /// The exit status as the platform describes it.
    pub status_desc: String,
    /// What the process wrote to its standard output, if captured.
    pub stdout: Vec<u8>,
    /// What the process wrote to its standard error, if captured.
    pub stderr: Vec<u8>,
    /// Set when the failure should not be reported again at the top level.
    pub hidden: bool,
}

/// Everything that can go wrong while driving a build.
#[derive(Debug)]
pub enum DriverError {
    /// The WASI target is not installed and there is no way to install it.
    ToolchainMissing,
    /// A child process exited unsuccessfully.
    Process(ProcessError),
    /// A program could not be started because it does not exist.
    NotFound { program: String },
    /// A line of the compiler's output matched no known event.
    Decode { line: String, reason: String },
    /// A download failed: a bad status, or an archive without the expected entry.
    Download { url: String, reason: String },
    /// A file-system operation failed on `path`.
    Filesystem { path: String, reason: String },
    /// Any other failure, described in words.
    Message { text: String },
    /// `cause`, with a sentence that says what was being done.
    Context { context: String, cause: Box<DriverError> },
}

/// Whether an exit code is small and non-negative.
pub open spec fn is_normal_exit_code(code: i32) -> bool {
    0 <= code && code < 128
}

/// Whether a failed process reads as one that printed its own diagnosis: it
/// exited with a normal code and nothing of its output was captured.
pub open spec fn looks_self_reported(e: ProcessError) -> bool {
    &&& e.code.is_some()
    &&& is_normal_exit_code(e.code.unwrap())
    &&& e.stdout@.len() == 0
    &&& e.stderr@.len() == 0
}

/// The outcome of `hide_normal_process_exit`.
pub open spec fn hide_spec(e: DriverError, verbose: bool) -> DriverError {
    match e {
        DriverError::Process(p) => if !verbose && looks_self_reported(p) {
            DriverError::Process(ProcessError { hidden: true, ..p })
        } else {
            DriverError::Process(p)
        },
        other => other,
    }
}

/// Turns an exit status into a result: `Ok` iff `success`, else a
/// `ProcessError` carrying the status and the captured output.
pub fn check_success(
    cmd_desc: String,
    success: bool,
    code: Option<i32>,
    status_desc: String,
    stdout: Vec<u8>,
    stderr: Vec<u8>,
) -> (r: Result<(), DriverError>)
    ensures
        success ==> r is Ok,
        !success ==> r == Err::<(), DriverError>(
            DriverError::Process(ProcessError { cmd_desc, code, status_desc, stdout, stderr, hidden: false }),
        ),
{
    if success {
        return Ok(());
    }
    Err(DriverError::Process(ProcessError { cmd_desc, code, status_desc, stdout, stderr, hidden: false }))
}

/// Marks a process failure as hidden when the child looks as if it already
/// reported the problem itself; never in verbose mode, and never for any
/// other kind of error.
pub fn hide_normal_process_exit(error: DriverError, config: &Config) -> (r: DriverError)
    ensures
        r == hide_spec(error, config.verbose_spec()),
{
    if config.is_verbose() {
        return error;
    }
    match error {
        DriverError::Process(p) => {
            let hide = match p.code {
                Some(c) => 0 <= c && c < 128 && p.stdout.len() == 0 && p.stderr.len() == 0,
                None => false,
            };
            if hide {
                DriverError::Process(ProcessError { hidden: true, ..p })
            } else {
                DriverError::Process(p)
            }
        },
        other => other,
    }
}

/// The exit code to leave with, for an error that was hidden.
pub fn normal_process_exit_code(error: &DriverError) -> (r: Option<i32>)
    ensures
        r == (match *error {
            DriverError::Process(p) => if p.hidden {
                p.code
            } else {
                None
            },
            _ => None,
        }),
{
    match error {
        DriverError::Process(p) => {
            if !p.hidden {
                return None;
            }
            p.code
        },
        _ => None,
    }
}

/// The status the driver exits with after `error`: the child's own code
/// when the error was hidden, else 1.
pub fn exit_code_for(error: &DriverError) -> (r: i32)
    ensures
        r == (match *error {
            DriverError::Process(p) => if p.hidden && p.code.is_some() {
                p.code.unwrap()
            } else {
                1
            },
            _ => 1,
        }),
{
    match normal_process_exit_code(error) {
        Some(code) => code,
        None => 1,
    }
}

/// Wraps `cause` with a sentence that says what was being done.
pub fn with_context(cause: DriverError, context: String) -> (r: DriverError)
    ensures
        r == (DriverError::Context { context, cause: Box::new(cause) }),
{
    DriverError::Context { context, cause: Box::new(cause) }
}

/// The text of bytes read as UTF-8, with invalid sequences replaced.
pub uninterp spec fn lossy_text_of(b: Seq<u8>) -> Seq<char>;

/// Relies on `String::from_utf8_lossy`: the bytes as text, invalid sequences
/// replaced; no bytes give no text.
#[verifier::external_body]
fn lossy_text(b: &[u8]) -> (r: String)
    ensures
        r@ == lossy_text_of(b@),
        b@.len() == 0 ==> r@.len() == 0,
{
    String::from_utf8_lossy(b).into_owned()
}

/// `s` with `pad` inserted after every line break.
pub open spec fn indent_spec(s: Seq<char>, pad: Seq<char>) -> Seq<char>
    decreases s.len(),
{
    if s.len() == 0 {
        Seq::empty()
    } else if s.last() == '\n' {
        indent_spec(s.drop_last(), pad) + seq!['\n'] + pad
    } else {
        indent_spec(s.drop_last(), pad).push(s.last())
    }
}

/// `s` with `pad` inserted after every line break.
pub fn indent(s: &str, pad: &str) -> (r: String)
    ensures
        r@ == indent_spec(s@, pad@),
{
    let n = s.unicode_len();
    let mut r = String::new();
    let mut i: usize = 0;
    while i < n
        invariant
            n == s@.len(),
            i <= n,
            r@ == indent_spec(s@.subrange(0, i as int), pad@),
        decreases n - i,
    {
        let ghost prefix = s@.subrange(0, i + 1);
        assert(prefix.drop_last() == s@.subrange(0, i as int));
        r.append(s.substring_char(i, i + 1));
        if s.get_char(i) == '\n' {
            r.append(pad);
        }
        i = i + 1;
    }
    assert(s@.subrange(0, n as int) == s@);
    r
}

/// The report of a failed process: the command, its status, and whatever
/// it wrote, indented.
pub open spec fn process_message_spec(p: ProcessError) -> Seq<char> {
    let head = "failed to execute "@ + p.cmd_desc@ + "\n    status: "@ + p.status_desc@;
    let out = if p.stdout@.len() == 0 {
        Seq::empty()
    } else {
        "\n    stdout:\n        "@ + indent_spec(lossy_text_of(p.stdout@), "        "@)
    };
    let err = if p.stderr@.len() == 0 {
        Seq::empty()
    } else {
        "\n    stderr:\n        "@ + indent_spec(lossy_text_of(p.stderr@), "        "@)
    };
    head + out + err
}

/// The report of a failed process.
pub fn process_message(p: &ProcessError) -> (r: String)
    ensures
        r@ == process_message_spec(*p),
{
    let mut r = "failed to execute ".to_owned().concat(p.cmd_desc.as_str()).concat(
        "\n    status: ",
    ).concat(p.status_desc.as_str());
    let ghost head = r@;
    if p.stdout.len() > 0 {
        let text = lossy_text(p.stdout.as_slice());
        r.append("\n    stdout:\n        ");
        r.append(indent(text.as_str(), "        ").as_str());
    }
    let ghost with_out = r@;
    if p.stderr.len() > 0 {
        let text = lossy_text(p.stderr.as_slice());
        r.append("\n    stderr:\n        ");
        r.append(indent(text.as_str(), "        ").as_str());
    }
    proof {
        let out = if p.stdout@.len() == 0 {
            Seq::empty()
        } else {
            "\n    stdout:\n        "@ + indent_spec(lossy_text_of(p.stdout@), "        "@)
        };
        let err = if p.stderr@.len() == 0 {
            Seq::empty()
        } else {
            "\n    stderr:\n        "@ + indent_spec(lossy_text_of(p.stderr@), "        "@)
        };
        assert(with_out =~= head + out);
        assert(r@ =~= head + out + err);
    }
    r
}

/// The message of one layer of an error (a context names only itself).
pub open spec fn message_spec(e: DriverError) -> Seq<char> {
    match e {
        DriverError::ToolchainMissing => toolchain_missing_text(),
        DriverError::Process(p) => process_message_spec(p),
        DriverError::NotFound { program } => "program not found: "@ + program@,
        DriverError::Decode { line, reason } => "failed to parse "@ + line@ + ": "@ + reason@,
        DriverError::Download { url, reason } => "failed to download "@ + url@ + ": "@ + reason@,
        DriverError::Filesystem { path, reason } => "failed to access `"@ + path@ + "`: "@
            + reason@,
        DriverError::Message { text } => text@,
        DriverError::Context { context, .. } => context@,
    }
}

/// What is said when the WASI target is missing and cannot be installed.
pub open spec fn toolchain_missing_text() -> Seq<char> {
    "failed to find the `wasm32-wasi` target installed, and rustup is also not detected, you'll need to be sure to install the `wasm32-wasi` target before using this command"@
}

impl DriverError {
    /// The message of this layer of the error.
    pub fn message(&self) -> (r: String)
        ensures
            r@ == message_spec(*self),
    {
        match self {
            DriverError::ToolchainMissing => "failed to find the `wasm32-wasi` target installed, and rustup is also not detected, you'll need to be sure to install the `wasm32-wasi` target before using this command".to_owned(),
            DriverError::Process(p) => process_message(p),
            DriverError::NotFound { program } => "program not found: ".to_owned().concat(
                program.as_str(),
            ),
            DriverError::Decode { line, reason } => "failed to parse ".to_owned().concat(
                line.as_str(),
            ).concat(": ").concat(reason.as_str()),
            DriverError::Download { url, reason } => "failed to download ".to_owned().concat(
                url.as_str(),
            ).concat(": ").concat(reason.as_str()),
            DriverError::Filesystem { path, reason } => "failed to access `".to_owned().concat(
                path.as_str(),
            ).concat("`: ").concat(reason.as_str()),
            DriverError::Message { text } => text.clone(),
            DriverError::Context { context, .. } => context.clone(),
        }
    }

    /// The error below this layer, if any.
    pub fn cause(&self) -> (r: Option<&DriverError>)
        ensures
            r == (match self {
                DriverError::Context { cause, .. } => Some(&**cause),
                _ => None,
            }),
    {
        match self {
            DriverError::Context { cause, .. } => Some(&**cause),
            _ => None,
        }
    }
}

/// The messages of `e` and of every cause below it, outermost first.
pub open spec fn layers_spec(e: DriverError) -> Seq<Seq<char>>
    decreases e,
{
    match e {
        DriverError::Context { context, cause } => seq![context@] + layers_spec(*cause),
        _ => seq![message_spec(e)],
    }
}

/// The lines of a top-level report: the error's own message, then each cause
/// with its line breaks indented by four spaces.
pub open spec fn report_spec(e: DriverError) -> Seq<Seq<char>> {
    let ls = layers_spec(e);
    seq![ls[0]] + ls.drop_first().map_values(|m: Seq<char>| indent_spec(m, "    "@))
}

proof fn lemma_layers_nonempty(e: DriverError)
    ensures
        layers_spec(e).len() >= 1,
    decreases e,
{
    match e {
        DriverError::Context { cause, .. } => lemma_layers_nonempty(*cause),
        _ => {},
    }
}

/// Appends the indented messages of `e` and of the causes below it.
fn push_causes(e: &DriverError, out: &mut Vec<String>)
    ensures
        crate::text::texts(final(out)@) == crate::text::texts(old(out)@) + layers_spec(
            *e,
        ).map_values(|m: Seq<char>| indent_spec(m, "    "@)),
    decreases e,
{
    let ghost before = out@;
    out.push(indent(e.message().as_str(), "    "));
    let ghost mid = out@;
    assert(crate::text::texts(mid) =~= crate::text::texts(before).push(
        indent_spec(message_spec(*e), "    "@),
    ));
    match e {
        DriverError::Context { cause, .. } => {
            push_causes(cause, out);
            assert(layers_spec(*e) == seq![message_spec(*e)] + layers_spec(**cause));
            assert(layers_spec(*e).map_values(|m: Seq<char>| indent_spec(m, "    "@)) =~= seq![
                indent_spec(message_spec(*e), "    "@),
            ] + layers_spec(**cause).map_values(|m: Seq<char>| indent_spec(m, "    "@)));
            assert(crate::text::texts(out@) =~= crate::text::texts(before) + layers_spec(
                *e,
            ).map_values(|m: Seq<char>| indent_spec(m, "    "@)));
        },
        _ => {
            assert(layers_spec(*e).map_values(|m: Seq<char>| indent_spec(m, "    "@)) =~= seq![
                indent_spec(message_spec(*e), "    "@),
            ]);
            assert(crate::text::texts(out@) =~= crate::text::texts(before) + layers_spec(
                *e,
            ).map_values(|m: Seq<char>| indent_spec(m, "    "@)));
        },
    }
}

impl DriverError {
    /// The lines of the report of this error: its own message, then each
    /// cause, indented.
    pub fn report(&self) -> (r: Vec<String>)
        ensures
            crate::text::texts(r@) == report_spec(*self),
    {
        proof {
            lemma_layers_nonempty(*self);
        }
        let mut r: Vec<String> = Vec::new();
        r.push(self.message());
        let ghost first = crate::text::texts(r@);
        assert(first =~= seq![message_spec(*self)]);
        match self {
            DriverError::Context { cause, .. } => {
                push_causes(cause, &mut r);
                assert(layers_spec(*self) == seq![message_spec(*self)] + layers_spec(**cause));
                assert(layers_spec(*self).drop_first() =~= layers_spec(**cause));
            },
            _ => {
                assert(layers_spec(*self).drop_first() =~= Seq::<Seq<char>>::empty());
                assert(crate::text::texts(r@) =~= report_spec(*self));
            },
        }
        assert(crate::text::texts(r@) =~= report_spec(*self));
        r
    }
}

} // verus!

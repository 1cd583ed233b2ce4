//! One SSH attempt: the capture of its standard error, and what its end
//! means for the polling loop (done, retry, or give up).
use vstd::prelude::*;
use vstd::string::{StrSliceExecFns, StringExecFns, StringSliceAdditionalSpecFns};
use vstd::utf8::{decode_utf8, encode_scalar, encode_utf8, valid_utf8};

verus! {

/// At most this many bytes of SSH's standard error are kept, and at most this
/// many characters of it are shown.
pub const MAX_STDERR_BYTES: usize = 16384;

/// Shown in place of standard error that is not UTF-8.
pub const INVALID_UTF8_STDERR: &'static str = "SSH produced invalid UTF-8 on stderr";

/// Appended to standard error that was cut short.
pub const TRUNCATION_NOTE: &'static str = " [stderr truncated]";

/// An error and, where there is one, the lower-level error that caused it.
#[derive(Debug)]
pub struct ErrorReport {
    pub message: String,
    pub cause: Option<String>,
}

/// Why an attempt did not succeed: a transport failure worth retrying, or an
/// outcome that is unsafe to retry.
#[derive(Debug)]
pub enum AttemptError {
    Retry(ErrorReport),
    Fatal(ErrorReport),
}

impl AttemptError {
    pub open spec fn report_spec(&self) -> ErrorReport {
        match self {
            AttemptError::Retry(report) => *report,
            AttemptError::Fatal(report) => *report,
        }
    }

    /// The report, whichever kind of error this is.
    pub fn report(&self) -> (r: &ErrorReport)
        ensures
            *r == self.report_spec(),
    {
        match self {
            AttemptError::Retry(report) => report,
            AttemptError::Fatal(report) => report,
        }
    }

    /// The error's text, as it is displayed: its own message.
    pub fn to_string(&self) -> (r: String)
        ensures
            r@ == self.report_spec().message@,
    {
        self.report().message.clone()
    }
}

/// The ways an attempt can stop before SSH exits on its own.
#[derive(Debug)]
pub enum AttemptBreak {
    /// The SSH program could not be started.
    Spawn,
    /// Writing the passphrase to SSH's standard input failed.
    PassphraseWrite,
    /// Writing the newline after the passphrase failed.
    PassphraseEnd,
    /// SSH's standard error could not be captured.
    StderrPipe,
    /// Waiting for SSH, or reading its standard error, failed.
    Wait,
    /// The attempt ran out of time.
    TimedOut,
}

/// The message for an attempt that stopped early; `program` is the SSH
/// program's path and `timeout` the attempt's time limit, as displayed.
pub open spec fn break_message(how: AttemptBreak, program: Seq<char>, timeout: Seq<char>) -> Seq<
    char,
> {
    match how {
        AttemptBreak::Spawn => "failed to execute "@ + program,
        AttemptBreak::PassphraseWrite => "failed to send the LUKS passphrase to the remote command"@,
        AttemptBreak::PassphraseEnd => "failed to terminate LUKS passphrase input"@,
        AttemptBreak::StderrPipe => "SSH process did not provide a stderr pipe"@,
        AttemptBreak::Wait => "failed waiting for "@ + program,
        AttemptBreak::TimedOut => "SSH attempt exceeded "@ + timeout,
    }
}

fn owned(s: &str) -> (r: String)
    ensures
        r@ == s@,
{
    String::from_str(s)
}

/// How an attempt that stopped early ends: the error it reports, and
/// whether the SSH process (already started) must be killed and reaped.
#[derive(Debug)]
pub struct AttemptStop {
    pub error: AttemptError,
    pub terminate_child: bool,
}

/// Whether stopping this way leaves a running SSH process to kill: after a
/// failed passphrase write and after running out of time. (A process that
/// never started has nothing to kill; one whose standard error or exit could
/// not be read is killed when it is dropped.)
pub open spec fn stop_terminates(how: AttemptBreak) -> bool {
    match how {
        AttemptBreak::PassphraseWrite | AttemptBreak::PassphraseEnd | AttemptBreak::TimedOut => true,
        _ => false,
    }
}

/// How an attempt that stopped early ends: only a program that could not be
/// started is worth retrying. `cause` is the underlying error's text.
pub fn stop_attempt(how: AttemptBreak, program: &str, timeout: &str, cause: Option<String>) -> (r:
    AttemptStop)
    ensures
        (r.error is Retry) <==> (how is Spawn),
        r.error.report_spec().message@ == break_message(how, program@, timeout@),
        r.error.report_spec().cause == cause,
        r.terminate_child == stop_terminates(how),
{
    match how {
        AttemptBreak::Spawn => {
            let mut message = owned("failed to execute ");
            message.append(program);
            AttemptStop {
                error: AttemptError::Retry(ErrorReport { message, cause }),
                terminate_child: false,
            }
        },
        AttemptBreak::PassphraseWrite => AttemptStop {
            error: AttemptError::Fatal(
                ErrorReport {
                    message: owned("failed to send the LUKS passphrase to the remote command"),
                    cause,
                },
            ),
            terminate_child: true,
        },
        AttemptBreak::PassphraseEnd => AttemptStop {
            error: AttemptError::Fatal(
                ErrorReport { message: owned("failed to terminate LUKS passphrase input"), cause },
            ),
            terminate_child: true,
        },
        AttemptBreak::StderrPipe => AttemptStop {
            error: AttemptError::Fatal(
                ErrorReport { message: owned("SSH process did not provide a stderr pipe"), cause },
            ),
            terminate_child: false,
        },
        AttemptBreak::Wait => {
            let mut message = owned("failed waiting for ");
            message.append(program);
            AttemptStop {
                error: AttemptError::Fatal(ErrorReport { message, cause }),
                terminate_child: false,
            }
        },
        AttemptBreak::TimedOut => {
            let mut message = owned("SSH attempt exceeded ");
            message.append(timeout);
            AttemptStop {
                error: AttemptError::Fatal(ErrorReport { message, cause }),
                terminate_child: true,
            }
        },
    }
}

// ---------------------------------------------------------------------------
// Capturing standard error
// ---------------------------------------------------------------------------
/// What is kept of standard error after one more chunk is read: the chunk
/// is cut to the room that is left, and a chunk that does not fit marks the
/// capture as truncated.
pub open spec fn capture_step(kept: Seq<u8>, truncated: bool, chunk: Seq<u8>) -> (Seq<u8>, bool) {
    let room = MAX_STDERR_BYTES - kept.len();
    let keep = if room < chunk.len() {
        room
    } else {
        chunk.len() as int
    };
    (kept + chunk.take(keep), truncated || keep < chunk.len())
}

/// The capture after reading `chunks` in order, starting empty.
pub open spec fn capture_after(chunks: Seq<Seq<u8>>) -> (Seq<u8>, bool)
    decreases chunks.len(),
{
    if chunks.len() == 0 {
        (Seq::empty(), false)
    } else {
        let before = capture_after(chunks.drop_last());
        capture_step(before.0, before.1, chunks.last())
    }
}

/// All bytes of `chunks`, in order.
pub open spec fn all_bytes(chunks: Seq<Seq<u8>>) -> Seq<u8>
    decreases chunks.len(),
{
    if chunks.len() == 0 {
        Seq::empty()
    } else {
        all_bytes(chunks.drop_last()) + chunks.last()
    }
}

/// Standard error as it is read: at most `MAX_STDERR_BYTES` bytes are kept,
/// and whether more arrived is remembered.
pub struct StderrCapture {
    kept: Vec<u8>,
    truncated: bool,
}

impl StderrCapture {
    #[verifier::type_invariant]
    spec fn bounded(self) -> bool {
        self.kept@.len() <= MAX_STDERR_BYTES
    }

    /// The bytes kept so far.
    pub closed spec fn kept_spec(self) -> Seq<u8> {
        self.kept@
    }

    /// Whether bytes were dropped.
    pub closed spec fn truncated_spec(self) -> bool {
        self.truncated
    }

    /// A capture that has read nothing.
    pub fn new() -> (r: StderrCapture)
        ensures
            r.kept_spec() == Seq::<u8>::empty(),
            !r.truncated_spec(),
    {
        StderrCapture { kept: Vec::new(), truncated: false }
    }

    /// Records one chunk read from standard error.
    pub fn push(&mut self, chunk: &[u8])
        ensures
            (final(self).kept_spec(), final(self).truncated_spec()) == capture_step(
                old(self).kept_spec(),
                old(self).truncated_spec(),
                chunk@,
            ),
    {
        proof {
            use_type_invariant(&*self);
        }
        let room = MAX_STDERR_BYTES - self.kept.len();
        let keep = if room < chunk.len() {
            room
        } else {
            chunk.len()
        };
        let mut kept = Vec::new();
        std::mem::swap(&mut kept, &mut self.kept);
        let mut tail = vstd::slice::slice_to_vec(vstd::slice::slice_subrange(chunk, 0, keep));
        kept.append(&mut tail);
        let truncated = self.truncated || keep < chunk.len();
        *self = StderrCapture { kept, truncated };
    }

    /// The bytes kept, and whether bytes were dropped.
    pub fn into_parts(self) -> (r: (Vec<u8>, bool))
        ensures
            r.0@ == self.kept_spec(),
            r.1 == self.truncated_spec(),
            r.0@.len() <= MAX_STDERR_BYTES,
    {
        proof {
            use_type_invariant(&self);
        }
        (self.kept, self.truncated)
    }
}

/// However standard error arrives in chunks, the capture keeps exactly its
/// first `MAX_STDERR_BYTES` bytes (all of it when it is shorter), and is
/// marked truncated exactly when it is longer.
pub proof fn lemma_capture_keeps_prefix(chunks: Seq<Seq<u8>>)
    ensures
        capture_after(chunks).0 == all_bytes(chunks).take(
            if all_bytes(chunks).len() < MAX_STDERR_BYTES {
                all_bytes(chunks).len() as int
            } else {
                MAX_STDERR_BYTES as int
            },
        ),
        capture_after(chunks).1 <==> all_bytes(chunks).len() > MAX_STDERR_BYTES,
    decreases chunks.len(),
{
    if chunks.len() == 0 {
        assert(all_bytes(chunks).take(0) =~= Seq::<u8>::empty());
    } else {
        let rest = chunks.drop_last();
        lemma_capture_keeps_prefix(rest);
        let before = all_bytes(rest);
        let all = all_bytes(chunks);
        let chunk = chunks.last();
        assert(all == before + chunk);
        let m = MAX_STDERR_BYTES as int;
        if before.len() < m {
            assert(capture_after(rest).0 =~= before);
            let room = m - before.len();
            if room < chunk.len() {
                assert(before + chunk.take(room) =~= all.take(m));
            } else {
                assert(before + chunk.take(chunk.len() as int) =~= all.take(
                    all.len() as int,
                ));
                if all.len() == m {
                    assert(all.take(m) =~= all.take(all.len() as int));
                }
            }
        } else {
            assert(before.take(m) =~= all.take(m));
            assert(chunk.take(0) =~= Seq::<u8>::empty());
            assert(capture_after(rest).0 + chunk.take(0) =~= capture_after(rest).0);
        }
    }
}

// ---------------------------------------------------------------------------
// SSH's exit
// ---------------------------------------------------------------------------
/// The characters with Unicode's White_Space property, which `str::trim`
/// removes: U+0009 to U+000D, U+0020, U+0085, U+00A0, U+1680, U+2000 to
/// U+200A, U+2028, U+2029, U+202F, U+205F and U+3000.
pub open spec fn white_space(c: char) -> bool {
    let n = c as u32;
    ||| 0x9 <= n <= 0xd
    ||| n == 0x20
    ||| n == 0x85
    ||| n == 0xa0
    ||| n == 0x1680
    ||| 0x2000 <= n <= 0x200a
    ||| n == 0x2028
    ||| n == 0x2029
    ||| n == 0x202f
    ||| n == 0x205f
    ||| n == 0x3000
}

/// How many white-space characters the text starts with.
pub open spec fn leading_white_space(text: Seq<char>) -> nat
    decreases text.len(),
{
    if text.len() > 0 && white_space(text[0]) {
        1 + leading_white_space(text.drop_first())
    } else {
        0
    }
}

/// How many white-space characters the text ends with.
pub open spec fn trailing_white_space(text: Seq<char>) -> nat
    decreases text.len(),
{
    if text.len() > 0 && white_space(text.last()) {
        1 + trailing_white_space(text.drop_last())
    } else {
        0
    }
}

/// The text without its leading and trailing white space.
pub open spec fn trimmed(text: Seq<char>) -> Seq<char> {
    let rest = text.skip(leading_white_space(text) as int);
    rest.take(rest.len() - trailing_white_space(rest))
}

/// The text of `str::escape_debug`: the text with quotes, backslashes and
/// unprintable characters escaped as Rust's `Debug` formatting escapes them.
pub uninterp spec fn debug_escaped(text: Seq<char>) -> Seq<char>;

/// `std::str::from_utf8`: the text the bytes encode, when they are valid UTF-8.
#[verifier::external_body]
fn utf8_text(bytes: &[u8]) -> (r: Option<&str>)
    ensures
        r is Some <==> valid_utf8(bytes@),
        r matches Some(text) ==> text@ == decode_utf8(bytes@),
{
    std::str::from_utf8(bytes).ok()
}

/// Whether the character has Unicode's White_Space property.
fn is_white_space(c: char) -> (r: bool)
    ensures
        r == white_space(c),
{
    let n = c as u32;
    (0x9 <= n && n <= 0xd) || n == 0x20 || n == 0x85 || n == 0xa0 || n == 0x1680 || (0x2000 <= n
        && n <= 0x200a) || n == 0x2028 || n == 0x2029 || n == 0x202f || n == 0x205f || n == 0x3000
}

/// Text whose first `k` characters are white space, followed by one that is
/// not (or by nothing), starts with `k` white-space characters.
proof fn lemma_leading_white_space(text: Seq<char>, k: int)
    requires
        0 <= k <= text.len(),
        forall|i: int| 0 <= i < k ==> white_space(#[trigger] text[i]),
        k == text.len() || !white_space(text[k]),
    ensures
        leading_white_space(text) == k,
    decreases k,
{
    if k > 0 {
        let rest = text.drop_first();
        assert forall|i: int| 0 <= i < k - 1 implies white_space(#[trigger] rest[i]) by {
            assert(rest[i] == text[i + 1]);
        }
        if k - 1 < rest.len() {
            assert(rest[k - 1] == text[k]);
        }
        assert(white_space(text[0]));
        lemma_leading_white_space(rest, k - 1);
    }
}

/// Text whose characters from `k` on are white space, preceded by one that
/// is not (or by nothing), ends with `len - k` white-space characters.
proof fn lemma_trailing_white_space(text: Seq<char>, k: int)
    requires
        0 <= k <= text.len(),
        forall|i: int| k <= i < text.len() ==> white_space(#[trigger] text[i]),
        k == 0 || !white_space(text[k - 1]),
    ensures
        trailing_white_space(text) == text.len() - k,
    decreases text.len() - k,
{
    if text.len() > k {
        let rest = text.drop_last();
        assert forall|i: int| k <= i < rest.len() implies white_space(#[trigger] rest[i]) by {
            assert(rest[i] == text[i]);
        }
        if k > 0 {
            assert(rest[k - 1] == text[k - 1]);
        }
        assert(white_space(text[text.len() - 1]));
        lemma_trailing_white_space(rest, k);
    }
}

/// The text without leading and trailing white space, as `str::trim` gives
/// it.
fn trim(text: &str) -> (r: &str)
    ensures
        r@ == trimmed(text@),
{
    let len = text.unicode_len();
    let mut start: usize = 0;
    while start < len && is_white_space(text.get_char(start))
        invariant
            start <= len,
            len == text@.len(),
            forall|i: int| 0 <= i < start ==> white_space(#[trigger] text@[i]),
        decreases len - start,
    {
        start = start + 1;
    }
    let mut end: usize = len;
    while end > start && is_white_space(text.get_char(end - 1))
        invariant
            start <= end <= len,
            len == text@.len(),
            forall|i: int| end <= i < len ==> white_space(#[trigger] text@[i]),
        decreases end - start,
    {
        end = end - 1;
    }
    proof {
        lemma_leading_white_space(text@, start as int);
        let rest = text@.skip(start as int);
        assert forall|i: int| end - start <= i < rest.len() implies white_space(
            #[trigger] rest[i],
        ) by {
            assert(rest[i] == text@[start + i]);
        }
        if end > start {
            assert(rest[end - start - 1] == text@[end - 1]);
        }
        lemma_trailing_white_space(rest, end - start);
        assert(rest.take(end - start) =~= text@.subrange(start as int, end as int));
    }
    text.substring_char(start, end)
}

/// `str::escape_debug`, collected into a `String`.
#[verifier::external_body]
fn escape_debug(text: &str) -> (r: String)
    ensures
        r@ == debug_escaped(text@),
{
    text.escape_debug().to_string()
}

/// What is shown of standard error: its trimmed text, or a note when it is
/// not UTF-8.
pub open spec fn stderr_text(stderr: Seq<u8>) -> Seq<char> {
    if valid_utf8(stderr) {
        trimmed(decode_utf8(stderr))
    } else {
        INVALID_UTF8_STDERR@
    }
}

/// Standard error as the error message shows it: escaped, cut to
/// `MAX_STDERR_BYTES` characters, and marked when the capture was truncated
/// or the escaped text is longer than `MAX_STDERR_BYTES` bytes.
pub open spec fn rendered_stderr(stderr: Seq<u8>, capture_truncated: bool) -> Seq<char> {
    let escaped = debug_escaped(stderr_text(stderr));
    let shown = if escaped.len() > MAX_STDERR_BYTES {
        escaped.take(MAX_STDERR_BYTES as int)
    } else {
        escaped
    };
    if capture_truncated || encode_utf8(escaped).len() > MAX_STDERR_BYTES {
        shown + TRUNCATION_NOTE@
    } else {
        shown
    }
}

/// The message for SSH exiting unsuccessfully; `status` is the exit status as
/// displayed.
pub open spec fn exit_message(status: Seq<char>, rendered: Seq<char>) -> Seq<char> {
    if rendered.len() == 0 {
        "ssh exited with status "@ + status
    } else {
        "ssh exited with status "@ + status + ": "@ + rendered
    }
}

/// The exit code with which OpenSSH reports its own (transport) failures.
pub const SSH_TRANSPORT_FAILURE: i32 = 255;

proof fn lemma_encode_utf8_len(chars: Seq<char>)
    ensures
        chars.len() <= encode_utf8(chars).len() <= 4 * chars.len(),
    decreases chars.len(),
{
    if chars.len() > 0 {
        lemma_encode_utf8_len(chars.drop_first());
        let s = encode_scalar(chars[0] as u32);
        assert(1 <= s.len() <= 4);
    }
}

/// What SSH's exit means: success ends the attempt well; any other exit is
/// an error whose message shows the status and standard error, worth
/// retrying only when SSH itself failed (exit code 255).
pub fn exit_outcome(
    success: bool,
    code: Option<i32>,
    status: &str,
    stderr: &[u8],
    stderr_truncated: bool,
) -> (r: Result<(), AttemptError>)
    ensures
        success ==> r is Ok,
        !success ==> (r matches Err(e) && ((e is Retry) <==> code == Some(SSH_TRANSPORT_FAILURE))
            && e.report_spec().message@ == exit_message(
            status@,
            rendered_stderr(stderr@, stderr_truncated),
        ) && e.report_spec().cause is None),
{
    if success {
        return Ok(());
    }
    let text = match utf8_text(stderr) {
        Some(t) => trim(t),
        None => INVALID_UTF8_STDERR,
    };
    let escaped = escape_debug(text);
    let ghost e = escaped@;
    let chars = escaped.as_str().unicode_len();
    let rendered_truncated = if chars > MAX_STDERR_BYTES {
        proof {
            lemma_encode_utf8_len(e);
        }
        true
    } else {
        proof {
            lemma_encode_utf8_len(e);
        }
        escaped.as_str().len() > MAX_STDERR_BYTES
    };
    let shown_len = if chars > MAX_STDERR_BYTES {
        MAX_STDERR_BYTES
    } else {
        chars
    };
    let mut shown = escaped.as_str().substring_char(0, shown_len).to_owned();
    assert(e.take(e.len() as int) =~= e);
    if stderr_truncated || rendered_truncated {
        shown.append(TRUNCATION_NOTE);
    }
    let mut message = owned("ssh exited with status ");
    message.append(status);
    if shown.as_str().unicode_len() != 0 {
        message.append(": ");
        message.append(shown.as_str());
    }
    let report = ErrorReport { message, cause: None };
    match code {
        Some(c) => {
            if c == SSH_TRANSPORT_FAILURE {
                Err(AttemptError::Retry(report))
            } else {
                Err(AttemptError::Fatal(report))
            }
        },
        None => Err(AttemptError::Fatal(report)),
    }
}

/// The message of an unsuccessful exit shows at most `MAX_STDERR_BYTES`
/// characters of standard error, however much SSH wrote.
pub proof fn lemma_rendered_stderr_bounded(stderr: Seq<u8>, capture_truncated: bool)
    ensures
        rendered_stderr(stderr, capture_truncated).len() <= MAX_STDERR_BYTES
            + TRUNCATION_NOTE@.len(),
{
}

} // verus!

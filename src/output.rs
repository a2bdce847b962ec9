//! Turning what the tool printed into a result.
use vstd::prelude::*;

use crate::error::TailwindCliError;

verus! {

/// Whether a character has the Unicode `White_Space` property, which is what
/// `str::trim` strips.
pub uninterp spec fn white_space(c: char) -> bool;

/// The text that `String::from_utf8_lossy` decodes from `bytes`.
pub uninterp spec fn utf8_lossy(bytes: Seq<u8>) -> Seq<char>;

/// `s` without its leading white space.
pub open spec fn trim_start(s: Seq<char>) -> Seq<char>
    decreases s.len(),
{
    if s.len() > 0 && white_space(s[0]) {
        trim_start(s.drop_first())
    } else {
        s
    }
}

/// `s` without its trailing white space.
pub open spec fn trim_end(s: Seq<char>) -> Seq<char>
    decreases s.len(),
{
    if s.len() > 0 && white_space(s.last()) {
        trim_end(s.drop_last())
    } else {
        s
    }
}

/// `s` without leading or trailing white space.
pub open spec fn trimmed(s: Seq<char>) -> Seq<char> {
    trim_end(trim_start(s))
}

/// The text that a captured stream is reported as: decoded, with undecodable
/// bytes replaced, and trimmed.
pub open spec fn stream_text(bytes: Seq<u8>) -> Seq<char> {
    trimmed(utf8_lossy(bytes))
}

/// Relies on `String::from_utf8_lossy`: decodes UTF-8, replacing invalid
/// sequences; no bytes give no text.
#[verifier::external_body]
fn decode_lossy(bytes: &[u8]) -> (r: String)
    ensures
        r@ == utf8_lossy(bytes@),
        bytes@.len() == 0 ==> r@.len() == 0,
{
    String::from_utf8_lossy(bytes).into_owned()
}

/// Relies on `str::trim`: strips leading and trailing `White_Space`
/// characters and keeps the rest.
#[verifier::external_body]
fn trim_text(s: &str) -> (r: &str)
    ensures
        r@ == trimmed(s@),
        r@.len() > 0 ==> !white_space(r@[0]) && !white_space(r@.last()),
{
    s.trim()
}

/// What a successful run of the tool printed.
#[derive(Debug)]
pub struct TailwindCliOutput {
    stdout: String,
    stderr: String,
}

impl TailwindCliOutput {
    /// The standard output text.
    pub closed spec fn spec_stdout(&self) -> Seq<char> {
        self.stdout@
    }

    /// The standard error text.
    pub closed spec fn spec_stderr(&self) -> Seq<char> {
        self.stderr@
    }

    /// The output of a run that printed `stdout` and `stderr`.
    pub fn new(stdout: &[u8], stderr: &[u8]) -> (r: Self)
        ensures
            r.spec_stdout() == stream_text(stdout@),
            r.spec_stderr() == stream_text(stderr@),
    {
        let (stdout, stderr) = get_stdout_and_stderr_from_process_output(stdout, stderr);
        TailwindCliOutput { stdout, stderr }
    }

    /// What the tool wrote to standard output, trimmed.
    pub fn stdout(&self) -> (r: &str)
        ensures
            r@ == self.spec_stdout(),
    {
        self.stdout.as_str()
    }

    /// What the tool wrote to standard error, trimmed.
    pub fn stderr(&self) -> (r: &str)
        ensures
            r@ == self.spec_stderr(),
    {
        self.stderr.as_str()
    }
}

/// The text of both captured streams, each decoded and trimmed.
pub fn get_stdout_and_stderr_from_process_output(stdout: &[u8], stderr: &[u8]) -> (r: (
    String,
    String,
))
    ensures
        r.0@ == stream_text(stdout@),
        r.1@ == stream_text(stderr@),
{
    let out = decode_lossy(stdout);
    let out = String::from_str(trim_text(out.as_str()));
    let err = decode_lossy(stderr);
    let err = String::from_str(trim_text(err.as_str()));
    (out, err)
}

/// The outcome that `classify` gives for a run that exited with `success` and
/// printed `stdout` and `stderr`.
pub open spec fn classified(
    success: bool,
    stdout: Seq<u8>,
    stderr: Seq<u8>,
    r: Result<TailwindCliOutput, TailwindCliError>,
) -> bool {
    if success {
        r matches Ok(out) && out.spec_stdout() == stream_text(stdout) && out.spec_stderr()
            == stream_text(stderr)
    } else {
        r matches Err(TailwindCliError::TailwindCliReturnedAnError { stdout: o, stderr: e })
            && o@ == stream_text(stdout) && e@ == stream_text(stderr)
    }
}

/// Classifies a finished run of the tool: a zero exit status is success, any
/// other is the tool's own failure; both keep the trimmed text of the streams.
pub fn classify(success: bool, stdout: &[u8], stderr: &[u8]) -> (r: Result<
    TailwindCliOutput,
    TailwindCliError,
>)
    ensures
        classified(success, stdout@, stderr@, r),
{
    if success {
        Ok(TailwindCliOutput::new(stdout, stderr))
    } else {
        let (stdout, stderr) = get_stdout_and_stderr_from_process_output(stdout, stderr);
        Err(TailwindCliError::TailwindCliReturnedAnError { stdout, stderr })
    }
}

} // verus!

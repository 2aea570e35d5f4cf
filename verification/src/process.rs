//! The outcome of running an external process in the background.
//!
//! Questions to the assistant and custom commands both run a child process and
//! report the same shape of result: captured output plus a status that is either a
//! completed exit code, a cancellation, or a failure to start.

use vstd::prelude::*;
use vstd::string::*;
use vstd::utf8::*;

use crate::scroll_text::{greatest, least};
use crate::search::text_option;
use crate::text::{cat2, cat3, decimal, decimal_of, signed_decimal, signed_decimal_of};

verus! {

/// Most bytes kept of one output stream of a process.
pub const MAX_CAPTURED_OUTPUT_BYTES: usize = 1024 * 1024;

/// Most bytes that the notice about dropped output takes.
pub const TRUNCATED_OUTPUT_NOTICE_MAX_BYTES: usize = 128;

/// The text that `String::from_utf8_lossy` makes of some bytes.
pub uninterp spec fn lossy_text(bytes: Seq<u8>) -> Seq<char>;

/// `String::from_utf8_lossy`: the text of the bytes, with replacement characters
/// for what is not valid UTF-8. It depends on the bytes alone; valid UTF-8 is
/// decoded as it is.
#[verifier::external_body]
pub(crate) fn text_from_utf8_lossy(bytes: &[u8]) -> (text: String)
    ensures
        text@ == lossy_text(bytes@),
        valid_utf8(bytes@) ==> text@ == decode_utf8(bytes@),
{
    String::from_utf8_lossy(bytes).to_string()
}

/// How much of an output stream has been kept, and whether any was dropped.
#[derive(Debug, Clone, Copy, PartialEq, Eq, Structural)]
pub struct CaptureBudget {
    pub captured_len: usize,
    pub truncated: bool,
}

/// What becomes of a chunk that was read from a stream.
#[derive(Debug, Clone, Copy, PartialEq, Eq, Structural)]
pub struct ChunkDecision {
    /// Bytes to keep from the start of the chunk.
    pub keep: usize,
    /// Whether this chunk is the first of which something is dropped.
    pub first_truncated: bool,
}

impl CaptureBudget {
    pub open spec fn remaining(self) -> int {
        greatest(MAX_CAPTURED_OUTPUT_BYTES - self.captured_len, 0)
    }

    /// The budget behind a chunk of `read` bytes.
    pub open spec fn after(self, read: int) -> CaptureBudget {
        CaptureBudget {
            captured_len: (self.captured_len + least(read, self.remaining())) as usize,
            truncated: self.truncated || read > self.remaining(),
        }
    }

    pub fn new() -> (budget: Self)
        ensures
            budget == (CaptureBudget { captured_len: 0, truncated: false }),
    {
        CaptureBudget { captured_len: 0, truncated: false }
    }

    /// Takes a chunk of `read` bytes into account.
    pub fn take_chunk(&mut self, read: usize) -> (decision: ChunkDecision)
        ensures
            *final(self) == old(self).after(read as int),
            decision.keep == least(read as int, old(self).remaining()),
            decision.first_truncated == (final(self).truncated && !old(self).truncated),
    {
        let remaining: usize = MAX_CAPTURED_OUTPUT_BYTES.saturating_sub(self.captured_len);
        let keep: usize = if read < remaining { read } else { remaining };
        self.captured_len = self.captured_len + keep;
        let first_truncated = read > remaining && !self.truncated;
        if first_truncated {
            self.truncated = true;
        }
        ChunkDecision { keep, first_truncated }
    }
}

/// Bytes in the first `n` chunks.
pub open spec fn total_read(reads: Seq<nat>, n: int) -> nat
    decreases n,
{
    if n <= 0 { 0 } else { total_read(reads, n - 1) + reads[n - 1] }
}

/// The budget behind the first `n` chunks.
pub open spec fn budget_after(reads: Seq<nat>, n: int) -> CaptureBudget
    decreases n,
{
    if n <= 0 {
        CaptureBudget { captured_len: 0, truncated: false }
    } else {
        budget_after(reads, n - 1).after(reads[n - 1] as int)
    }
}

/// Whatever the sizes of the chunks, a stream is kept up to the limit and no
/// further, and marked as truncated exactly if it is longer.
pub proof fn capture_keeps_a_bounded_prefix(reads: Seq<nat>, n: int)
    requires
        0 <= n <= reads.len(),
    ensures
        budget_after(reads, n).captured_len == least(
            total_read(reads, n) as int,
            MAX_CAPTURED_OUTPUT_BYTES as int,
        ),
        budget_after(reads, n).truncated == (total_read(reads, n) > MAX_CAPTURED_OUTPUT_BYTES),
    decreases n,
{
    if n > 0 {
        capture_keeps_a_bounded_prefix(reads, n - 1);
    }
}

/// Bytes kept of one output stream.
#[derive(Debug, PartialEq, Eq)]
pub struct CapturedStream {
    pub bytes: Vec<u8>,
    pub truncated: bool,
}

/// The notice about dropped output.
pub open spec fn truncation_notice() -> Seq<char> {
    "\n[chunk: output truncated after "@ + decimal(1024 * 1024) + " bytes]\n"@
}

pub fn truncated_output_notice() -> (notice: Vec<u8>)
    ensures
        notice@ == encode_utf8(truncation_notice()),
{
    let text = cat3(
        "\n[chunk: output truncated after ",
        decimal_of(MAX_CAPTURED_OUTPUT_BYTES as u64).as_str(),
        " bytes]\n",
    );
    text.as_str().as_bytes_vec()
}

/// The notice is short.
pub proof fn truncation_notice_is_short()
    ensures
        encode_utf8(truncation_notice()).len() <= TRUNCATED_OUTPUT_NOTICE_MAX_BYTES,
{
    reveal_strlit("\n[chunk: output truncated after ");
    reveal_strlit(" bytes]\n");
    reveal_with_fuel(decimal, 8);
    let notice = truncation_notice();
    assert(decimal(1048576).len() == 7);
    assert(notice.len() <= 128);
    assert(is_ascii_chars(notice));
    is_ascii_chars_encode_utf8(notice);
}

impl CapturedStream {
    pub fn new() -> (stream: Self)
        ensures
            stream.bytes@ == Seq::<u8>::empty(),
            !stream.truncated,
    {
        CapturedStream { bytes: Vec::new(), truncated: false }
    }

    pub fn push_chunk(&mut self, chunk: &[u8])
        ensures
            final(self).bytes@ == old(self).bytes@ + chunk@,
            final(self).truncated == old(self).truncated,
    {
        let mut i: usize = 0;
        let ghost before = self.bytes@;
        assert(before + chunk@.take(0) =~= before);
        while i < chunk.len()
            invariant
                i <= chunk@.len(),
                self.bytes@ == before + chunk@.take(i as int),
                self.truncated == old(self).truncated,
            decreases chunk@.len() - i,
        {
            self.bytes.push(chunk[i]);
            i = i + 1;
            assert(self.bytes@ =~= before + chunk@.take(i as int));
        }
        assert(chunk@.take(chunk@.len() as int) =~= chunk@);
    }

    pub fn mark_truncated(&mut self)
        ensures
            final(self).bytes@ == old(self).bytes@,
            final(self).truncated,
    {
        self.truncated = true;
    }

    /// The kept bytes, with a notice behind them where some were dropped.
    pub fn into_bytes(self) -> (bytes: Vec<u8>)
        ensures
            bytes@ == if self.truncated {
                self.bytes@ + encode_utf8(truncation_notice())
            } else {
                self.bytes@
            },
            self.bytes@.len() <= MAX_CAPTURED_OUTPUT_BYTES ==> bytes@.len()
                <= MAX_CAPTURED_OUTPUT_BYTES + TRUNCATED_OUTPUT_NOTICE_MAX_BYTES,
    {
        proof {
            truncation_notice_is_short();
        }
        let mut stream = self;
        if stream.truncated {
            let notice = truncated_output_notice();
            stream.push_chunk(notice.as_slice());
        }
        stream.bytes
    }
}

/// What a finished process left behind.
#[derive(Debug, PartialEq, Eq)]
pub struct ProcessOutput {
    pub stdout: Vec<u8>,
    pub stderr: Vec<u8>,
    pub success: bool,
    /// Exit code, unless a signal ended the process.
    pub code: Option<i32>,
}

/// Captured output and completion status of one external process run.
#[derive(Debug, PartialEq, Eq)]
pub struct ProcessOutcome {
    pub stdout: String,
    pub stderr: String,
    pub status: ProcessStatus,
}

#[derive(Debug, PartialEq, Eq)]
pub struct ProcessStatus {
    pub success: bool,
    pub code: Option<i32>,
    pub cancelled: bool,
    pub start_error: Option<String>,
}

/// What a [`ProcessOutcome`] holds.
pub struct OutcomeView {
    pub stdout: Seq<char>,
    pub stderr: Seq<char>,
    pub success: bool,
    pub code: Option<i32>,
    pub cancelled: bool,
    pub start_error: Option<Seq<char>>,
}

impl View for ProcessOutcome {
    type V = OutcomeView;

    open spec fn view(&self) -> OutcomeView {
        OutcomeView {
            stdout: self.stdout@,
            stderr: self.stderr@,
            success: self.status.success,
            code: self.status.code,
            cancelled: self.status.cancelled,
            start_error: text_option(self.status.start_error),
        }
    }
}

impl OutcomeView {
    /// One-line description of how the process ended.
    pub open spec fn ending(self) -> Seq<char> {
        if self.cancelled {
            "cancelled"@
        } else if let Some(error) = self.start_error {
            "failed to start: "@ + error
        } else if let Some(code) = self.code {
            "exit "@ + signed_decimal(code as int)
        } else {
            "terminated by signal"@
        }
    }
}

impl Clone for ProcessOutcome {
    fn clone(&self) -> (copy: Self)
        ensures
            copy@ == self@,
    {
        ProcessOutcome {
            stdout: self.stdout.clone(),
            stderr: self.stderr.clone(),
            status: ProcessStatus {
                success: self.status.success,
                code: self.status.code,
                cancelled: self.status.cancelled,
                start_error: match &self.status.start_error {
                    Some(error) => Some(error.clone()),
                    None => None,
                },
            },
        }
    }
}

impl ProcessOutcome {
    /// A process that ran to completion, successful or not.
    pub fn from_output(output: ProcessOutput) -> (outcome: Self)
        ensures
            outcome@ == (OutcomeView {
                stdout: lossy_text(output.stdout@),
                stderr: lossy_text(output.stderr@),
                success: output.success,
                code: output.code,
                cancelled: false,
                start_error: None,
            }),
    {
        ProcessOutcome {
            stdout: text_from_utf8_lossy(output.stdout.as_slice()),
            stderr: text_from_utf8_lossy(output.stderr.as_slice()),
            status: ProcessStatus {
                success: output.success,
                code: output.code,
                cancelled: false,
                start_error: None,
            },
        }
    }

    /// A successful synthetic result for work that intentionally did not spawn.
    pub fn successful_stdout(stdout: String) -> (outcome: Self)
        ensures
            outcome@ == (OutcomeView {
                stdout: stdout@,
                stderr: seq![],
                success: true,
                code: Some(0i32),
                cancelled: false,
                start_error: None,
            }),
    {
        let outcome = ProcessOutcome {
            stdout,
            stderr: String::new(),
            status: ProcessStatus {
                success: true,
                code: Some(0),
                cancelled: false,
                start_error: None,
            },
        };
        assert(outcome@.stderr =~= seq![]);
        outcome
    }

    /// A process killed on the caller's request, keeping whatever partial output
    /// it had produced.
    pub fn cancelled(output: Option<ProcessOutput>) -> (outcome: Self)
        ensures
            outcome@ == (OutcomeView {
                stdout: match output {
                    Some(out) => lossy_text(out.stdout@),
                    None => seq![],
                },
                stderr: match output {
                    Some(out) => lossy_text(out.stderr@),
                    None => seq![],
                },
                success: false,
                code: match output {
                    Some(out) => out.code,
                    None => None,
                },
                cancelled: true,
                start_error: None,
            }),
    {
        let (stdout, stderr, code) = match &output {
            Some(out) => (
                text_from_utf8_lossy(out.stdout.as_slice()),
                text_from_utf8_lossy(out.stderr.as_slice()),
                out.code,
            ),
            None => (String::new(), String::new(), None),
        };
        let outcome = ProcessOutcome {
            stdout,
            stderr,
            status: ProcessStatus { success: false, code, cancelled: true, start_error: None },
        };
        assert(output is None ==> outcome@.stdout =~= seq![] && outcome@.stderr =~= seq![]);
        outcome
    }

    /// A process that never started; the error is surfaced as stderr.
    pub fn not_started(error: String) -> (outcome: Self)
        ensures
            outcome@ == (OutcomeView {
                stdout: seq![],
                stderr: error@,
                success: false,
                code: None,
                cancelled: false,
                start_error: Some(error@),
            }),
    {
        let outcome = ProcessOutcome {
            stdout: String::new(),
            stderr: error.clone(),
            status: ProcessStatus {
                success: false,
                code: None,
                cancelled: false,
                start_error: Some(error),
            },
        };
        assert(outcome@.stdout =~= seq![]);
        outcome
    }

    pub fn stdout(&self) -> (text: &str)
        ensures
            text@ == self@.stdout,
    {
        self.stdout.as_str()
    }

    pub fn stderr(&self) -> (text: &str)
        ensures
            text@ == self@.stderr,
    {
        self.stderr.as_str()
    }

    pub fn success(&self) -> (success: bool)
        ensures
            success == self@.success,
    {
        self.status.success
    }

    pub fn cancelled_status(&self) -> (cancelled: bool)
        ensures
            cancelled == self@.cancelled,
    {
        self.status.cancelled
    }

    /// One-line, human-readable description of how the process ended.
    pub fn status_text(&self) -> (text: String)
        ensures
            text@ == self@.ending(),
    {
        if self.status.cancelled {
            return "cancelled".to_owned();
        }
        if let Some(error) = &self.status.start_error {
            return cat2("failed to start: ", error.as_str());
        }
        match self.status.code {
            Some(code) => cat2("exit ", signed_decimal_of(code).as_str()),
            None => "terminated by signal".to_owned(),
        }
    }
}

} // verus!

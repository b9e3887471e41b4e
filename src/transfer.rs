//! The body transfer: the range request, the length shown, how the target
//! file is opened, and the byte accounting of the streaming loop.
use vstd::prelude::*;

use crate::error::DownloadResult;
use crate::probe::DownloadTarget;

verus! {

/// How the target file is opened.
#[derive(Clone, Copy, Debug, PartialEq, Eq)]
pub enum OpenMode {
    /// Create the file, truncating what it held.
    Create,
    /// Open the existing file and write after its end.
    Append,
}

pub open spec fn mode_spec(offset: u64) -> OpenMode {
    if offset == 0 {
        OpenMode::Create
    } else {
        OpenMode::Append
    }
}

/// The length of the file after `written` bytes are written to it when it
/// is opened in `mode` and held `prior` bytes before.
pub open spec fn file_len_after(mode: OpenMode, prior: nat, written: nat) -> nat {
    match mode {
        OpenMode::Create => written,
        OpenMode::Append => prior + written,
    }
}

pub open spec fn digit_char(d: nat) -> char {
    ((d + 48) as u8) as char
}

/// The decimal digits of `n`, most significant first, without leading zeros.
pub open spec fn decimal(n: nat) -> Seq<char>
    decreases n,
{
    if n < 10 {
        seq![digit_char(n)]
    } else {
        decimal(n / 10).push(digit_char(n % 10))
    }
}

/// The value of the `Range` header that asks for everything from `offset` on.
pub open spec fn range_value(offset: u64) -> Seq<char> {
    "bytes="@ + decimal(offset as nat) + "-"@
}

/// The total shown for a transfer: the probe's total where the transfer
/// resumes (the response then only counts what remains), else the length of
/// the response itself (zero where it is not advertised).
pub open spec fn display_total_spec(offset: u64, probe_total: u64, remaining: Option<u64>) -> u64 {
    if offset > 0 {
        probe_total
    } else {
        match remaining {
            Some(n) => n,
            None => 0,
        }
    }
}

/// `a + b`, held at `u64::MAX`.
pub open spec fn sat_add(a: u64, b: u64) -> u64 {
    if a + b > u64::MAX {
        u64::MAX
    } else {
        (a + b) as u64
    }
}

/// The sum of a run of chunk sizes.
pub open spec fn total_of(chunks: Seq<u64>) -> nat
    decreases chunks.len(),
{
    if chunks.len() == 0 {
        0
    } else {
        total_of(chunks.drop_last()) + chunks.last() as nat
    }
}

/// A counter after each of `chunks` was added to it.
pub open spec fn count_after(start: u64, chunks: Seq<u64>) -> u64
    decreases chunks.len(),
{
    if chunks.len() == 0 {
        start
    } else {
        sat_add(count_after(start, chunks.drop_last()), chunks.last())
    }
}

/// Relies on `u64`'s `Display`, which writes the decimal digits of the value.
#[verifier::external_body]
fn decimal_string(n: u64) -> (r: String)
    ensures
        r@ == decimal(n as nat),
{
    n.to_string()
}

/// How the target file is opened for a transfer from `offset`.
pub fn open_mode(offset: u64) -> (r: OpenMode)
    ensures
        r == mode_spec(offset),
{
    if offset == 0 {
        OpenMode::Create
    } else {
        OpenMode::Append
    }
}

/// The `Range` header of the transfer request: none for a transfer from the
/// first byte, else `bytes=<offset>-`.
pub fn range_header(offset: u64) -> (r: Option<String>)
    ensures
        offset == 0 <==> r is None,
        r matches Some(h) ==> h@ == range_value(offset),
{
    if offset == 0 {
        None
    } else {
        let digits = decimal_string(offset);
        let mut h = String::from_str("bytes=");
        h.append(digits.as_str());
        h.append("-");
        Some(h)
    }
}

/// The total length shown for a transfer.
pub fn display_total(offset: u64, probe_total: u64, remaining: Option<u64>) -> (r: u64)
    ensures
        r == display_total_spec(offset, probe_total, remaining),
{
    if offset > 0 {
        probe_total
    } else {
        match remaining {
            Some(n) => n,
            None => 0,
        }
    }
}

/// What a progress indicator shows of one transfer.
#[derive(Clone, Copy, Debug, PartialEq, Eq)]
pub struct ProgressState {
    pub transferred: u64,
    pub total: u64,
    /// Whether rate and ETA are measured from this session's start rather
    /// than from byte zero.
    pub eta_reset: bool,
}

impl ProgressState {
    /// Progress of a transfer from `offset`: the bytes already held count as
    /// transferred, and the ETA is reset where there are any.
    pub fn start(total: u64, offset: u64) -> (r: ProgressState)
        ensures
            r.transferred == offset,
            r.total == total,
            r.eta_reset == (offset > 0),
    {
        ProgressState { transferred: offset, total, eta_reset: offset > 0 }
    }

    /// Counts `count` more bytes.
    pub fn advance(&mut self, count: u64)
        ensures
            final(self).transferred == sat_add(old(self).transferred, count),
            final(self).total == old(self).total,
            final(self).eta_reset == old(self).eta_reset,
    {
        self.transferred = self.transferred.saturating_add(count);
    }
}

/// One body transfer in progress, owned by the worker that streams it.
pub struct Transfer {
    pub filename: String,
    pub mode: OpenMode,
    pub progress: ProgressState,
    /// Bytes handed to the file in this session.
    pub written: u64,
}

impl Transfer {
    /// Starts the transfer of `target` into `filename`, the name resolved
    /// from the transfer response, whose length is `remaining`.
    pub fn begin(target: &DownloadTarget, filename: String, remaining: Option<u64>) -> (r: Transfer)
        ensures
            r.filename == filename,
            r.mode == mode_spec(target.resume_offset),
            r.progress.transferred == target.resume_offset,
            r.progress.total == display_total_spec(
                target.resume_offset,
                target.total_length,
                remaining,
            ),
            r.progress.eta_reset == (target.resume_offset > 0),
            r.written == 0,
    {
        let total = display_total(target.resume_offset, target.total_length, remaining);
        Transfer {
            filename,
            mode: open_mode(target.resume_offset),
            progress: ProgressState::start(total, target.resume_offset),
            written: 0,
        }
    }

    /// Accounts for a read of `count` bytes from the body. A read of zero
    /// bytes ends the stream: the result is then `false` and nothing changes.
    /// Otherwise the result is `true`, and the caller writes those bytes.
    pub fn on_chunk(&mut self, count: u64) -> (r: bool)
        ensures
            r == (count > 0),
            final(self).filename == old(self).filename,
            final(self).mode == old(self).mode,
            final(self).progress.total == old(self).progress.total,
            final(self).progress.eta_reset == old(self).progress.eta_reset,
            final(self).progress.transferred == sat_add(old(self).progress.transferred, count),
            final(self).written == sat_add(old(self).written, count),
    {
        if count == 0 {
            return false;
        }
        self.progress.advance(count);
        self.written = self.written.saturating_add(count);
        true
    }

    /// The outcome of a transfer whose stream has ended and whose file was
    /// flushed.
    pub fn finish(self) -> (r: DownloadResult)
        ensures
            r.filename == self.filename,
    {
        DownloadResult { filename: self.filename }
    }
}

} // verus!

//! What a whole download amounts to: the resume decision, the open mode and
//! the byte accounting of the transfer, taken together.
use vstd::prelude::*;

use crate::probe::{plan_spec, plan_target, ResumePlan};
use crate::transfer::{
    count_after, display_total_spec, file_len_after, mode_spec, total_of, OpenMode,
};

verus! {

/// A counter fed with chunks that do not take it past `u64::MAX` ends at its
/// start plus their sum.
pub proof fn lemma_count_after_exact(start: u64, chunks: Seq<u64>)
    requires
        start + total_of(chunks) <= u64::MAX,
    ensures
        count_after(start, chunks) == start + total_of(chunks),
    decreases chunks.len(),
{
    if chunks.len() > 0 {
        lemma_count_after_exact(start, chunks.drop_last());
    }
}

/// A download with no local file, whatever the policy and the server, starts
/// from the first byte and creates its file; once the body's chunks are
/// written, the file holds exactly as many bytes as the body.
pub proof fn fresh_download_has_body_length(
    resume_enabled: bool,
    accepts_ranges: bool,
    content_length: Option<u64>,
    prior: nat,
    chunks: Seq<u64>,
)
    requires
        total_of(chunks) <= u64::MAX,
    ensures
        plan_spec(resume_enabled, accepts_ranges, content_length, None) == ResumePlan::Fresh,
        plan_target(ResumePlan::Fresh).resume_offset == 0,
        mode_spec(0) == OpenMode::Create,
        count_after(0, chunks) == total_of(chunks),
        file_len_after(mode_spec(0), prior, count_after(0, chunks) as nat) == total_of(chunks),
{
    lemma_count_after_exact(0, chunks);
}

/// A local file of `k` bytes, shorter than the `l` bytes a range-capable
/// server advertises, is continued: the transfer asks for what follows `k`,
/// appends, shows `l` as the total and starts its progress at `k`. Once the
/// `l - k` remaining bytes are written, progress and file both stand at `l`.
pub proof fn partial_download_resumes_to_full_length(
    k: u64,
    l: u64,
    remaining: Option<u64>,
    chunks: Seq<u64>,
)
    requires
        0 < k < l,
        total_of(chunks) == l - k,
    ensures
        plan_spec(true, true, Some(l), Some(k)) == (ResumePlan::Resume { offset: k, total: l }),
        plan_target(plan_spec(true, true, Some(l), Some(k))).resume_offset == k,
        mode_spec(k) == OpenMode::Append,
        display_total_spec(k, l, remaining) == l,
        count_after(k, chunks) == l,
        file_len_after(mode_spec(k), k as nat, count_after(0, chunks) as nat) == l,
{
    lemma_count_after_exact(k, chunks);
    lemma_count_after_exact(0, chunks);
}

/// A local file exactly as long as the advertised resource is complete: no
/// transfer follows.
pub proof fn complete_file_skips_transfer(l: u64)
    ensures
        plan_spec(true, true, Some(l), Some(l)) == ResumePlan::Complete,
{
}

/// Without range support a download never resumes, whatever the local file:
/// it starts from the first byte and truncates, so the file ends up holding
/// exactly the body.
pub proof fn no_range_support_restarts(
    resume_enabled: bool,
    content_length: Option<u64>,
    local_len: Option<u64>,
    prior: nat,
    chunks: Seq<u64>,
)
    requires
        total_of(chunks) <= u64::MAX,
    ensures
        plan_spec(resume_enabled, false, content_length, local_len) == ResumePlan::Fresh,
        plan_target(ResumePlan::Fresh).resume_offset == 0,
        mode_spec(0) == OpenMode::Create,
        file_len_after(mode_spec(0), prior, count_after(0, chunks) as nat) == total_of(chunks),
{
    lemma_count_after_exact(0, chunks);
}

} // verus!

//! Deciding, from a metadata probe and the local file, whether a download
//! starts afresh, continues a partial file, or is already complete.
use vstd::prelude::*;

use crate::error::DownloadError;
use crate::filename::{filename_spec, opt_bytes_view, parse_filename, ResponseHead};

verus! {

/// One download to perform: where from, and whether resuming is allowed.
pub struct DownloadRequest {
    pub url: String,
    pub resume_enabled: bool,
}

/// What a metadata probe taught of the remote resource.
pub struct ServerMetadata {
    pub filename: String,
    pub accepts_ranges: bool,
    pub content_length: Option<u64>,
}

/// Where the transfer starts and how long the whole resource is; a
/// `total_length` of zero means that it is not known.
#[derive(Clone, Copy, Debug, PartialEq, Eq)]
pub struct DownloadTarget {
    pub resume_offset: u64,
    pub total_length: u64,
}

impl DownloadTarget {
    pub open spec fn wf(self) -> bool {
        self.total_length > 0 ==> self.resume_offset < self.total_length
    }

    /// A transfer of the whole resource from its first byte.
    pub fn fresh() -> (r: DownloadTarget)
        ensures
            r.resume_offset == 0,
            r.total_length == 0,
            r.wf(),
    {
        DownloadTarget { resume_offset: 0, total_length: 0 }
    }
}

/// The outcome of the resume decision.
#[derive(Clone, Copy, Debug, PartialEq, Eq)]
pub enum ResumePlan {
    /// Transfer everything, truncating any local file.
    Fresh,
    /// Transfer what follows `offset`, appending to the local file.
    Resume { offset: u64, total: u64 },
    /// The local file already holds the whole resource: transfer nothing.
    Complete,
}

/// The resume decision. Without the policy flag, or where the server does
/// not advertise ranges, or where no local file exists, start afresh. A
/// local file of exactly the advertised length is complete. A non-empty
/// local file shorter than the advertised length (or of any length where
/// none is advertised) is continued. A local file longer than the remote
/// resource cannot be a prefix of it and is replaced.
pub open spec fn plan_spec(
    resume_enabled: bool,
    accepts_ranges: bool,
    content_length: Option<u64>,
    local_len: Option<u64>,
) -> ResumePlan {
    if !resume_enabled || !accepts_ranges {
        ResumePlan::Fresh
    } else {
        match local_len {
            None => ResumePlan::Fresh,
            Some(k) => match content_length {
                Some(l) => if k == l {
                    ResumePlan::Complete
                } else if 0 < k && k < l {
                    ResumePlan::Resume { offset: k, total: l }
                } else {
                    ResumePlan::Fresh
                },
                None => if k > 0 {
                    ResumePlan::Resume { offset: k, total: 0 }
                } else {
                    ResumePlan::Fresh
                },
            },
        }
    }
}

/// The target a plan leads to, where it leads to a transfer.
pub open spec fn plan_target(p: ResumePlan) -> DownloadTarget {
    match p {
        ResumePlan::Resume { offset, total } => DownloadTarget { resume_offset: offset, total_length: total },
        _ => DownloadTarget { resume_offset: 0, total_length: 0 },
    }
}

/// Whether a request asks for a metadata probe before its transfer.
pub fn needs_probe(req: &DownloadRequest) -> (r: bool)
    ensures
        r == req.resume_enabled,
{
    req.resume_enabled
}

/// Reads a probe response: the filename it resolves to, whether it
/// advertises ranges, and its length.
pub fn server_metadata(head: &ResponseHead) -> (r: Result<ServerMetadata, DownloadError>)
    ensures
        match r {
            Ok(m) => {
                &&& filename_spec(opt_bytes_view(head.disposition), head.url@) == Ok::<
                    Seq<char>,
                    DownloadError,
                >(m.filename@)
                &&& m.accepts_ranges == head.accepts_ranges
                &&& m.content_length == head.content_length
            },
            Err(e) => filename_spec(opt_bytes_view(head.disposition), head.url@) == Err::<
                Seq<char>,
                DownloadError,
            >(e),
        },
{
    match parse_filename(head) {
        Ok(f) => Ok(
            ServerMetadata {
                filename: f,
                accepts_ranges: head.accepts_ranges,
                content_length: head.content_length,
            },
        ),
        Err(e) => Err(e),
    }
}

/// Whether the local file must be looked up: only where the server can
/// continue a partial transfer.
pub fn needs_local_length(meta: &ServerMetadata) -> (r: bool)
    ensures
        r == meta.accepts_ranges,
{
    meta.accepts_ranges
}

/// Decides how a probed download proceeds, given the length of the local
/// file of the resolved name (`None` where there is none).
pub fn plan_resume(meta: &ServerMetadata, local_len: Option<u64>) -> (r: ResumePlan)
    ensures
        r == plan_spec(true, meta.accepts_ranges, meta.content_length, local_len),
        plan_target(r).wf(),
{
    if !meta.accepts_ranges {
        return ResumePlan::Fresh;
    }
    match local_len {
        None => ResumePlan::Fresh,
        Some(k) => match meta.content_length {
            Some(l) => if k == l {
                ResumePlan::Complete
            } else if 0 < k && k < l {
                ResumePlan::Resume { offset: k, total: l }
            } else {
                ResumePlan::Fresh
            },
            None => if k > 0 {
                ResumePlan::Resume { offset: k, total: 0 }
            } else {
                ResumePlan::Fresh
            },
        },
    }
}

/// The target of the transfer that a plan leads to.
pub fn target_of(p: ResumePlan) -> (r: DownloadTarget)
    ensures
        r == plan_target(p),
{
    match p {
        ResumePlan::Resume { offset, total } => DownloadTarget { resume_offset: offset, total_length: total },
        _ => DownloadTarget::fresh(),
    }
}

} // verus!

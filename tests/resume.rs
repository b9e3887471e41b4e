use resumable_download::error::DownloadError;
use resumable_download::filename::ResponseHead;
use resumable_download::probe::{
    needs_local_length, needs_probe, plan_resume, server_metadata, target_of, DownloadRequest,
    DownloadTarget, ResumePlan, ServerMetadata,
};
use resumable_download::transfer::{open_mode, OpenMode};

fn meta(accepts: bool, len: Option<u64>) -> ServerMetadata {
    ServerMetadata { filename: "fw.bin".to_string(), accepts_ranges: accepts, content_length: len }
}

#[test]
fn fresh_target_without_local_file() {
    let p = plan_resume(&meta(true, Some(100)), None);
    assert_eq!(p, ResumePlan::Fresh);
    let t = target_of(p);
    assert_eq!(t, DownloadTarget { resume_offset: 0, total_length: 0 });
    assert_eq!(open_mode(t.resume_offset), OpenMode::Create);
}

#[test]
fn partial_local_file_is_resumed() {
    let p = plan_resume(&meta(true, Some(100)), Some(40));
    assert_eq!(p, ResumePlan::Resume { offset: 40, total: 100 });
    assert_eq!(open_mode(target_of(p).resume_offset), OpenMode::Append);
}

#[test]
fn complete_local_file_skips_transfer() {
    assert_eq!(plan_resume(&meta(true, Some(100)), Some(100)), ResumePlan::Complete);
    assert_eq!(plan_resume(&meta(true, Some(0)), Some(0)), ResumePlan::Complete);
}

#[test]
fn no_range_support_never_resumes() {
    assert_eq!(plan_resume(&meta(false, Some(100)), Some(40)), ResumePlan::Fresh);
    assert_eq!(plan_resume(&meta(false, Some(100)), Some(100)), ResumePlan::Fresh);
    assert!(!needs_local_length(&meta(false, Some(100))));
    assert!(needs_local_length(&meta(true, Some(100))));
}

#[test]
fn local_file_longer_than_remote_restarts() {
    assert_eq!(plan_resume(&meta(true, Some(100)), Some(150)), ResumePlan::Fresh);
}

#[test]
fn empty_local_file_restarts() {
    assert_eq!(plan_resume(&meta(true, Some(100)), Some(0)), ResumePlan::Fresh);
    assert_eq!(plan_resume(&meta(true, None), Some(0)), ResumePlan::Fresh);
}

#[test]
fn unknown_length_resumes_with_unknown_total() {
    let p = plan_resume(&meta(true, None), Some(7));
    assert_eq!(p, ResumePlan::Resume { offset: 7, total: 0 });
}

#[test]
fn probe_only_when_resume_enabled() {
    let on = DownloadRequest { url: "https://h/f".to_string(), resume_enabled: true };
    let off = DownloadRequest { url: "https://h/f".to_string(), resume_enabled: false };
    assert!(needs_probe(&on));
    assert!(!needs_probe(&off));
}

#[test]
fn server_metadata_reads_probe() {
    let h = ResponseHead {
        url: "https://host/files/firmware.bin".to_string(),
        disposition: None,
        accepts_ranges: true,
        content_length: Some(512),
    };
    let m = server_metadata(&h).unwrap();
    assert_eq!(m.filename, "firmware.bin");
    assert!(m.accepts_ranges);
    assert_eq!(m.content_length, Some(512));
    let bad = ResponseHead {
        url: "https://host/".to_string(),
        disposition: Some(b"inline".to_vec()),
        accepts_ranges: true,
        content_length: Some(512),
    };
    assert!(matches!(server_metadata(&bad), Err(DownloadError::HeaderParse)));
}

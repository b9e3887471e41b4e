use resumable_download::error::{DownloadError, DownloadResult, FileOp};
use resumable_download::batch::collect_batch;
use resumable_download::probe::DownloadTarget;
use resumable_download::transfer::{display_total, range_header, OpenMode, ProgressState, Transfer};

#[test]
fn range_header_values() {
    assert_eq!(range_header(0), None);
    assert_eq!(range_header(1234), Some("bytes=1234-".to_string()));
    assert_eq!(range_header(7), Some("bytes=7-".to_string()));
    assert_eq!(range_header(u64::MAX), Some(format!("bytes={}-", u64::MAX)));
}

#[test]
fn display_total_values() {
    assert_eq!(display_total(0, 0, Some(300)), 300);
    assert_eq!(display_total(0, 0, None), 0);
    assert_eq!(display_total(40, 100, Some(60)), 100);
}

#[test]
fn progress_start_and_advance() {
    let mut p = ProgressState::start(100, 40);
    assert_eq!(p, ProgressState { transferred: 40, total: 100, eta_reset: true });
    p.advance(10);
    assert_eq!(p.transferred, 50);
    p.advance(u64::MAX);
    assert_eq!(p.transferred, u64::MAX);
    assert!(!ProgressState::start(100, 0).eta_reset);
}

#[test]
fn fresh_transfer_writes_body_length() {
    let t0 = DownloadTarget::fresh();
    let mut t = Transfer::begin(&t0, "fw.bin".to_string(), Some(10000));
    assert_eq!(t.mode, OpenMode::Create);
    assert_eq!(t.progress.total, 10000);
    for c in [4096u64, 4096, 1808] {
        assert!(t.on_chunk(c));
    }
    assert!(!t.on_chunk(0));
    assert_eq!(t.written, 10000);
    assert_eq!(t.progress.transferred, 10000);
    assert_eq!(t.finish(), DownloadResult { filename: "fw.bin".to_string() });
}

#[test]
fn resumed_transfer_reaches_total() {
    let target = DownloadTarget { resume_offset: 4000, total_length: 10000 };
    let mut t = Transfer::begin(&target, "fw.bin".to_string(), Some(6000));
    assert_eq!(t.mode, OpenMode::Append);
    assert_eq!(t.progress.transferred, 4000);
    assert_eq!(t.progress.total, 10000);
    assert!(t.progress.eta_reset);
    assert!(t.on_chunk(4096));
    assert!(t.on_chunk(1904));
    assert!(!t.on_chunk(0));
    assert_eq!(t.written, 6000);
    assert_eq!(t.progress.transferred, 10000);
}

fn ok(name: &str) -> Result<DownloadResult, DownloadError> {
    Ok(DownloadResult { filename: name.to_string() })
}

#[test]
fn batch_all_succeed() {
    let r = collect_batch(vec![ok("a"), ok("b"), ok("c")]).unwrap();
    let names: Vec<String> = r.into_iter().map(|d| d.filename).collect();
    assert_eq!(names, vec!["a", "b", "c"]);
    assert_eq!(collect_batch(vec![]), Ok(vec![]));
}

#[test]
fn batch_reports_first_failure() {
    let e1 = DownloadError::Network { url: "https://h/x".to_string() };
    let e2 = DownloadError::FileSystem { filename: "y".to_string(), op: FileOp::Write };
    let r = collect_batch(vec![ok("a"), Err(e1.clone()), ok("c"), Err(e2)]);
    assert_eq!(r, Err(e1));
}

use piston_mc::download_util::{
    DownloadError, FileDownloadArguments, SingleTransfer, TransferAction, TransferEvent, TransferPhase,
};
use sha1::{Digest, Sha1};

fn args(sha1: Option<&str>) -> FileDownloadArguments {
    FileDownloadArguments {
        url: "https://example.test/f".to_string(),
        path: "out/f".to_string(),
        sha1: sha1.map(|s| s.to_string()),
        size: None,
    }
}

#[test]
fn unchecked_transfer_streams_and_finishes() {
    let mut t = SingleTransfer::new(&args(None));
    assert!(matches!(t.step(TransferEvent::Created, 0), TransferAction::SendRequest));
    assert!(matches!(t.step(TransferEvent::Responded(Some(300)), 0), TransferAction::ReadChunk));
    match t.step(TransferEvent::ChunkWritten(100), 1000) {
        TransferAction::Report(p) => {
            assert_eq!(p.bytes_to_download, 300);
            assert_eq!(p.bytes_downloaded, 100);
            assert_eq!(p.bytes_per_second, 100);
        }
        _ => panic!("expected progress"),
    }
    match t.step(TransferEvent::ChunkWritten(200), 2000) {
        TransferAction::Report(p) => {
            assert_eq!(p.bytes_downloaded, 300);
            assert_eq!(p.bytes_per_second, 150);
        }
        _ => panic!("expected progress"),
    }
    match t.step(TransferEvent::StreamEnded, 2000) {
        TransferAction::Finish(Ok(n)) => assert_eq!(n, 300),
        _ => panic!("expected success"),
    }
    assert_eq!(t.phase, TransferPhase::Finished);
}

#[test]
fn checked_transfer_hashes_after_the_last_chunk() {
    let mut t = SingleTransfer::new(&args(Some("A9993E364706816ABA3E25717850C26C9CD0D89D")));
    t.step(TransferEvent::Created, 0);
    t.step(TransferEvent::Responded(None), 0);
    t.step(TransferEvent::ChunkWritten(3), 5);
    assert!(matches!(t.step(TransferEvent::StreamEnded, 5), TransferAction::HashFile));
    assert_eq!(t.phase, TransferPhase::Hashing);
    match t.step(TransferEvent::Hashed(Ok(Sha1::digest(b"abc").to_vec())), 6) {
        TransferAction::Finish(Ok(n)) => assert_eq!(n, 3),
        _ => panic!("expected success"),
    }
}

#[test]
fn checked_transfer_reports_mismatch() {
    let mut t = SingleTransfer::new(&args(Some("a9993e364706816aba3e25717850c26c9cd0d89d")));
    t.step(TransferEvent::Created, 0);
    t.step(TransferEvent::Responded(None), 0);
    t.step(TransferEvent::ChunkWritten(3), 5);
    t.step(TransferEvent::StreamEnded, 5);
    match t.step(TransferEvent::Hashed(Ok(Sha1::digest(b"abd").to_vec())), 6) {
        TransferAction::Finish(Err(DownloadError::HashMismatch(m))) => {
            assert_eq!(m, "Failed to validate file: out/f")
        }
        _ => panic!("expected a mismatch"),
    }
}

#[test]
fn failures_map_to_their_kinds() {
    let mut t = SingleTransfer::new(&args(None));
    assert!(matches!(
        t.step(TransferEvent::CreateFailed("no such directory".to_string()), 0),
        TransferAction::Finish(Err(DownloadError::Filesystem(_)))
    ));
    let mut t = SingleTransfer::new(&args(None));
    t.step(TransferEvent::Created, 0);
    assert!(matches!(
        t.step(TransferEvent::RequestFailed("404".to_string()), 0),
        TransferAction::Finish(Err(DownloadError::Network(_)))
    ));
    let mut t = SingleTransfer::new(&args(None));
    t.step(TransferEvent::Created, 0);
    t.step(TransferEvent::Responded(None), 0);
    assert!(matches!(
        t.step(TransferEvent::StreamFailed("reset".to_string()), 0),
        TransferAction::Finish(Err(DownloadError::Network(_)))
    ));
    let mut t = SingleTransfer::new(&args(Some("00")));
    t.step(TransferEvent::Created, 0);
    t.step(TransferEvent::Responded(None), 0);
    t.step(TransferEvent::StreamEnded, 0);
    assert!(matches!(
        t.step(TransferEvent::Hashed(Err("gone".to_string())), 0),
        TransferAction::Finish(Err(DownloadError::Filesystem(_)))
    ));
}

#[test]
fn events_out_of_phase_are_refused() {
    let t = SingleTransfer::new(&args(None));
    assert!(t.accepts(&TransferEvent::Created));
    assert!(!t.accepts(&TransferEvent::StreamEnded));
    assert!(!t.accepts(&TransferEvent::Hashed(Ok(vec![]))));
}

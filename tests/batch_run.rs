use piston_mc::batch::BatchRun;
use piston_mc::download_util::{DownloadError, FileDownloadArguments};

fn item(name: &str, size: Option<u64>) -> FileDownloadArguments {
    FileDownloadArguments {
        url: format!("https://example.test/{}", name),
        path: format!("out/{}", name),
        sha1: None,
        size,
    }
}

fn items(n: usize) -> Vec<FileDownloadArguments> {
    (0..n).map(|i| item(&format!("f{}", i), Some(10))).collect()
}

fn outcome_for(i: usize, failing: usize) -> Result<u64, DownloadError> {
    if i == failing {
        Err(DownloadError::Network(format!("connection reset on item {}", i)))
    } else {
        Ok(10)
    }
}

/// Drives a batch to the end, completing the newest in-flight item first
/// when `pick_last`, else the oldest.
fn drive(
    n: usize,
    concurrency: usize,
    failing: usize,
    pick_last: bool,
) -> (Result<(), DownloadError>, Vec<u64>, u64) {
    let list = items(n);
    let mut run = BatchRun::new(&list, concurrency, 0);
    let mut in_flight: Vec<usize> = Vec::new();
    let mut published = Vec::new();
    let mut clock = 0u64;
    loop {
        while let Some(i) = run.next_to_start() {
            in_flight.push(i);
            assert!(in_flight.len() <= concurrency.max(1));
        }
        if in_flight.is_empty() {
            break;
        }
        let i = if pick_last { in_flight.pop().unwrap() } else { in_flight.remove(0) };
        clock += 100;
        let snap = run.complete(i, outcome_for(i, failing), clock);
        published.push(snap.files_downloaded);
    }
    assert!(run.is_finished());
    let done = run.progress.snapshot(clock + 100).files_downloaded;
    (run.result(), published, done)
}

#[test]
fn three_items_one_network_failure() {
    let list = vec![item("a", Some(5)), item("b", None), item("c", Some(7))];
    let mut run = BatchRun::new(&list, 3, 0);
    assert_eq!(run.progress.files_total, 3);
    assert_eq!(run.progress.bytes_total, 12);
    assert_eq!(run.next_to_start(), Some(0));
    assert_eq!(run.next_to_start(), Some(1));
    assert_eq!(run.next_to_start(), Some(2));
    assert_eq!(run.next_to_start(), None);
    run.complete(2, Ok(7), 10);
    run.complete(1, Err(DownloadError::Network("timed out".to_string())), 20);
    run.complete(0, Ok(5), 30);
    assert!(run.is_finished());
    assert_eq!(run.progress.snapshot(40).files_downloaded, 3);
    match run.result() {
        Err(DownloadError::Network(m)) => assert_eq!(m, "timed out"),
        _ => panic!("expected the network failure"),
    }
}

#[test]
fn first_error_in_input_order_wins() {
    let list = items(3);
    let mut run = BatchRun::new(&list, 3, 0);
    for _ in 0..3 {
        run.next_to_start();
    }
    run.complete(2, Err(DownloadError::Filesystem("disk full".to_string())), 1);
    run.complete(1, Err(DownloadError::HashMismatch("bad".to_string())), 2);
    run.complete(0, Ok(1), 3);
    match run.result() {
        Err(DownloadError::HashMismatch(m)) => assert_eq!(m, "bad"),
        _ => panic!("expected the error of item 1"),
    }
}

#[test]
fn all_succeed_gives_ok() {
    let (result, _, done) = drive(4, 2, usize::MAX, false);
    assert!(result.is_ok());
    assert_eq!(done, 4);
}

#[test]
fn concurrency_one_and_m_agree() {
    for failing in [0usize, 2, 4, usize::MAX] {
        let (one, _, done_one) = drive(5, 1, failing, false);
        let (many, _, done_many) = drive(5, 5, failing, true);
        assert_eq!(done_one, 5);
        assert_eq!(done_many, 5);
        match (one, many) {
            (Ok(()), Ok(())) => assert_eq!(failing, usize::MAX),
            (Err(DownloadError::Network(a)), Err(DownloadError::Network(b))) => assert_eq!(a, b),
            _ => panic!("results differ"),
        }
    }
}

#[test]
fn published_counts_rise_and_reach_total_once() {
    let (_, published, _) = drive(6, 3, 1, true);
    assert_eq!(published, vec![1, 2, 3, 4, 5, 6]);
    assert_eq!(published.iter().filter(|&&c| c == 6).count(), 1);
}

#[test]
fn pool_never_exceeds_bound() {
    let list = items(5);
    let mut run = BatchRun::new(&list, 2, 0);
    assert_eq!(run.pool, 2);
    assert_eq!(run.next_to_start(), Some(0));
    assert_eq!(run.next_to_start(), Some(1));
    assert_eq!(run.next_to_start(), None);
    run.complete(0, Ok(10), 5);
    assert_eq!(run.next_to_start(), Some(2));
    assert_eq!(run.next_to_start(), None);
}

#[test]
fn pool_is_at_most_item_count_and_at_least_one() {
    let list = items(3);
    assert_eq!(BatchRun::new(&list, 10, 0).pool, 3);
    assert_eq!(BatchRun::new(&list, 0, 0).pool, 1);
    let empty: Vec<FileDownloadArguments> = Vec::new();
    let run = BatchRun::new(&empty, 4, 0);
    assert_eq!(run.pool, 0);
    assert!(run.is_finished());
    assert!(run.result().is_ok());
}

#[test]
fn completion_counts_bytes_of_successes_only() {
    let list = items(2);
    let mut run = BatchRun::new(&list, 2, 0);
    run.next_to_start();
    run.next_to_start();
    run.complete(0, Ok(1000), 500);
    run.complete(1, Err(DownloadError::Network("x".to_string())), 1000);
    assert_eq!(run.progress.bytes_done, 1000);
    assert_eq!(run.progress.files_done, 2);
}

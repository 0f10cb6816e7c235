use mangofetch::errors::DownloadError;
use mangofetch::queue::DownloadQueue;
use mangofetch::request::EnqueueRequest;
use mangofetch::status::QueueStatus;

fn queue(n: u64, max: u32) -> DownloadQueue {
    let mut q = DownloadQueue::new(max);
    for id in 1..=n {
        q.enqueue_request(
            id,
            EnqueueRequest::new(format!("u{}", id), "p".to_string(), format!("t{}", id), "/o".to_string())
                .quality(Some("720p".to_string())),
        );
    }
    q
}

#[test]
fn cancelled_download_can_be_retried() {
    let mut q = queue(1, 1);
    q.start_next_batch();
    q.update_progress(1, 5, 6, 7, Some(8), None);
    assert_eq!(q.cancel(1), (true, None));
    assert!(q.retry(1));
    assert!(matches!(q.items[0].status, QueueStatus::Queued));
    assert_eq!(q.items[0].progress.downloaded_bytes, 0);
    assert_eq!(q.items[0].config.quality.as_deref(), Some("720p"));
}

#[test]
fn operations_keep_order_ids_and_configuration() {
    let mut q = queue(3, 2);
    let before: Vec<(u64, String, Option<String>)> =
        q.items.iter().map(|i| (i.id, i.config.url.clone(), i.config.quality.clone())).collect();
    q.start_next_batch();
    q.pause(1);
    q.resume(1);
    q.cancel(2);
    q.retry(2);
    q.mark_seeding(3, None, None, Some(1));
    q.update_progress(3, 1, 1, 1, None, None);
    q.mark_complete(1, true, None, None, None);
    let after: Vec<(u64, String, Option<String>)> =
        q.items.iter().map(|i| (i.id, i.config.url.clone(), i.config.quality.clone())).collect();
    assert_eq!(before, after);
}

#[test]
fn batch_never_exceeds_the_limit() {
    let mut q = queue(6, 4);
    q.mark_active(5);
    let plans = q.start_next_batch();
    assert_eq!(plans.len(), 3);
    assert_eq!(q.active_count(), 4);
    assert!(q.start_next_batch().is_empty());
    q.mark_complete(1, true, None, None, None);
    assert_eq!(q.start_next_batch().len(), 1);
    assert_eq!(q.active_count(), 4);
}

#[test]
fn only_unknown_errors_lack_code_and_hint() {
    let all = vec![
        DownloadError::AuthRequired,
        DownloadError::RateLimited,
        DownloadError::Restricted,
        DownloadError::FileMissing,
        DownloadError::NotFound,
        DownloadError::FfmpegNeeded,
        DownloadError::YtdlpNeeded,
        DownloadError::YtdlpOutdated,
        DownloadError::Unknown("m".to_string()),
    ];
    for e in all {
        let unknown = matches!(e, DownloadError::Unknown(_));
        assert_eq!(e.code() == "unknown", unknown);
        assert_eq!(e.hint().is_empty(), unknown);
    }
}

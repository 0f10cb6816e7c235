use mangofetch::item::{HUNDRED_F64_BITS, ZERO_F64_BITS};
use mangofetch::media::{MediaInfo, MediaType};
use mangofetch::queue::DownloadQueue;
use mangofetch::request::EnqueueRequest;
use mangofetch::status::QueueStatus;

fn request(url: &str, platform: &str) -> EnqueueRequest {
    EnqueueRequest::new(
        url.to_string(),
        platform.to_string(),
        "title".to_string(),
        "/tmp/out".to_string(),
    )
}

fn queue_with(items: &[(u64, &str, &str)], max: u32) -> DownloadQueue {
    let mut q = DownloadQueue::new(max);
    for (id, url, platform) in items {
        q.enqueue_request(*id, request(url, platform));
    }
    q
}

fn is_error_with(s: &QueueStatus, text: &str) -> bool {
    matches!(s, QueueStatus::Error { message } if message == text)
}

#[test]
fn new_queue_is_empty_with_default_stagger() {
    let q = DownloadQueue::new(3);
    assert!(q.items.is_empty());
    assert_eq!(q.max_concurrent, 3);
    assert_eq!(q.stagger_delay_ms, 150);
    assert_eq!(q.active_count(), 0);
}

#[test]
fn enqueue_appends_a_waiting_item() {
    let mut q = DownloadQueue::new(2);
    q.enqueue(
        7,
        "https://x/v".to_string(),
        "youtube".to_string(),
        "A video".to_string(),
        "/d".to_string(),
        Some("video".to_string()),
        Some("1080p".to_string()),
        None,
        None,
        None,
        Some(true),
        None,
        None,
        None,
        None,
        None,
        None,
        Some(1234),
        Some(1),
        None,
        false,
    );
    assert_eq!(q.items.len(), 1);
    let it = &q.items[0];
    assert_eq!(it.id, 7);
    assert!(matches!(it.status, QueueStatus::Queued));
    assert_eq!(it.config.quality.as_deref(), Some("1080p"));
    assert_eq!(it.config.download_subtitles, Some(true));
    assert_eq!(it.progress.total_bytes, Some(1234));
    assert_eq!(it.progress.file_count, Some(1));
    assert_eq!(it.progress.phase, "Queued");
    assert_eq!(it.progress.percent_bits, ZERO_F64_BITS);
    assert!(!it.cancel_token.is_cancelled());
    assert!(q.has_url("https://x/v"));
}

#[test]
fn next_queued_ids_respects_free_slots() {
    let mut q = queue_with(&[(1, "a", "p"), (2, "b", "p"), (3, "c", "p"), (4, "d", "p")], 2);
    assert_eq!(q.next_queued_ids(), vec![1, 2]);
    q.mark_active(1);
    assert_eq!(q.active_count(), 1);
    assert_eq!(q.next_queued_ids(), vec![2]);
    q.mark_active(2);
    assert_eq!(q.next_queued_ids(), Vec::<u64>::new());
}

#[test]
fn pause_and_resume_follow_the_status_rules() {
    let mut q = queue_with(&[(1, "a", "youtube"), (2, "m", "magnet")], 5);
    assert!(!q.pause(1)); // waiting, not running
    q.mark_active(1);
    let token = q.items[0].cancel_token.clone();
    assert!(q.pause(1));
    assert!(matches!(q.items[0].status, QueueStatus::Paused));
    assert!(token.is_cancelled());
    assert!(q.resume(1));
    assert!(matches!(q.items[0].status, QueueStatus::Queued));
    assert!(!q.items[0].cancel_token.is_cancelled());

    q.mark_active(2);
    let magnet_token = q.items[1].cancel_token.clone();
    assert!(q.pause(2));
    assert!(!magnet_token.is_cancelled()); // torrents keep their session
    assert!(q.resume(2));
    assert!(matches!(q.items[1].status, QueueStatus::Active));
    assert!(!q.resume(2));
    assert!(!q.pause(99));
}

#[test]
fn cancel_reports_torrent_sessions() {
    let mut q = queue_with(&[(1, "a", "p"), (2, "b", "magnet"), (3, "c", "magnet"), (4, "d", "p")], 5);
    // waiting item
    assert_eq!(q.cancel(1), (true, None));
    assert!(is_error_with(&q.items[0].status, "Cancelled"));
    // seeding torrent hands back its session
    q.mark_seeding(2, Some("/f".to_string()), Some(10), Some(42));
    assert_eq!(q.items[1].progress.percent_bits, HUNDRED_F64_BITS);
    assert_eq!(q.cancel(2), (true, Some(42)));
    // paused torrent hands back its session
    q.mark_active(3);
    q.update_progress(3, 0, 0, 5, Some(100), Some(7));
    assert!(q.pause(3));
    assert_eq!(q.cancel(3), (true, Some(7)));
    // finished items cannot be cancelled
    assert_eq!(q.cancel(1), (false, None));
    q.mark_active(4);
    let token = q.items[3].cancel_token.clone();
    assert_eq!(q.cancel(4), (true, None));
    assert!(token.is_cancelled());
    // a cancelled download that is retried and started again runs on a new token
    assert!(q.retry(4));
    assert!(!q.items[3].cancel_token.is_cancelled());
    q.mark_active(4);
    assert!(!q.items[3].cancel_token.is_cancelled());
}

#[test]
fn retry_resets_progress() {
    let mut q = queue_with(&[(1, "a", "p")], 1);
    q.mark_active(1);
    q.update_progress(1, 77, 88, 500, Some(1000), None);
    q.mark_complete(1, false, Some("boom".to_string()), Some("/f".to_string()), Some(3));
    assert!(is_error_with(&q.items[0].status, "boom"));
    assert_eq!(q.items[0].progress.speed_bits, ZERO_F64_BITS);
    assert!(q.retry(1));
    let it = &q.items[0];
    assert!(matches!(it.status, QueueStatus::Queued));
    assert_eq!(it.progress.percent_bits, ZERO_F64_BITS);
    assert_eq!(it.progress.downloaded_bytes, 0);
    assert_eq!(it.progress.file_path, None);
    assert_eq!(it.progress.total_bytes, Some(1000));
    assert!(!q.retry(1));
}

#[test]
fn mark_complete_without_message_leaves_empty_error() {
    let mut q = queue_with(&[(1, "a", "p")], 1);
    q.mark_complete(1, false, None, None, None);
    assert!(is_error_with(&q.items[0].status, ""));
    let mut q = queue_with(&[(1, "a", "p")], 1);
    q.mark_complete(1, true, None, Some("/x".to_string()), Some(9));
    assert!(matches!(q.items[0].status, QueueStatus::Complete { success: true }));
    assert_eq!(q.items[0].progress.percent_bits, HUNDRED_F64_BITS);
    assert_eq!(q.items[0].progress.file_size_bytes, Some(9));
}

#[test]
fn update_progress_keeps_first_torrent_and_known_total() {
    let mut q = queue_with(&[(1, "a", "p")], 1);
    q.update_progress(1, 10, 20, 30, Some(100), Some(5));
    q.update_progress(1, 11, 21, 31, None, Some(6));
    let p = &q.items[0].progress;
    assert_eq!(p.percent_bits, 11);
    assert_eq!(p.speed_bits, 21);
    assert_eq!(p.downloaded_bytes, 31);
    assert_eq!(p.total_bytes, Some(100));
    assert_eq!(p.torrent_id, Some(5));
}

#[test]
fn remove_and_clear_finished() {
    let mut q = queue_with(&[(1, "a", "p"), (2, "b", "magnet"), (3, "c", "p"), (4, "d", "p")], 5);
    q.mark_seeding(2, None, None, Some(9));
    assert_eq!(q.remove(2), Some(Some(9)));
    assert_eq!(q.remove(2), None);
    q.mark_complete(1, true, None, None, None);
    q.mark_complete(3, false, Some("x".to_string()), None, None);
    let removed = q.clear_finished();
    assert_eq!(removed, vec![1, 3]);
    assert_eq!(q.items.len(), 1);
    assert_eq!(q.items[0].id, 4);
    assert!(q.clear_finished().is_empty());
}

#[test]
fn remove_cancels_a_running_download() {
    let mut q = queue_with(&[(1, "a", "p")], 1);
    q.mark_active(1);
    let token = q.items[0].cancel_token.clone();
    assert_eq!(q.remove(1), Some(None));
    assert!(token.is_cancelled());
    assert!(q.items.is_empty());
}

#[test]
fn has_url_ignores_finished_items() {
    let mut q = queue_with(&[(1, "a", "p")], 1);
    assert!(q.has_url("a"));
    assert!(!q.has_url("b"));
    q.mark_complete(1, true, None, None, None);
    assert!(!q.has_url("a"));
}

#[test]
fn get_state_mirrors_items() {
    let mut q = queue_with(&[(1, "a", "p"), (2, "b", "q")], 1);
    let info = MediaInfo {
        title: "T".to_string(),
        author: "A".to_string(),
        thumbnail_url: Some("thumb".to_string()),
        duration_seconds_bits: None,
        file_size_bytes: Some(5),
        media_type: MediaType::Video,
        available_qualities: vec![],
    };
    q.items[1].progress.media_info = Some(info);
    let state = q.get_state();
    assert_eq!(state.len(), 2);
    assert_eq!(state[0].id, 1);
    assert_eq!(state[0].url, "a");
    assert_eq!(state[0].thumbnail_url, None);
    assert_eq!(state[1].platform, "q");
    assert_eq!(state[1].thumbnail_url.as_deref(), Some("thumb"));
    assert_eq!(state[1].phase, "Queued");
}

#[test]
fn operations_act_on_the_first_item_with_an_id() {
    let mut q = queue_with(&[(1, "a", "p"), (1, "b", "p")], 5);
    q.mark_active(1);
    assert!(matches!(q.items[0].status, QueueStatus::Active));
    assert!(matches!(q.items[1].status, QueueStatus::Queued));
}

#[test]
fn request_builders_set_fields() {
    let info = MediaInfo {
        title: "T".to_string(),
        author: "A".to_string(),
        thumbnail_url: None,
        duration_seconds_bits: None,
        file_size_bytes: Some(77),
        media_type: MediaType::Video,
        available_qualities: vec![],
    };
    let r = request("u", "p")
        .quality(Some("720p".to_string()))
        .video_format(Some("mp4".to_string()))
        .audio_format(Some("mp3".to_string()))
        .audio_quality(Some("best".to_string()))
        .download_mode(Some("audio".to_string()))
        .format_id(Some("137".to_string()))
        .download_subtitles(Some(false))
        .referer(Some("ref".to_string()))
        .extra_headers(None)
        .page_url(Some("page".to_string()))
        .user_agent(Some("ua".to_string()))
        .ytdlp_path(Some(std::path::PathBuf::from("/bin/yt-dlp")))
        .from_hotkey(true)
        .total_bytes(Some(5))
        .media_info(Some(info))
        .file_count(Some(3));
    assert_eq!(r.config.url, "u");
    assert_eq!(r.config.platform, "p");
    assert_eq!(r.config.quality.as_deref(), Some("720p"));
    assert_eq!(r.config.video_format.as_deref(), Some("mp4"));
    assert_eq!(r.config.audio_format.as_deref(), Some("mp3"));
    assert_eq!(r.config.audio_quality.as_deref(), Some("best"));
    assert_eq!(r.config.download_mode.as_deref(), Some("audio"));
    assert_eq!(r.config.format_id.as_deref(), Some("137"));
    assert_eq!(r.config.download_subtitles, Some(false));
    assert_eq!(r.config.referer.as_deref(), Some("ref"));
    assert_eq!(r.config.page_url.as_deref(), Some("page"));
    assert_eq!(r.config.user_agent.as_deref(), Some("ua"));
    assert!(r.config.from_hotkey);
    assert!(r.config.ytdlp_path.is_some());
    // media information overrides the total set before it
    assert_eq!(r.total_bytes, Some(77));
    assert_eq!(r.file_count, Some(3));
    let r2 = request("u", "p").media_info(None).total_bytes(Some(4)).media_info(None);
    assert_eq!(r2.total_bytes, Some(4));
}

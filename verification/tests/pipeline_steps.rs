use mangofetch::cache::InfoCache;
use mangofetch::item::{RecoveryItem, HUNDRED_F64_BITS, ZERO_F64_BITS};
use mangofetch::media::{is_generic_title, title_or_fallback, MediaInfo, MediaType};
use mangofetch::options::{resolve_options, DownloadSettings};
use mangofetch::pipeline::{
    wants_clipboard_copy, wants_metadata_embed, DownloadOutcome, InfoFetch, StartPlan,
};
use mangofetch::queue::DownloadQueue;
use mangofetch::request::EnqueueRequest;
use mangofetch::status::QueueStatus;
use mangofetch::theme::{hex_to_rgb, BrandPreset, Rgb};
use mangofetch::throttle::ProgressThrottle;

fn queue_with(items: &[(u64, &str)], max: u32) -> DownloadQueue {
    let mut q = DownloadQueue::new(max);
    for (id, platform) in items {
        q.enqueue_request(
            *id,
            EnqueueRequest::new(
                format!("https://example/{}", id),
                platform.to_string(),
                "t".to_string(),
                "/out".to_string(),
            ),
        );
    }
    q
}

fn media(kind: MediaType, entries: usize, size: Option<u64>) -> MediaInfo {
    MediaInfo {
        title: "Real Title".to_string(),
        author: "Someone".to_string(),
        thumbnail_url: Some("https://thumb".to_string()),
        duration_seconds_bits: Some(42.0f64.to_bits()),
        file_size_bytes: size,
        media_type: kind,
        available_qualities: (0..entries).map(|i| format!("q{}", i)).collect(),
    }
}

#[test]
fn small_batch_uses_the_stagger_delay() {
    let mut q = queue_with(&[(1, "a"), (2, "b"), (3, "youtube"), (4, "c")], 3);
    let plans = q.start_next_batch();
    assert_eq!(
        plans,
        vec![
            StartPlan { id: 1, delay_ms: 0 },
            StartPlan { id: 2, delay_ms: 150 },
            StartPlan { id: 3, delay_ms: 2000 },
        ]
    );
    assert_eq!(q.active_count(), 3);
    assert!(matches!(q.items[3].status, QueueStatus::Queued));
    assert!(q.start_next_batch().is_empty());
}

#[test]
fn large_batch_waits_at_least_a_second() {
    let mut q = queue_with(&[(1, "a"), (2, "b"), (3, "c"), (4, "d"), (5, "e")], 10);
    let plans = q.start_next_batch();
    let delays: Vec<u64> = plans.iter().map(|p| p.delay_ms).collect();
    assert_eq!(delays, vec![0, 1000, 1000, 1000, 1000]);
    q.stagger_delay_ms = 1500;
    let mut q2 = queue_with(&[(1, "a"), (2, "b"), (3, "c"), (4, "d")], 10);
    q2.stagger_delay_ms = 1500;
    let delays2: Vec<u64> = q2.start_next_batch().iter().map(|p| p.delay_ms).collect();
    assert_eq!(delays2, vec![0, 1500, 1500, 1500]);
}

#[test]
fn info_fetch_outcomes() {
    let mut q = queue_with(&[(1, "a"), (2, "b"), (3, "c")], 3);
    let got = q.record_info_fetch(1, InfoFetch::Ready(media(MediaType::Playlist, 4, Some(900))));
    assert_eq!(got.as_ref().map(|m| m.title.as_str()), Some("Real Title"));
    // the configuration stays as enqueued; the item shows the fetched title
    assert_eq!(q.items[0].config.title, "t");
    assert_eq!(q.get_state()[0].title, "Real Title");
    assert_eq!(q.recovery_record(1).unwrap().title, "Real Title");
    assert_eq!(q.items[0].progress.total_bytes, Some(900));
    assert_eq!(q.items[0].progress.file_count, Some(4));
    assert_eq!(q.get_state()[0].thumbnail_url.as_deref(), Some("https://thumb"));

    let single = q.record_info_fetch(2, InfoFetch::Ready(media(MediaType::Video, 4, None)));
    assert!(single.is_some());
    assert_eq!(q.items[1].progress.file_count, Some(1));

    assert!(q.record_info_fetch(3, InfoFetch::TimedOut).is_none());
    assert!(matches!(&q.items[2].status, QueueStatus::Error { message } if message == "Timed out fetching video info"));
    assert!(q.record_info_fetch(1, InfoFetch::Failed("nope".to_string())).is_none());
    assert!(matches!(&q.items[0].status, QueueStatus::Error { message } if message == "nope"));
}

#[test]
fn download_results_complete_seed_or_fail() {
    let mut q = queue_with(&[(1, "magnet"), (2, "magnet"), (3, "youtube")], 3);
    q.start_next_batch();
    let shown = q.record_download_result(
        1,
        "magnet",
        DownloadOutcome::Finished { file_path: "/f1".to_string(), file_size_bytes: 10, torrent_id: Some(4) },
    );
    assert!(shown.is_none());
    assert!(matches!(q.items[0].status, QueueStatus::Seeding));
    assert_eq!(q.items[0].progress.torrent_id, Some(4));
    q.record_download_result(
        2,
        "magnet",
        DownloadOutcome::Finished { file_path: "/f2".to_string(), file_size_bytes: 11, torrent_id: None },
    );
    assert!(matches!(q.items[1].status, QueueStatus::Complete { success: true }));
    assert_eq!(q.items[1].progress.file_path.as_deref(), Some("/f2"));
    let shown = q.record_download_result(
        3,
        "youtube",
        DownloadOutcome::Failed { message: "HTTP Error 404".to_string() },
    );
    let expected = "Content not found or has been deleted. (HTTP Error 404)";
    assert_eq!(shown.as_deref(), Some(expected));
    assert!(matches!(&q.items[2].status, QueueStatus::Error { message } if message == expected));
}

#[test]
fn interrupted_downloads_release_their_slot() {
    let mut q = queue_with(&[(1, "a"), (2, "b")], 1);
    q.start_next_batch();
    assert!(q.release_interrupted(1));
    assert!(matches!(&q.items[0].status, QueueStatus::Error { message } if message == "Download interrupted"));
    assert!(!q.release_interrupted(1));
    assert!(!q.release_interrupted(2));
    assert!(!q.is_paused(2));
}

#[test]
fn recovery_round_trip() {
    let mut q = queue_with(&[(1, "a")], 1);
    q.start_next_batch();
    q.items[0].config.quality = Some("720p".to_string());
    let rec = q.recovery_record(1).unwrap();
    assert!(matches!(rec.status, QueueStatus::Active));
    assert!(q.recovery_record(9).is_none());
    let done = RecoveryItem {
        id: 5,
        url: "u".to_string(),
        title: "t".to_string(),
        platform: "p".to_string(),
        output_dir: "/o".to_string(),
        status: QueueStatus::Complete { success: true },
        download_mode: None,
        quality: None,
        format_id: Some("22".to_string()),
        referer: None,
        file_path: Some("/o/f".to_string()),
        file_size_bytes: Some(8),
    };
    let mut fresh = DownloadQueue::new(1);
    fresh.load_from_recovery(vec![rec, done]);
    assert_eq!(fresh.items.len(), 2);
    assert!(matches!(fresh.items[0].status, QueueStatus::Paused));
    assert_eq!(fresh.items[0].config.quality.as_deref(), Some("720p"));
    assert_eq!(fresh.items[0].progress.percent_bits, ZERO_F64_BITS);
    assert!(matches!(fresh.items[1].status, QueueStatus::Complete { success: true }));
    assert_eq!(fresh.items[1].progress.percent_bits, HUNDRED_F64_BITS);
    assert_eq!(fresh.items[1].progress.total_bytes, Some(8));
    assert_eq!(fresh.items[1].config.format_id.as_deref(), Some("22"));
    assert!(fresh.is_paused(1));
}

#[test]
fn throttle_lets_the_first_report_through_then_waits() {
    let mut t = ProgressThrottle::new(250);
    assert!(t.should_emit());
    assert!(!t.should_emit());
    let mut slow = ProgressThrottle::new(20_000);
    assert!(!slow.should_emit());
    let mut fast = ProgressThrottle::new(0);
    assert!(fast.should_emit());
    assert!(fast.should_emit());
}

#[test]
fn throttle_decides_from_elapsed_time() {
    let mut t = ProgressThrottle::new(250);
    let now = std::time::Instant::now();
    assert!(t.should_emit_at(now, 0));
    assert!(!t.should_emit_at(now, 249));
    assert!(t.should_emit_at(now, 250));
}

#[test]
fn generic_titles_are_replaced() {
    assert!(is_generic_title("  Video "));
    assert!(is_generic_title("\u{3000}\tunknown\u{2028}"));
    assert!(!is_generic_title("\u{200b}video"));
    assert_eq!(mangofetch::text::trim("\u{a0} a b \n"), "a b");
    assert_eq!(mangofetch::text::trim(" \t "), "");
    assert_eq!(mangofetch::text::trim("x"), "x");
    assert!(is_generic_title(""));
    assert!(is_generic_title("UNTITLED"));
    assert!(is_generic_title("video [video] 123"));
    assert!(is_generic_title("Media [MEDIA]"));
    assert!(!is_generic_title("my video"));
    assert_eq!(title_or_fallback("unknown".to_string(), "otter"), "video_otter");
    assert_eq!(title_or_fallback("Concert".to_string(), "otter"), "Concert");
}

#[test]
fn cache_stores_and_replaces() {
    let mut c = InfoCache::new();
    assert!(c.fresh_info("u").is_none());
    c.insert("u".to_string(), media(MediaType::Video, 0, Some(1)));
    c.insert("v".to_string(), media(MediaType::Video, 0, Some(2)));
    c.insert("u".to_string(), media(MediaType::Video, 0, Some(3)));
    assert_eq!(c.len(), 2);
    assert_eq!(c.fresh_info("u").unwrap().file_size_bytes, Some(3));
    assert_eq!(c.fresh_info("v").unwrap().file_size_bytes, Some(2));
    for i in 0..60 {
        c.insert(format!("k{}", i), media(MediaType::Video, 0, None));
    }
    // every entry is fresh, so none is pruned
    assert_eq!(c.len(), 62);
}

#[test]
fn options_fill_in_from_settings() {
    let mut q = queue_with(&[(1, "youtube")], 1);
    q.items[0].config.quality = Some("480p".to_string());
    q.items[0].config.download_subtitles = Some(true);
    q.items[0].config.format_id = Some("137".to_string());
    q.items[0].config.referer = Some("https://ref".to_string());
    q.items[0].config.user_agent = Some("agent".to_string());
    let mut headers = std::collections::HashMap::new();
    headers.insert("Cookie".to_string(), "a=b".to_string());
    q.items[0].config.extra_headers = Some(headers.clone());
    q.items[0].config.ytdlp_path = Some(std::path::PathBuf::from("/bin/yt-dlp"));
    let settings = DownloadSettings {
        video_quality: "best".to_string(),
        video_format: "mp4".to_string(),
        audio_format: "m4a".to_string(),
        audio_quality: "high".to_string(),
        filename_template: "%(title)s".to_string(),
        organize_by_platform: true,
        download_subtitles: false,
        include_auto_subtitles: true,
        concurrent_fragments: 4,
        torrent_listen_port: 6881,
    };
    let r = resolve_options(&q.items[0].config, &settings);
    assert_eq!(r.quality, "480p");
    assert_eq!(r.video_format, "mp4");
    assert_eq!(r.audio_format, "m4a");
    assert_eq!(r.audio_quality, "high");
    assert!(r.download_subtitles);
    assert!(r.include_auto_subtitles);
    assert_eq!(r.filename_template, "%(title)s");
    assert_eq!(r.format_id.as_deref(), Some("137"));
    assert_eq!(r.referer.as_deref(), Some("https://ref"));
    assert_eq!(r.user_agent.as_deref(), Some("agent"));
    assert_eq!(r.extra_headers, Some(headers));
    assert_eq!(r.ytdlp_path, Some(std::path::PathBuf::from("/bin/yt-dlp")));
    assert!(r.download_mode.is_none());
    assert!(r.page_url.is_none());
    assert_eq!(r.concurrent_fragments, 4);
    assert_eq!(r.torrent_listen_port, Some(6881));
    assert_eq!(std::path::PathBuf::from(&r.output_dir), std::path::Path::new("/out").join("youtube"));
    let flat = DownloadSettings { organize_by_platform: false, ..settings };
    assert_eq!(resolve_options(&q.items[0].config, &flat).output_dir, "/out");
}

#[test]
fn finishing_steps() {
    assert!(wants_metadata_embed(true, "youtube"));
    assert!(!wants_metadata_embed(true, "magnet"));
    assert!(!wants_metadata_embed(false, "youtube"));
    assert!(wants_clipboard_copy(true, true));
    assert!(!wants_clipboard_copy(false, true));
}

#[test]
fn brand_colour_and_hex_parsing() {
    assert_eq!(BrandPreset::PlasmCore.primary(), Rgb { r: 0x22, g: 0xd3, b: 0xee });
    assert_eq!(hex_to_rgb("##0c0e12"), Rgb { r: 0x0c, g: 0x0e, b: 0x12 });
    assert_eq!(hex_to_rgb("+fzz10"), Rgb { r: 15, g: 0, b: 16 });
    assert_eq!(hex_to_rgb("-1FFFF"), Rgb { r: 0, g: 255, b: 255 });
    // a pair that is one two-byte character is no hexadecimal byte
    assert_eq!(hex_to_rgb("ééé"), Rgb { r: 0, g: 0, b: 0 });
    assert_eq!(hex_to_rgb("#é1234"), Rgb { r: 0, g: 0x12, b: 0x34 });
}

#[test]
fn cache_prunes_stale_entries_only_when_full() {
    let now = std::time::Instant::now();
    let mut c = InfoCache::new();
    for i in 0..50u64 {
        c.insert_with_ages(format!("k{}", i), media(MediaType::Video, 0, Some(i)), now, &vec![]);
    }
    assert_eq!(c.len(), 50);
    // replacing an entry of a full cache does not prune
    assert!(!c.prunes_on_insert("k3"));
    // a new address would overflow the bound: stale entries go
    assert!(c.prunes_on_insert("new"));
    let ages: Vec<u128> = (0..50u128).map(|i| if i % 2 == 0 { 600_000 } else { 599_999 }).collect();
    c.insert_with_ages("new".to_string(), media(MediaType::Video, 0, Some(99)), now, &ages);
    assert_eq!(c.len(), 26);
    assert!(c.find("k0").is_none());
    assert!(c.find("k1").is_some());
    let last = c.find("new").unwrap();
    assert_eq!(last, 25);
    assert_eq!(c.info_if_fresh(last, 0).unwrap().file_size_bytes, Some(99));
    assert!(c.info_if_fresh(last, 600_000).is_none());
}

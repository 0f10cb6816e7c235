use mangofetch::gui::{remove_command, toggle_command, CoreEvent, GuiCommand, GuiMediaInfo, GuiQueueItem, MangoFetchApp, Tab, MAX_LOG_LINES};
use mangofetch::theme::BrandPreset;

fn row(id: u64, status: &str) -> GuiQueueItem {
    GuiQueueItem {
        id,
        platform: "youtube".to_string(),
        title: format!("video {}", id),
        status: status.to_string(),
        progress_bits: 0,
        speed_bits: 0,
        eta_seconds: None,
    }
}

#[test]
fn start_up_state_and_commands() {
    let app = MangoFetchApp::new("/downloads".to_string());
    assert_eq!(app.current_tab, Tab::Home);
    assert_eq!(app.theme, BrandPreset::PlasmCore);
    assert_eq!(app.selected_quality, "Best");
    assert_eq!(app.concurrent_limit, 3);
    assert!(app.auto_retry);
    let cmds = MangoFetchApp::initial_commands();
    assert!(matches!(cmds[0], GuiCommand::CheckDependencies));
    assert!(matches!(cmds[1], GuiCommand::RefreshQueue));
}

#[test]
fn events_update_rows_and_log() {
    let mut app = MangoFetchApp::new("/d".to_string());
    app.drain_events(vec![
        CoreEvent::QueueUpdated(vec![row(1, "Active"), row(2, "Active")]),
        CoreEvent::DownloadProgress { id: 2, progress_bits: 50f64.to_bits(), speed_bits: 3f64.to_bits(), eta_seconds: Some(9) },
        CoreEvent::DownloadComplete { id: 1, title: "Song".to_string() },
        CoreEvent::DownloadError { id: 2, error: "boom".to_string() },
        CoreEvent::DownloadError { id: 77, error: "ignored".to_string() },
        CoreEvent::DependencyStatus { ytdlp: true, ffmpeg: false },
        CoreEvent::LogLine("hello".to_string()),
    ]);
    assert_eq!(app.items[0].status, "Complete");
    assert_eq!(f64::from_bits(app.items[0].progress_bits), 100.0);
    assert_eq!(app.items[1].status, "Error");
    assert_eq!(f64::from_bits(app.items[1].progress_bits), 50.0);
    assert_eq!(app.items[1].eta_seconds, Some(9));
    assert_eq!(
        app.logs,
        vec![
            "✓ [Song] Completed successfully".to_string(),
            "✗ [ID #2] Error: boom".to_string(),
            "hello".to_string(),
        ]
    );
    assert!(app.ytdlp_installed && !app.ffmpeg_installed);
}

#[test]
fn log_stream_is_capped() {
    let mut app = MangoFetchApp::new("/d".to_string());
    for i in 0..(MAX_LOG_LINES + 5) {
        app.apply_event(CoreEvent::LogLine(format!("line {}", i)));
    }
    assert_eq!(app.logs.len(), MAX_LOG_LINES);
    assert_eq!(app.logs[0], "line 5");
    assert_eq!(app.logs[MAX_LOG_LINES - 1], format!("line {}", MAX_LOG_LINES + 4));
}

#[test]
fn preview_and_enqueue_flow() {
    let mut app = MangoFetchApp::new("/d".to_string());
    assert!(app.fetch_preview().is_none());
    assert!(app.enqueue_download().is_none());
    app.input_url = "https://v".to_string();
    match app.fetch_preview() {
        Some(GuiCommand::FetchMediaInfo { url }) => assert_eq!(url, "https://v"),
        other => panic!("unexpected {:?}", other),
    }
    assert!(app.media_info_loading);
    app.apply_event(CoreEvent::MediaInfoFetched(Ok(GuiMediaInfo {
        title: "T".to_string(),
        platform: "youtube".to_string(),
        duration_seconds: Some(61),
    })));
    assert!(!app.media_info_loading);
    assert!(app.media_info.is_some());
    app.apply_event(CoreEvent::MediaInfoFetched(Err("bad".to_string())));
    assert_eq!(app.media_info_error.as_deref(), Some("bad"));
    app.audio_only = true;
    match app.enqueue_download() {
        Some(GuiCommand::StartDownload { url, output_dir, quality, audio_only }) => {
            assert_eq!(url, "https://v");
            assert_eq!(output_dir, "/d");
            assert_eq!(quality.as_deref(), Some("Best"));
            assert!(audio_only);
        }
        other => panic!("unexpected {:?}", other),
    }
    assert!(app.input_url.is_empty());
    assert_eq!(app.current_tab, Tab::Queue);
    assert_eq!(app.logs.last().map(|s| s.as_str()), Some("Enqueued download: https://v"));
}

#[test]
fn opening_the_queue_refreshes_it() {
    let mut app = MangoFetchApp::new("/d".to_string());
    assert!(matches!(app.select_tab(Tab::Queue), Some(GuiCommand::RefreshQueue)));
    assert!(app.select_tab(Tab::Logs).is_none());
    assert_eq!(app.current_tab, Tab::Logs);
}

#[test]
fn row_controls_follow_the_status() {
    assert!(matches!(toggle_command(&row(4, "Active")), Some(GuiCommand::PauseDownload { id: 4 })));
    assert!(matches!(toggle_command(&row(5, "Paused")), Some(GuiCommand::ResumeDownload { id: 5 })));
    assert!(toggle_command(&row(6, "Queued")).is_none());
    assert!(matches!(remove_command(&row(7, "Complete")), GuiCommand::RemoveDownload { id: 7 }));
}

#[test]
fn top_bar_counts_running_downloads() {
    let mut app = MangoFetchApp::new("/downloads".to_string());
    assert_eq!(app.active_download_count(), 0);
    assert_eq!(app.active_downloads_label(), "ACTIVE DOWNLOADS: 0");
    app.apply_event(CoreEvent::QueueUpdated(vec![
        row(1, "Active"),
        row(2, "Paused"),
        row(3, "Active"),
        row(4, "Complete"),
    ]));
    assert_eq!(app.active_download_count(), 2);
    assert_eq!(app.active_downloads_label(), "ACTIVE DOWNLOADS: 2");
}

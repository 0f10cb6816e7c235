use vstd::prelude::*;
use std::collections::HashMap;
use std::path::PathBuf;
use tokio_util::sync::CancellationToken;
use crate::media::MediaInfo;
use crate::status::QueueStatus;
use crate::text::owned_text;

verus! {

/// Bit pattern of the `f64` value `0.0`, the percentage and speed of a fresh item.
pub const ZERO_F64_BITS: u64 = 0;

/// Bit pattern of the `f64` value `100.0`, the percentage of a finished download.
pub const HUNDRED_F64_BITS: u64 = 0x4059_0000_0000_0000;

/// Immutable configuration for a download, set at enqueue time.
pub struct QueueItemConfig {
    pub url: String,
    pub platform: String,
    pub title: String,
    pub output_dir: String,
    pub download_mode: Option<String>,
    pub quality: Option<String>,
    pub video_format: Option<String>,
    pub audio_format: Option<String>,
    pub audio_quality: Option<String>,
    pub format_id: Option<String>,
    pub referer: Option<String>,
    pub extra_headers: Option<HashMap<String, String>>,
    pub page_url: Option<String>,
    pub user_agent: Option<String>,
    pub download_subtitles: Option<bool>,
    pub ytdlp_path: Option<PathBuf>,
    pub from_hotkey: bool,
}

/// Mutable runtime state for an in-progress download.
///
/// The percentage and the speed are `f64` values in the application; the
/// queue stores and resets them as their bit patterns and never computes on them.
#[derive(Debug, Clone)]
pub struct QueueItemProgress {
    pub percent_bits: u64,
    pub speed_bits: u64,
    pub downloaded_bytes: u64,
    pub total_bytes: Option<u64>,
    pub file_path: Option<String>,
    pub file_size_bytes: Option<u64>,
    pub file_count: Option<u32>,
    pub media_info: Option<MediaInfo>,
    pub torrent_id: Option<usize>,
    pub phase: String,
    /// The title that fetched media information gave the item; the interface
    /// and the recovery record show it in place of the configured title.
    pub fetched_title: Option<String>,
}

impl QueueItemProgress {
    /// The state of an item that has not started: nothing measured, phase `Queued`.
    pub open spec fn is_initial(self) -> bool {
        &&& self.percent_bits == ZERO_F64_BITS
        &&& self.speed_bits == ZERO_F64_BITS
        &&& self.downloaded_bytes == 0
        &&& self.total_bytes is None
        &&& self.file_path is None
        &&& self.file_size_bytes is None
        &&& self.file_count is None
        &&& self.media_info is None
        &&& self.torrent_id is None
        &&& self.phase@ == "Queued"@
        &&& self.fetched_title is None
    }

    /// The state of a freshly enqueued item that comes with what is already
    /// known of its size, its file count and its media.
    pub open spec fn is_enqueued_with(
        self,
        total_bytes: Option<u64>,
        file_count: Option<u32>,
        media_info: Option<MediaInfo>,
    ) -> bool {
        &&& self.percent_bits == ZERO_F64_BITS
        &&& self.speed_bits == ZERO_F64_BITS
        &&& self.downloaded_bytes == 0
        &&& self.total_bytes == total_bytes
        &&& self.file_path is None
        &&& self.file_size_bytes is None
        &&& self.file_count == file_count
        &&& self.media_info == media_info
        &&& self.torrent_id is None
        &&& self.phase@ == "Queued"@
        &&& self.fetched_title is None
    }

    /// A fresh progress record holding what is already known.
    pub fn enqueued_with(
        total_bytes: Option<u64>,
        file_count: Option<u32>,
        media_info: Option<MediaInfo>,
    ) -> (p: QueueItemProgress)
        ensures
            p.is_enqueued_with(total_bytes, file_count, media_info),
    {
        QueueItemProgress {
            percent_bits: ZERO_F64_BITS,
            speed_bits: ZERO_F64_BITS,
            downloaded_bytes: 0,
            total_bytes,
            file_path: None,
            file_size_bytes: None,
            file_count,
            media_info,
            torrent_id: None,
            phase: owned_text("Queued"),
            fetched_title: None,
        }
    }
}

impl Default for QueueItemProgress {
    fn default() -> (p: Self)
        ensures
            p.is_initial(),
    {
        QueueItemProgress::enqueued_with(None, None, None)
    }
}

/// One download in the queue.
pub struct QueueItem {
    pub id: u64,
    pub status: QueueStatus,
    /// The token that the item's running download watches.
    pub cancel_token: CancellationToken,
    /// Whether a stop has been signalled on `cancel_token`: set where the
    /// token is cancelled (`signal_stop`), cleared where the item gets a new
    /// token (`renew_token`). The flag records that those calls were made;
    /// the token's own state is not modelled, so nothing checks the flag
    /// against it.
    pub stop_requested: Ghost<bool>,
    pub config: QueueItemConfig,
    pub progress: QueueItemProgress,
}

/// What the interface shows of one queue item.
#[derive(Debug, Clone)]
pub struct QueueItemInfo {
    pub id: u64,
    pub url: String,
    pub platform: String,
    pub title: String,
    pub status: QueueStatus,
    pub percent_bits: u64,
    pub speed_bits: u64,
    pub downloaded_bytes: u64,
    pub total_bytes: Option<u64>,
    pub phase: String,
    pub file_path: Option<String>,
    pub file_size_bytes: Option<u64>,
    pub file_count: Option<u32>,
    pub thumbnail_url: Option<String>,
}

/// What is written to disk for an item, so that the queue survives a restart.
#[derive(Debug, Clone)]
pub struct RecoveryItem {
    pub id: u64,
    pub url: String,
    pub title: String,
    pub platform: String,
    pub output_dir: String,
    pub status: QueueStatus,
    pub download_mode: Option<String>,
    pub quality: Option<String>,
    pub format_id: Option<String>,
    pub referer: Option<String>,
    pub file_path: Option<String>,
    pub file_size_bytes: Option<u64>,
}

/// A copy of an optional string.
pub fn copy_opt_string(o: &Option<String>) -> (r: Option<String>)
    ensures
        r == *o,
{
    match o {
        Some(s) => Some(s.clone()),
        None => None,
    }
}

/// `after` is `before` holding a new cancellation token on which no stop has
/// been signalled; nothing else changes.
pub open spec fn renewed_token(before: QueueItem, after: QueueItem) -> bool {
    &&& after == (QueueItem {
        cancel_token: after.cancel_token,
        stop_requested: after.stop_requested,
        ..before
    })
    &&& !after.stop_requested@
}

/// `after` is `before` with a stop signalled on its token; nothing else changes.
pub open spec fn stop_signalled(before: QueueItem, after: QueueItem) -> bool {
    &&& after == (QueueItem { stop_requested: after.stop_requested, ..before })
    &&& after.stop_requested@
}

impl QueueItem {
    /// Tells the item's running download to stop: its token is cancelled
    /// and the flag set. The contract speaks of the flag only; that the
    /// token is cancelled rests on the call in the body, which is unchecked.
    pub fn signal_stop(&mut self)
        ensures
            stop_signalled(*old(self), *final(self)),
    {
        self.cancel_token.cancel();
        self.stop_requested = Ghost(true);
    }

    /// Gives the item a new cancellation token, on which no stop has been
    /// signalled, and clears the flag (the new token's own state is not
    /// modelled).
    pub fn renew_token(&mut self)
        ensures
            renewed_token(*old(self), *final(self)),
    {
        self.cancel_token = CancellationToken::new();
        self.stop_requested = Ghost(false);
    }

    /// The title shown for the item: the one its media information gave, or
    /// else the one it was enqueued with.
    pub open spec fn spec_title(self) -> String {
        match self.progress.fetched_title {
            Some(t) => t,
            None => self.config.title,
        }
    }

    /// A copy of the title shown for the item.
    pub fn title(&self) -> (t: String)
        ensures
            t == self.spec_title(),
    {
        match &self.progress.fetched_title {
            Some(t) => t.clone(),
            None => self.config.title.clone(),
        }
    }

    /// The thumbnail of the item's media, when known.
    pub open spec fn spec_thumbnail(self) -> Option<String> {
        match self.progress.media_info {
            Some(m) => m.thumbnail_url,
            None => None,
        }
    }

    /// What the interface shows of this item.
    pub open spec fn spec_info(self) -> QueueItemInfo {
        QueueItemInfo {
            id: self.id,
            url: self.config.url,
            platform: self.config.platform,
            title: self.spec_title(),
            status: self.status,
            percent_bits: self.progress.percent_bits,
            speed_bits: self.progress.speed_bits,
            downloaded_bytes: self.progress.downloaded_bytes,
            total_bytes: self.progress.total_bytes,
            phase: self.progress.phase,
            file_path: self.progress.file_path,
            file_size_bytes: self.progress.file_size_bytes,
            file_count: self.progress.file_count,
            thumbnail_url: self.spec_thumbnail(),
        }
    }

    /// What is persisted of this item.
    pub open spec fn spec_recovery(self) -> RecoveryItem {
        RecoveryItem {
            id: self.id,
            url: self.config.url,
            title: self.spec_title(),
            platform: self.config.platform,
            output_dir: self.config.output_dir,
            status: self.status,
            download_mode: self.config.download_mode,
            quality: self.config.quality,
            format_id: self.config.format_id,
            referer: self.config.referer,
            file_path: self.progress.file_path,
            file_size_bytes: self.progress.file_size_bytes,
        }
    }

    /// The interface's view of this item.
    pub fn to_info(&self) -> (info: QueueItemInfo)
        ensures
            info == self.spec_info(),
    {
        let thumbnail_url = match &self.progress.media_info {
            Some(m) => copy_opt_string(&m.thumbnail_url),
            None => None,
        };
        QueueItemInfo {
            id: self.id,
            url: self.config.url.clone(),
            platform: self.config.platform.clone(),
            title: self.title(),
            status: self.status.duplicate(),
            percent_bits: self.progress.percent_bits,
            speed_bits: self.progress.speed_bits,
            downloaded_bytes: self.progress.downloaded_bytes,
            total_bytes: self.progress.total_bytes,
            phase: self.progress.phase.clone(),
            file_path: copy_opt_string(&self.progress.file_path),
            file_size_bytes: self.progress.file_size_bytes,
            file_count: self.progress.file_count,
            thumbnail_url,
        }
    }

    /// The record to persist for this item after every change.
    pub fn to_recovery(&self) -> (r: RecoveryItem)
        ensures
            r == self.spec_recovery(),
    {
        RecoveryItem {
            id: self.id,
            url: self.config.url.clone(),
            title: self.title(),
            platform: self.config.platform.clone(),
            output_dir: self.config.output_dir.clone(),
            status: self.status.duplicate(),
            download_mode: copy_opt_string(&self.config.download_mode),
            quality: copy_opt_string(&self.config.quality),
            format_id: copy_opt_string(&self.config.format_id),
            referer: copy_opt_string(&self.config.referer),
            file_path: copy_opt_string(&self.progress.file_path),
            file_size_bytes: self.progress.file_size_bytes,
        }
    }
}

} // verus!

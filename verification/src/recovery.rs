use vstd::prelude::*;
use tokio_util::sync::CancellationToken;
use crate::item::{
    QueueItem, QueueItemConfig, QueueItemProgress, RecoveryItem, HUNDRED_F64_BITS, ZERO_F64_BITS,
};
use crate::queue::{position_of, same_limits, DownloadQueue};
use crate::status::QueueStatus;

verus! {

/// The status a recovered item resumes in: what was running comes back paused.
pub open spec fn restored_status(s: QueueStatus) -> QueueStatus {
    match s {
        QueueStatus::Active | QueueStatus::Seeding => QueueStatus::Paused,
        other => other,
    }
}

/// `item` is the queue item rebuilt from the persisted record `r`.
pub open spec fn restored(r: RecoveryItem, item: QueueItem) -> bool {
    &&& item.id == r.id
    &&& item.status == restored_status(r.status)
    &&& item.config == (QueueItemConfig {
        url: r.url,
        platform: r.platform,
        title: r.title,
        output_dir: r.output_dir,
        download_mode: r.download_mode,
        quality: r.quality,
        video_format: None,
        audio_format: None,
        audio_quality: None,
        format_id: r.format_id,
        referer: r.referer,
        extra_headers: None,
        page_url: None,
        user_agent: None,
        download_subtitles: None,
        ytdlp_path: None,
        from_hotkey: false,
    })
    &&& item.progress.percent_bits == if r.status == (QueueStatus::Complete { success: true }) {
        HUNDRED_F64_BITS
    } else {
        ZERO_F64_BITS
    }
    &&& item.progress.speed_bits == ZERO_F64_BITS
    &&& item.progress.downloaded_bytes == 0
    &&& item.progress.total_bytes == r.file_size_bytes
    &&& item.progress.file_path == r.file_path
    &&& item.progress.file_size_bytes == r.file_size_bytes
    &&& item.progress.file_count is None
    &&& item.progress.media_info is None
    &&& item.progress.torrent_id is None
    &&& item.progress.phase@ == "Queued"@
    &&& item.progress.fetched_title is None
    &&& !item.stop_requested@
}

/// Rebuilds a queue item from its persisted record.
pub fn restore_item(r: RecoveryItem) -> (item: QueueItem)
    ensures
        restored(r, item),
{
    let done = matches!(r.status, QueueStatus::Complete { success: true });
    let percent_bits = if done {
        HUNDRED_F64_BITS
    } else {
        ZERO_F64_BITS
    };
    let status = match r.status {
        QueueStatus::Active | QueueStatus::Seeding => QueueStatus::Paused,
        other => other,
    };
    let mut progress = QueueItemProgress::enqueued_with(r.file_size_bytes, None, None);
    progress.percent_bits = percent_bits;
    progress.file_path = r.file_path;
    progress.file_size_bytes = r.file_size_bytes;
    QueueItem {
        id: r.id,
        status,
        cancel_token: CancellationToken::new(),
        stop_requested: Ghost(false),
        config: QueueItemConfig {
            url: r.url,
            platform: r.platform,
            title: r.title,
            output_dir: r.output_dir,
            download_mode: r.download_mode,
            quality: r.quality,
            video_format: None,
            audio_format: None,
            audio_quality: None,
            format_id: r.format_id,
            referer: r.referer,
            extra_headers: None,
            page_url: None,
            user_agent: None,
            download_subtitles: None,
            ytdlp_path: None,
            from_hotkey: false,
        },
        progress,
    }
}

impl DownloadQueue {
    /// Appends the items persisted before a restart, in order; the caller
    /// passes only the records whose platform it can still serve.
    pub fn load_from_recovery(&mut self, recovered: Vec<RecoveryItem>)
        ensures
            same_limits(*old(self), *final(self)),
            final(self).items@.len() == old(self).items@.len() + recovered@.len(),
            final(self).items@.take(old(self).items@.len() as int) == old(self).items@,
            forall|k: int|
                0 <= k < recovered@.len() ==> restored(
                    recovered@[k],
                    #[trigger] final(self).items@[old(self).items@.len() + k],
                ),
    {
        let ghost start = self.items@;
        let ghost orig = recovered@;
        let mut rest = recovered;
        let n = rest.len();
        let mut k: usize = 0;
        while k < n
            invariant
                n == orig.len(),
                k <= n,
                rest@ == orig.subrange(k as int, n as int),
                self.items@.len() == start.len() + k,
                self.items@.take(start.len() as int) == start,
                forall|m: int|
                    0 <= m < k ==> restored(orig[m], #[trigger] self.items@[start.len() + m]),
                same_limits(*old(self), *self),
            decreases n - k,
        {
            let r = rest.remove(0);
            self.items.push(restore_item(r));
            k = k + 1;
            assert(rest@ =~= orig.subrange(k as int, n as int));
            assert(self.items@.take(start.len() as int) =~= start);
        }
    }

    /// The record to persist for the item that `id` names.
    pub fn recovery_record(&self, id: u64) -> (r: Option<RecoveryItem>)
        ensures
            match position_of(self.items@, id) {
                Some(i) => r == Some(self.items@[i].spec_recovery()),
                None => r is None,
            },
    {
        match self.find_index(id) {
            Some(i) => Some(self.items[i].to_recovery()),
            None => None,
        }
    }
}

} // verus!

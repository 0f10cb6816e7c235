use vstd::prelude::*;
use crate::queue::{
    at_most, free_slots, is_first_with_id, lemma_position_iff_has_id, lemma_position_is_first,
    position_of, queued_ids, same_limits, DownloadQueue,
};
use crate::item::{renewed_token, QueueItem, QueueItemProgress};
use crate::media::MediaInfo;
use crate::queue::{completes, seeds, target_is};
use crate::errors::{user_error_message, user_message_text};
use crate::text::owned_text;
use crate::status::QueueStatus;
use crate::text::same_text;

verus! {

/// Wait before a youtube download of a batch other than the first one.
pub const YOUTUBE_STAGGER_MS: u64 = 2000;

/// Least wait between the starts of a large batch.
pub const LARGE_BATCH_STAGGER_MS: u64 = 1000;

/// Batches above this size are started more slowly.
pub const LARGE_BATCH_SIZE: usize = 3;

/// One download to start, after waiting `delay_ms` milliseconds.
#[derive(Debug, Clone, Copy, PartialEq, Eq, Structural)]
pub struct StartPlan {
    pub id: u64,
    pub delay_ms: u64,
}

/// The two sequences carry the same ids at the same positions.
pub open spec fn same_ids(a: Seq<QueueItem>, b: Seq<QueueItem>) -> bool {
    a.len() == b.len() && forall|j: int| 0 <= j < a.len() ==> #[trigger] a[j].id == b[j].id
}

/// Operations find the same position in sequences with the same ids.
pub proof fn lemma_position_same_ids(a: Seq<QueueItem>, b: Seq<QueueItem>, id: u64)
    requires
        same_ids(a, b),
    ensures
        position_of(a, id) == position_of(b, id),
{
    lemma_position_iff_has_id(a, id);
    lemma_position_iff_has_id(b, id);
    if let Some(i) = position_of(a, id) {
        assert(a[i].id == b[i].id);
        assert forall|j: int| 0 <= j < i implies b[j].id != id by {
            assert(a[j].id == b[j].id);
        }
        assert(is_first_with_id(b, id, i));
        lemma_position_is_first(b, id, i);
    } else if let Some(i) = position_of(b, id) {
        assert(a[i].id == b[i].id);
        assert forall|j: int| 0 <= j < i implies a[j].id != id by {
            assert(a[j].id == b[j].id);
        }
        assert(is_first_with_id(a, id, i));
        lemma_position_is_first(a, id, i);
    }
}

/// The item of a batch is served by the youtube platform.
pub open spec fn is_youtube(items: Seq<QueueItem>, id: u64) -> bool {
    match position_of(items, id) {
        Some(i) => items[i].config.platform@ == "youtube"@,
        None => false,
    }
}

/// How long to wait before starting the `index`-th download of a batch.
pub open spec fn start_delay(items: Seq<QueueItem>, id: u64, index: int, batch: nat, stagger: u64) -> u64 {
    if index == 0 {
        0
    } else if is_youtube(items, id) {
        YOUTUBE_STAGGER_MS
    } else if batch > LARGE_BATCH_SIZE {
        if stagger > LARGE_BATCH_STAGGER_MS {
            stagger
        } else {
            LARGE_BATCH_STAGGER_MS
        }
    } else {
        stagger
    }
}

/// Position `j` is where starting one of the batch's ids lands.
pub open spec fn started_at(items: Seq<QueueItem>, ids: Seq<u64>, j: int) -> bool {
    exists|k: int| 0 <= k < ids.len() && position_of(items, #[trigger] ids[k]) == Some(j)
}

/// `after` is `before` with the batch `ids` started one after the other.
pub open spec fn batch_started(before: Seq<QueueItem>, after: Seq<QueueItem>, ids: Seq<u64>) -> bool {
    &&& after.len() == before.len()
    &&& forall|j: int|
        0 <= j < before.len() ==> if started_at(before, ids, j) {
            renewed_token(
                QueueItem { status: QueueStatus::Active, ..before[j] },
                #[trigger] after[j],
            )
        } else {
            after[j] == before[j]
        }
}

impl DownloadQueue {
    /// Whether the item is paused.
    pub fn is_paused(&self, id: u64) -> (b: bool)
        ensures
            b == (position_of(self.items@, id) matches Some(i) && self.items@[i].status is Paused),
    {
        match self.find_index(id) {
            Some(i) => matches!(self.items[i].status, QueueStatus::Paused),
            None => false,
        }
    }

    /// Starts as many waiting downloads as there are free slots: marks them
    /// active and returns them in queue order with the wait before each start.
    pub fn start_next_batch(&mut self) -> (plans: Vec<StartPlan>)
        ensures
            same_limits(*old(self), *final(self)),
            ({
                let ids = at_most(
                    queued_ids(old(self).items@),
                    free_slots(old(self).max_concurrent, old(self).items@),
                );
                &&& plans@.len() == ids.len()
                &&& forall|k: int|
                    0 <= k < ids.len() ==> (#[trigger] plans@[k]).id == ids[k] && plans@[k].delay_ms
                        == start_delay(
                        old(self).items@,
                        ids[k],
                        k,
                        ids.len(),
                        old(self).stagger_delay_ms,
                    )
                &&& batch_started(old(self).items@, final(self).items@, ids)
            }),
    {
        let ghost orig = self.items@;
        let ids = self.next_queued_ids();
        let batch = ids.len();
        let mut k: usize = 0;
        while k < batch
            invariant
                batch == ids@.len(),
                k <= batch,
                same_limits(*old(self), *self),
                same_ids(orig, self.items@),
                forall|j: int|
                    0 <= j < orig.len() ==> if started_at(orig, ids@.take(k as int), j) {
                        renewed_token(
                            QueueItem { status: QueueStatus::Active, ..orig[j] },
                            #[trigger] self.items@[j],
                        )
                    } else {
                        self.items@[j] == orig[j]
                    },
            decreases batch - k,
        {
            let id = ids[k];
            let ghost before = self.items@;
            proof {
                lemma_position_same_ids(orig, before, id);
            }
            self.mark_active(id);
            proof {
                assert forall|j: int| 0 <= j < orig.len() implies if started_at(
                    orig,
                    ids@.take(k + 1),
                    j,
                ) {
                    renewed_token(
                        QueueItem { status: QueueStatus::Active, ..orig[j] },
                        #[trigger] self.items@[j],
                    )
                } else {
                    self.items@[j] == orig[j]
                } by {
                    let prev = ids@.take(k as int);
                    let next = ids@.take(k + 1);
                    if position_of(orig, id) == Some(j) {
                        assert(next[k as int] == id);
                        assert(started_at(orig, next, j));
                    } else {
                        if started_at(orig, next, j) {
                            let kk = choose|kk: int|
                                0 <= kk < next.len() && position_of(orig, #[trigger] next[kk])
                                    == Some(j);
                            assert(kk != k);
                            assert(prev[kk] == next[kk]);
                            assert(started_at(orig, prev, j));
                        } else {
                            if started_at(orig, prev, j) {
                                let kk = choose|kk: int|
                                    0 <= kk < prev.len() && position_of(orig, #[trigger] prev[kk])
                                        == Some(j);
                                assert(next[kk] == prev[kk]);
                            }
                        }
                    }
                }
                assert(same_ids(orig, self.items@));
            }
            k = k + 1;
        }
        assert(ids@.take(batch as int) =~= ids@);
        assert forall|j: int| 0 <= j < orig.len() implies #[trigger] self.items@[j].config
            == orig[j].config by {
            if started_at(orig, ids@, j) {
                assert(renewed_token(
                    QueueItem { status: QueueStatus::Active, ..orig[j] },
                    self.items@[j],
                ));
            }
        }
        let mut plans: Vec<StartPlan> = Vec::new();
        let mut k: usize = 0;
        while k < batch
            invariant
                batch == ids@.len(),
                k <= batch,
                plans@.len() == k,
                same_ids(orig, self.items@),
                forall|j: int| 0 <= j < orig.len() ==> #[trigger] self.items@[j].config == orig[j].config,
                forall|m: int|
                    0 <= m < k ==> (#[trigger] plans@[m]).id == ids@[m] && plans@[m].delay_ms
                        == start_delay(orig, ids@[m], m, batch as nat, self.stagger_delay_ms),
            decreases batch - k,
        {
            let id = ids[k];
            let delay_ms = if k == 0 {
                0
            } else if self.platform_is(id, "youtube") {
                YOUTUBE_STAGGER_MS
            } else if batch > LARGE_BATCH_SIZE {
                if self.stagger_delay_ms > LARGE_BATCH_STAGGER_MS {
                    self.stagger_delay_ms
                } else {
                    LARGE_BATCH_STAGGER_MS
                }
            } else {
                self.stagger_delay_ms
            };
            proof {
                lemma_position_same_ids(orig, self.items@, id);
            }
            plans.push(StartPlan { id, delay_ms });
            k = k + 1;
        }
        plans
    }

    /// Whether the item with this id is served by the named platform.
    pub fn platform_is(&self, id: u64, platform: &str) -> (b: bool)
        ensures
            b == (position_of(self.items@, id) matches Some(i) && self.items@[i].config.platform@
                == platform@),
    {
        match self.find_index(id) {
            Some(i) => same_text(self.items[i].config.platform.as_str(), platform),
            None => false,
        }
    }
}

/// What fetching the media information of an item came to.
pub enum InfoFetch {
    /// The information is at hand, pre-fetched or just fetched.
    Ready(MediaInfo),
    /// The platform reported an error.
    Failed(String),
    /// The platform did not answer in time.
    TimedOut,
}

/// How a download ended.
pub enum DownloadOutcome {
    /// The file is on disk; a torrent also reports its session.
    Finished { file_path: String, file_size_bytes: u64, torrent_id: Option<usize> },
    /// The download failed with this raw message.
    Failed { message: String },
}

/// The error an item keeps when its information could not be fetched in time.
pub open spec fn info_timeout_text() -> Seq<char> {
    "Timed out fetching video info"@
}

/// The error an item keeps when its download ended without a proper release.
pub open spec fn interrupted_text() -> Seq<char> {
    "Download interrupted"@
}

/// `after` is `before` once its media information is known: the item shows
/// the fetched title, while its configuration stays as it was enqueued.
pub open spec fn with_media(before: QueueItem, after: QueueItem, info: MediaInfo) -> bool {
    &&& after.id == before.id
    &&& after.status == before.status
    &&& after.cancel_token == before.cancel_token
    &&& after.stop_requested == before.stop_requested
    &&& after.config == before.config
    &&& after.progress == (QueueItemProgress {
        fetched_title: Some(info.title),
        total_bytes: info.file_size_bytes,
        file_count: Some(info.spec_file_count()),
        media_info: Some(info),
        ..before.progress
    })
}

/// Metadata is written into the file only where the settings ask for it and
/// the download is not a torrent (the check that FFmpeg is present comes after).
pub open spec fn spec_wants_metadata_embed(embed_setting: bool, platform: Seq<char>) -> bool {
    embed_setting && platform != "magnet"@
}

/// Whether to write metadata into the downloaded file.
pub fn wants_metadata_embed(embed_setting: bool, platform: &str) -> (b: bool)
    ensures
        b == spec_wants_metadata_embed(embed_setting, platform@),
{
    embed_setting && !same_text(platform, "magnet")
}

/// Whether to put the downloaded file on the clipboard: only for downloads
/// started from the hotkey, when the settings ask for it.
pub fn wants_clipboard_copy(from_hotkey: bool, copy_setting: bool) -> (b: bool)
    ensures
        b == (from_hotkey && copy_setting),
{
    from_hotkey && copy_setting
}

impl DownloadQueue {
    /// A download ended without releasing its slot: if the item is still
    /// running it fails with "Download interrupted". Returns whether it did.
    pub fn release_interrupted(&mut self, id: u64) -> (released: bool)
        ensures
            same_limits(*old(self), *final(self)),
            released == target_is(old(self).items@, id, |it: QueueItem| it.status is Active),
            released ==> completes(
                old(self).items@,
                final(self).items@,
                id,
                false,
                Some(interrupted_text()),
                None,
                None,
            ),
            !released ==> final(self).items@ == old(self).items@,
    {
        let still_active = match self.find_index(id) {
            Some(i) => matches!(self.items[i].status, QueueStatus::Active),
            None => false,
        };
        if !still_active {
            return false;
        }
        self.mark_complete(id, false, Some(owned_text("Download interrupted")), None, None);
        true
    }

    /// Records what fetching the media information came to. Information at
    /// hand gives the item the title it shows and fixes its size and file
    /// count (its configuration is left as enqueued), and a copy is returned;
    /// a failure or a timeout fails the item and returns `None`.
    pub fn record_info_fetch(&mut self, id: u64, fetch: InfoFetch) -> (r: Option<MediaInfo>)
        ensures
            same_limits(*old(self), *final(self)),
            match fetch {
                InfoFetch::Ready(info) => {
                    &&& r matches Some(m) && m@ == info@
                    &&& match position_of(old(self).items@, id) {
                        None => final(self).items@ == old(self).items@,
                        Some(i) => {
                            &&& final(self).items@ == old(self).items@.update(i, final(self).items@[i])
                            &&& with_media(old(self).items@[i], final(self).items@[i], info)
                        },
                    }
                },
                InfoFetch::Failed(message) => {
                    &&& r is None
                    &&& completes(old(self).items@, final(self).items@, id, false, Some(message@), None, None)
                },
                InfoFetch::TimedOut => {
                    &&& r is None
                    &&& completes(old(self).items@, final(self).items@, id, false, Some(info_timeout_text()), None, None)
                },
            },
    {
        match fetch {
            InfoFetch::Ready(info) => {
                let copy = info.duplicate();
                if let Some(i) = self.find_index(id) {
                    let item = &mut self.items[i];
                    item.progress.fetched_title = Some(info.title.clone());
                    item.progress.total_bytes = info.file_size_bytes;
                    item.progress.file_count = Some(info.file_count());
                    item.progress.media_info = Some(info);
                }
                Some(copy)
            },
            InfoFetch::Failed(message) => {
                self.mark_complete(id, false, Some(message), None, None);
                None
            },
            InfoFetch::TimedOut => {
                self.mark_complete(id, false, Some(owned_text("Timed out fetching video info")), None, None);
                None
            },
        }
    }

    /// Records how a download ended. A torrent that reports its session keeps
    /// seeding; any other finished download completes. A failure fails the item
    /// with the message shown to the user, which is also returned.
    pub fn record_download_result(&mut self, id: u64, platform: &str, outcome: DownloadOutcome) -> (shown: Option<String>)
        ensures
            same_limits(*old(self), *final(self)),
            match outcome {
                DownloadOutcome::Finished { file_path, file_size_bytes, torrent_id } => {
                    &&& shown is None
                    &&& if platform@ == "magnet"@ && torrent_id is Some {
                        seeds(old(self).items@, final(self).items@, id, Some(file_path), Some(file_size_bytes), torrent_id)
                    } else {
                        completes(old(self).items@, final(self).items@, id, true, None, Some(file_path), Some(file_size_bytes))
                    }
                },
                DownloadOutcome::Failed { message } => {
                    &&& shown matches Some(m) && m@ == user_message_text(message@)
                    &&& completes(old(self).items@, final(self).items@, id, false, Some(user_message_text(message@)), None, None)
                },
            },
    {
        match outcome {
            DownloadOutcome::Finished { file_path, file_size_bytes, torrent_id } => {
                if same_text(platform, "magnet") && torrent_id.is_some() {
                    self.mark_seeding(id, Some(file_path), Some(file_size_bytes), torrent_id);
                } else {
                    self.mark_complete(id, true, None, Some(file_path), Some(file_size_bytes));
                }
                None
            },
            DownloadOutcome::Failed { message } => {
                let shown = user_error_message(message.as_str());
                self.mark_complete(id, false, Some(shown.clone()), None, None);
                Some(shown)
            },
        }
    }
}

} // verus!

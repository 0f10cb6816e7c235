use vstd::prelude::*;
use std::collections::HashMap;
use std::path::PathBuf;
use tokio_util::sync::CancellationToken;
use crate::item::{
    renewed_token, stop_signalled, QueueItem, QueueItemConfig, QueueItemInfo, QueueItemProgress,
    HUNDRED_F64_BITS, ZERO_F64_BITS,
};
use crate::media::MediaInfo;
use crate::request::EnqueueRequest;
use crate::status::QueueStatus;
use crate::text::same_text;

verus! {

/// The pause between starting two downloads of one batch, unless a rule says otherwise.
pub const DEFAULT_STAGGER_DELAY_MS: u64 = 150;

/// The ordered list of downloads and how many may run at once.
pub struct DownloadQueue {
    pub items: Vec<QueueItem>,
    pub max_concurrent: u32,
    pub stagger_delay_ms: u64,
    /// The items that `remove` took out, in order, as they were when they left.
    pub departed: Ghost<Seq<QueueItem>>,
}

/// `i` is the first position of `items` that holds an item with this id.
pub open spec fn is_first_with_id(items: Seq<QueueItem>, id: u64, i: int) -> bool {
    &&& 0 <= i < items.len()
    &&& items[i].id == id
    &&& forall|j: int| 0 <= j < i ==> items[j].id != id
}

/// The position that an operation on `id` acts on: the first item with that
/// id, if there is one.
pub open spec fn position_of(items: Seq<QueueItem>, id: u64) -> Option<int> {
    if exists|i: int| is_first_with_id(items, id, i) {
        Some(choose|i: int| is_first_with_id(items, id, i))
    } else {
        None
    }
}

/// Some item of `items` has this id.
pub open spec fn has_id(items: Seq<QueueItem>, id: u64) -> bool {
    exists|i: int| 0 <= i < items.len() && #[trigger] items[i].id == id
}

/// The first matching position is the position an operation acts on.
pub proof fn lemma_position_is_first(items: Seq<QueueItem>, id: u64, i: int)
    requires
        is_first_with_id(items, id, i),
    ensures
        position_of(items, id) == Some(i),
{
    let k = choose|k: int| is_first_with_id(items, id, k);
    assert(is_first_with_id(items, id, k));
    if k < i {
        assert(items[k].id != id);
    } else if i < k {
        assert(items[i].id != id);
    }
}

/// An item is found exactly when some item carries the id.
pub proof fn lemma_position_iff_has_id(items: Seq<QueueItem>, id: u64)
    ensures
        position_of(items, id) is Some <==> has_id(items, id),
        position_of(items, id) matches Some(i) ==> is_first_with_id(items, id, i),
{
    if has_id(items, id) {
        let j = choose|j: int| 0 <= j < items.len() && #[trigger] items[j].id == id;
        lemma_first_exists(items, id, j);
    }
}

/// Below any matching position lies a first matching position.
proof fn lemma_first_exists(items: Seq<QueueItem>, id: u64, j: int)
    requires
        0 <= j < items.len(),
        items[j].id == id,
    ensures
        exists|i: int| is_first_with_id(items, id, i),
    decreases j,
{
    if exists|k: int| 0 <= k < j && items[k].id == id {
        let k = choose|k: int| 0 <= k < j && items[k].id == id;
        lemma_first_exists(items, id, k);
    } else {
        assert(is_first_with_id(items, id, j));
    }
}

/// The item is in the failed state, with the given message or, without one, an
/// empty message.
pub open spec fn is_error_with(status: QueueStatus, error: Option<Seq<char>>) -> bool {
    status matches QueueStatus::Error { message } && message@ == match error {
        Some(m) => m,
        None => Seq::<char>::empty(),
    }
}

/// The characters of an optional string.
pub open spec fn opt_text(o: Option<String>) -> Option<Seq<char>> {
    match o {
        Some(s) => Some(s@),
        None => None,
    }
}

/// The failure status that cancelling leaves.
pub open spec fn is_cancelled_status(status: QueueStatus) -> bool {
    status matches QueueStatus::Error { message } && message@ == "Cancelled"@
}

/// The item belongs to the torrent platform, which keeps its own session.
pub open spec fn is_magnet(item: QueueItem) -> bool {
    item.config.platform@ == "magnet"@
}

/// `after` is `before` finished by `mark_complete`.
pub open spec fn completed(
    before: QueueItem,
    after: QueueItem,
    success: bool,
    error: Option<Seq<char>>,
    file_path: Option<String>,
    file_size_bytes: Option<u64>,
) -> bool {
    &&& after.id == before.id
    &&& after.cancel_token == before.cancel_token
    &&& after.stop_requested == before.stop_requested
    &&& after.config == before.config
    &&& if success {
        after.status == (QueueStatus::Complete { success: true })
    } else {
        is_error_with(after.status, error)
    }
    &&& after.progress == (QueueItemProgress {
        percent_bits: if success {
            HUNDRED_F64_BITS
        } else {
            before.progress.percent_bits
        },
        speed_bits: ZERO_F64_BITS,
        file_path: file_path,
        file_size_bytes: file_size_bytes,
        ..before.progress
    })
}

/// `after` is `before` moved to seeding by `mark_seeding`.
pub open spec fn seeding(
    before: QueueItem,
    after: QueueItem,
    file_path: Option<String>,
    file_size_bytes: Option<u64>,
    torrent_id: Option<usize>,
) -> bool {
    after == (QueueItem {
        status: QueueStatus::Seeding,
        progress: QueueItemProgress {
            percent_bits: HUNDRED_F64_BITS,
            speed_bits: ZERO_F64_BITS,
            file_path: file_path,
            file_size_bytes: file_size_bytes,
            torrent_id: torrent_id,
            ..before.progress
        },
        ..before
    })
}

/// `after` is `before` with a progress report applied by `update_progress`.
pub open spec fn progressed(
    before: QueueItem,
    after: QueueItem,
    percent_bits: u64,
    speed_bits: u64,
    downloaded: u64,
    total: Option<u64>,
    torrent_id: Option<usize>,
) -> bool {
    after == (QueueItem {
        progress: QueueItemProgress {
            percent_bits: percent_bits,
            speed_bits: speed_bits,
            downloaded_bytes: downloaded,
            total_bytes: if total is Some {
                total
            } else {
                before.progress.total_bytes
            },
            torrent_id: if torrent_id is Some && before.progress.torrent_id is None {
                torrent_id
            } else {
                before.progress.torrent_id
            },
            ..before.progress
        },
        ..before
    })
}

/// The queue's limits are unchanged.
pub open spec fn keeps_limits(before: DownloadQueue, after: DownloadQueue) -> bool {
    after.max_concurrent == before.max_concurrent && after.stagger_delay_ms
        == before.stagger_delay_ms
}

/// The queue's limits are unchanged and no item was taken out by `remove`.
pub open spec fn same_limits(before: DownloadQueue, after: DownloadQueue) -> bool {
    keeps_limits(before, after) && after.departed == before.departed
}

/// `after` is `before` with `mark_complete` applied to the item that `id` names.
pub open spec fn completes(
    before: Seq<QueueItem>,
    after: Seq<QueueItem>,
    id: u64,
    success: bool,
    error: Option<Seq<char>>,
    file_path: Option<String>,
    file_size_bytes: Option<u64>,
) -> bool {
    match position_of(before, id) {
        None => after == before,
        Some(i) => {
            &&& after == before.update(i, after[i])
            &&& completed(before[i], after[i], success, error, file_path, file_size_bytes)
        },
    }
}

/// `after` is `before` with `mark_seeding` applied to the item that `id` names.
pub open spec fn seeds(
    before: Seq<QueueItem>,
    after: Seq<QueueItem>,
    id: u64,
    file_path: Option<String>,
    file_size_bytes: Option<u64>,
    torrent_id: Option<usize>,
) -> bool {
    match position_of(before, id) {
        None => after == before,
        Some(i) => {
            &&& after == before.update(i, after[i])
            &&& seeding(before[i], after[i], file_path, file_size_bytes, torrent_id)
        },
    }
}

impl DownloadQueue {
    /// An empty queue that runs at most `max_concurrent` downloads at once.
    pub fn new(max_concurrent: u32) -> (q: Self)
        ensures
            q.items@ == Seq::<QueueItem>::empty(),
            q.max_concurrent == max_concurrent,
            q.stagger_delay_ms == DEFAULT_STAGGER_DELAY_MS,
            q.departed@ == Seq::<QueueItem>::empty(),
    {
        DownloadQueue {
            items: Vec::new(),
            max_concurrent,
            stagger_delay_ms: DEFAULT_STAGGER_DELAY_MS,
            departed: Ghost(Seq::empty()),
        }
    }

    /// The position of the first item with this id.
    pub fn find_index(&self, id: u64) -> (r: Option<usize>)
        ensures
            match r {
                Some(i) => position_of(self.items@, id) == Some(i as int),
                None => position_of(self.items@, id) is None,
            },
    {
        let mut i: usize = 0;
        while i < self.items.len()
            invariant
                i <= self.items@.len(),
                forall|j: int| 0 <= j < i ==> self.items@[j].id != id,
            decreases self.items@.len() - i,
        {
            if self.items[i].id == id {
                proof {
                    lemma_position_is_first(self.items@, id, i as int);
                }
                return Some(i);
            }
            i = i + 1;
        }
        proof {
            lemma_position_iff_has_id(self.items@, id);
        }
        None
    }

    /// Adds a new waiting item at the end of the queue.
    #[allow(clippy::too_many_arguments)]
    pub fn enqueue(
        &mut self,
        id: u64,
        url: String,
        platform: String,
        title: String,
        output_dir: String,
        download_mode: Option<String>,
        quality: Option<String>,
        video_format: Option<String>,
        audio_format: Option<String>,
        audio_quality: Option<String>,
        download_subtitles: Option<bool>,
        format_id: Option<String>,
        referer: Option<String>,
        extra_headers: Option<HashMap<String, String>>,
        page_url: Option<String>,
        user_agent: Option<String>,
        media_info: Option<MediaInfo>,
        total_bytes: Option<u64>,
        file_count: Option<u32>,
        ytdlp_path: Option<PathBuf>,
        from_hotkey: bool,
    )
        ensures
            final(self).items@.len() == old(self).items@.len() + 1,
            final(self).items@.drop_last() == old(self).items@,
            final(self).items@.last().id == id,
            final(self).items@.last().status is Queued,
            final(self).items@.last().config == (QueueItemConfig {
                url,
                platform,
                title,
                output_dir,
                download_mode,
                quality,
                video_format,
                audio_format,
                audio_quality,
                format_id,
                referer,
                extra_headers,
                page_url,
                user_agent,
                download_subtitles,
                ytdlp_path,
                from_hotkey,
            }),
            final(self).items@.last().progress.is_enqueued_with(total_bytes, file_count, media_info),
            !final(self).items@.last().stop_requested@,
            same_limits(*old(self), *final(self)),
    {
        let item = QueueItem {
            id,
            status: QueueStatus::Queued,
            cancel_token: CancellationToken::new(),
            stop_requested: Ghost(false),
            config: QueueItemConfig {
                url,
                platform,
                title,
                output_dir,
                download_mode,
                quality,
                video_format,
                audio_format,
                audio_quality,
                format_id,
                referer,
                extra_headers,
                page_url,
                user_agent,
                download_subtitles,
                ytdlp_path,
                from_hotkey,
            },
            progress: QueueItemProgress::enqueued_with(total_bytes, file_count, media_info),
        };
        self.items.push(item);
    }

    /// Adds a new waiting item built from a request at the end of the queue.
    pub fn enqueue_request(&mut self, id: u64, request: EnqueueRequest)
        ensures
            final(self).items@.len() == old(self).items@.len() + 1,
            final(self).items@.drop_last() == old(self).items@,
            final(self).items@.last().id == id,
            final(self).items@.last().status is Queued,
            final(self).items@.last().config == request.config,
            final(self).items@.last().progress.is_enqueued_with(
                request.total_bytes,
                request.file_count,
                request.media_info,
            ),
            !final(self).items@.last().stop_requested@,
            same_limits(*old(self), *final(self)),
    {
        let item = QueueItem {
            id,
            status: QueueStatus::Queued,
            cancel_token: CancellationToken::new(),
            stop_requested: Ghost(false),
            config: request.config,
            progress: QueueItemProgress::enqueued_with(
                request.total_bytes,
                request.file_count,
                request.media_info,
            ),
        };
        self.items.push(item);
    }

    /// Starts the item: it becomes active with a new cancellation token, on
    /// which no stop has been signalled.
    pub fn mark_active(&mut self, id: u64)
        ensures
            same_limits(*old(self), *final(self)),
            activates(old(self).items@, final(self).items@, id),
    {
        if let Some(i) = self.find_index(id) {
            let item = &mut self.items[i];
            item.status = QueueStatus::Active;
            item.renew_token();
        }
    }

    /// Finishes the item, successfully (at 100 %) or with an error message.
    pub fn mark_complete(
        &mut self,
        id: u64,
        success: bool,
        error: Option<String>,
        file_path: Option<String>,
        file_size_bytes: Option<u64>,
    )
        ensures
            same_limits(*old(self), *final(self)),
            completes(
                old(self).items@,
                final(self).items@,
                id,
                success,
                opt_text(error),
                file_path,
                file_size_bytes,
            ),
    {
        if let Some(i) = self.find_index(id) {
            let item = &mut self.items[i];
            if success {
                item.status = QueueStatus::Complete { success: true };
                item.progress.percent_bits = HUNDRED_F64_BITS;
            } else {
                let message = match error {
                    Some(m) => m,
                    None => String::new(),
                };
                item.status = QueueStatus::Error { message };
            }
            item.progress.file_path = file_path;
            item.progress.file_size_bytes = file_size_bytes;
            item.progress.speed_bits = ZERO_F64_BITS;
        }
    }

    /// The download finished and its torrent keeps seeding.
    pub fn mark_seeding(
        &mut self,
        id: u64,
        file_path: Option<String>,
        file_size_bytes: Option<u64>,
        torrent_id: Option<usize>,
    )
        ensures
            same_limits(*old(self), *final(self)),
            seeds(old(self).items@, final(self).items@, id, file_path, file_size_bytes, torrent_id),
    {
        if let Some(i) = self.find_index(id) {
            let item = &mut self.items[i];
            item.status = QueueStatus::Seeding;
            item.progress.percent_bits = HUNDRED_F64_BITS;
            item.progress.file_path = file_path;
            item.progress.file_size_bytes = file_size_bytes;
            item.progress.speed_bits = ZERO_F64_BITS;
            item.progress.torrent_id = torrent_id;
        }
    }

    /// Records a progress report; a known total and the first torrent id are kept.
    pub fn update_progress(
        &mut self,
        id: u64,
        percent_bits: u64,
        speed_bits: u64,
        downloaded: u64,
        total: Option<u64>,
        torrent_id: Option<usize>,
    )
        ensures
            same_limits(*old(self), *final(self)),
            match position_of(old(self).items@, id) {
                None => final(self).items@ == old(self).items@,
                Some(i) => {
                    &&& final(self).items@ == old(self).items@.update(i, final(self).items@[i])
                    &&& progressed(
                        old(self).items@[i],
                        final(self).items@[i],
                        percent_bits,
                        speed_bits,
                        downloaded,
                        total,
                        torrent_id,
                    )
                },
            },
    {
        if let Some(i) = self.find_index(id) {
            let item = &mut self.items[i];
            item.progress.percent_bits = percent_bits;
            item.progress.speed_bits = speed_bits;
            item.progress.downloaded_bytes = downloaded;
            if let Some(t) = total {
                item.progress.total_bytes = Some(t);
            }
            if torrent_id.is_some() && item.progress.torrent_id.is_none() {
                item.progress.torrent_id = torrent_id;
            }
        }
    }
}


/// Ids of the finished items, in queue order.
pub open spec fn finished_ids(items: Seq<QueueItem>) -> Seq<u64>
    decreases items.len(),
{
    if items.len() == 0 {
        Seq::empty()
    } else {
        let rest = finished_ids(items.drop_last());
        if items.last().status.spec_is_finished() {
            rest.push(items.last().id)
        } else {
            rest
        }
    }
}

/// The items that are not finished, in queue order.
pub open spec fn unfinished(items: Seq<QueueItem>) -> Seq<QueueItem>
    decreases items.len(),
{
    if items.len() == 0 {
        Seq::empty()
    } else {
        let rest = unfinished(items.drop_last());
        if items.last().status.spec_is_finished() {
            rest
        } else {
            rest.push(items.last())
        }
    }
}

/// How many items are running.
pub open spec fn count_active(items: Seq<QueueItem>) -> nat
    decreases items.len(),
{
    if items.len() == 0 {
        0
    } else {
        count_active(items.drop_last()) + if items.last().status is Active {
            1nat
        } else {
            0nat
        }
    }
}

/// Ids of the waiting items, in queue order.
pub open spec fn queued_ids(items: Seq<QueueItem>) -> Seq<u64>
    decreases items.len(),
{
    if items.len() == 0 {
        Seq::empty()
    } else {
        let rest = queued_ids(items.drop_last());
        if items.last().status is Queued {
            rest.push(items.last().id)
        } else {
            rest
        }
    }
}

/// At most the first `n` elements of `s`.
pub open spec fn at_most<T>(s: Seq<T>, n: nat) -> Seq<T> {
    if s.len() <= n {
        s
    } else {
        s.take(n as int)
    }
}

/// The number of downloads that may still start: the limit minus the running
/// ones (their count taken as a `u32`), and never below zero.
pub open spec fn free_slots(max_concurrent: u32, items: Seq<QueueItem>) -> nat {
    let active = count_active(items) as u32;
    if max_concurrent > active {
        (max_concurrent - active) as nat
    } else {
        0
    }
}

/// Some item for this address still occupies the queue.
pub open spec fn url_pending(items: Seq<QueueItem>, url: Seq<char>) -> bool {
    exists|i: int|
        0 <= i < items.len() && #[trigger] items[i].config.url@ == url
            && items[i].status.spec_is_pending()
}

/// The torrent session that cancelling the item leaves for the caller to stop.
pub open spec fn cancel_torrent(item: QueueItem) -> Option<usize> {
    match item.status {
        QueueStatus::Seeding => item.progress.torrent_id,
        QueueStatus::Paused => if is_magnet(item) {
            item.progress.torrent_id
        } else {
            None
        },
        _ => None,
    }
}

/// The torrent session that removing the item leaves for the caller to stop.
pub open spec fn remove_torrent(item: QueueItem) -> Option<usize> {
    if item.status is Seeding || (item.status is Paused && is_magnet(item)) {
        item.progress.torrent_id
    } else {
        None
    }
}

/// Cancelling or removing the item tells its download to stop: it is
/// running, or paused (a paused torrent still holds its session).
pub open spec fn stops_on_cancel(item: QueueItem) -> bool {
    item.status is Active || item.status is Paused
}

/// Removing the item tells its download to stop: it is running, or it is a
/// paused torrent.
pub open spec fn stops_on_remove(item: QueueItem) -> bool {
    item.status is Active || (item.status is Paused && is_magnet(item))
}

/// `after` is `before` cancelled; a running or paused download is told to stop.
pub open spec fn cancelled(before: QueueItem, after: QueueItem) -> bool {
    &&& after.id == before.id
    &&& after.cancel_token == before.cancel_token
    &&& after.stop_requested@ == (before.stop_requested@ || stops_on_cancel(before))
    &&& after.config == before.config
    &&& is_cancelled_status(after.status)
    &&& after.progress == if before.status is Queued {
        before.progress
    } else {
        QueueItemProgress { speed_bits: ZERO_F64_BITS, ..before.progress }
    }
}

/// `after` is `before` reset for another attempt, with a new token on which
/// no stop has been signalled.
pub open spec fn retried(before: QueueItem, after: QueueItem) -> bool {
    renewed_token(
        QueueItem {
            status: QueueStatus::Queued,
            progress: QueueItemProgress {
                percent_bits: ZERO_F64_BITS,
                speed_bits: ZERO_F64_BITS,
                downloaded_bytes: 0,
                file_path: None,
                file_size_bytes: None,
                ..before.progress
            },
            ..before
        },
        after,
    )
}

/// The item an operation on `id` acts on exists and is in a state that passes `ok`.
pub open spec fn target_is(items: Seq<QueueItem>, id: u64, ok: spec_fn(QueueItem) -> bool) -> bool {
    position_of(items, id) matches Some(i) && ok(items[i])
}

/// `after` is `before` once `mark_active` has run for `id`.
pub open spec fn activates(before: Seq<QueueItem>, after: Seq<QueueItem>, id: u64) -> bool {
    match position_of(before, id) {
        None => after == before,
        Some(i) => {
            &&& after == before.update(i, after[i])
            &&& renewed_token(QueueItem { status: QueueStatus::Active, ..before[i] }, after[i])
        },
    }
}

/// `after` is `before` once `pause` has run for `id` and answered `ok`.
pub open spec fn pauses(before: Seq<QueueItem>, after: Seq<QueueItem>, id: u64, ok: bool) -> bool {
    &&& ok == target_is(before, id, |it: QueueItem| it.status is Active)
    &&& !ok ==> after == before
    &&& ok ==> ({
        let i = position_of(before, id)->0;
        &&& after == before.update(i, after[i])
        &&& after[i] == (QueueItem {
            status: QueueStatus::Paused,
            progress: QueueItemProgress { speed_bits: ZERO_F64_BITS, ..before[i].progress },
            stop_requested: after[i].stop_requested,
            ..before[i]
        })
        &&& after[i].stop_requested@ == (before[i].stop_requested@ || !is_magnet(before[i]))
    })
}

/// `after` is `before` once `resume` has run for `id` and answered `ok`.
pub open spec fn resumes(before: Seq<QueueItem>, after: Seq<QueueItem>, id: u64, ok: bool) -> bool {
    &&& ok == target_is(before, id, |it: QueueItem| it.status is Paused)
    &&& !ok ==> after == before
    &&& ok ==> ({
        let i = position_of(before, id)->0;
        &&& after == before.update(i, after[i])
        &&& if is_magnet(before[i]) {
            after[i] == (QueueItem { status: QueueStatus::Active, ..before[i] })
        } else {
            renewed_token(QueueItem { status: QueueStatus::Queued, ..before[i] }, after[i])
        }
    })
}

/// `after` is `before` once `cancel` has run for `id` and answered `r`.
pub open spec fn cancels(
    before: Seq<QueueItem>,
    after: Seq<QueueItem>,
    id: u64,
    r: (bool, Option<usize>),
) -> bool {
    &&& r.0 == target_is(before, id, |it: QueueItem| it.status.spec_is_pending())
    &&& !r.0 ==> after == before && r.1 is None
    &&& r.0 ==> ({
        let i = position_of(before, id)->0;
        &&& after == before.update(i, after[i])
        &&& cancelled(before[i], after[i])
        &&& r.1 == cancel_torrent(before[i])
    })
}

/// `after` is `before` once `retry` has run for `id` and answered `ok`.
pub open spec fn retries(before: Seq<QueueItem>, after: Seq<QueueItem>, id: u64, ok: bool) -> bool {
    &&& ok == target_is(before, id, |it: QueueItem| it.status is Error)
    &&& !ok ==> after == before
    &&& ok ==> ({
        let i = position_of(before, id)->0;
        &&& after == before.update(i, after[i])
        &&& retried(before[i], after[i])
    })
}

/// `gone` is `item` as it leaves the queue: told to stop where removing
/// stops its download, and otherwise unchanged.
pub open spec fn leaves(item: QueueItem, gone: QueueItem) -> bool {
    &&& gone == (QueueItem { stop_requested: gone.stop_requested, ..item })
    &&& gone.stop_requested@ == (item.stop_requested@ || stops_on_remove(item))
}

/// `after` is `before` once `remove` has run for `id` and answered `r`.
pub open spec fn removes(
    before: Seq<QueueItem>,
    after: Seq<QueueItem>,
    id: u64,
    r: Option<Option<usize>>,
) -> bool {
    match position_of(before, id) {
        None => r is None && after == before,
        Some(i) => {
            &&& r == Some(remove_torrent(before[i]))
            &&& after == before.remove(i)
        },
    }
}

impl DownloadQueue {
    /// Pauses a running item: its download is told to stop (unless a torrent
    /// keeps its own session) and its speed drops to zero.
    pub fn pause(&mut self, id: u64) -> (ok: bool)
        ensures
            same_limits(*old(self), *final(self)),
            pauses(old(self).items@, final(self).items@, id, ok),
    {
        if let Some(i) = self.find_index(id) {
            if matches!(self.items[i].status, QueueStatus::Active) {
                let item = &mut self.items[i];
                if !same_text(item.config.platform.as_str(), "magnet") {
                    item.signal_stop();
                }
                item.status = QueueStatus::Paused;
                item.progress.speed_bits = ZERO_F64_BITS;
                return true;
            }
        }
        false
    }

    /// Resumes a paused item: a torrent runs again at once, anything else
    /// waits for a slot with a new cancellation token, on which no stop has
    /// been signalled.
    pub fn resume(&mut self, id: u64) -> (ok: bool)
        ensures
            same_limits(*old(self), *final(self)),
            resumes(old(self).items@, final(self).items@, id, ok),
    {
        if let Some(i) = self.find_index(id) {
            if matches!(self.items[i].status, QueueStatus::Paused) {
                let item = &mut self.items[i];
                if same_text(item.config.platform.as_str(), "magnet") {
                    item.status = QueueStatus::Active;
                } else {
                    item.status = QueueStatus::Queued;
                    item.renew_token();
                }
                return true;
            }
        }
        false
    }

    /// Cancels an item that has not finished. Returns whether it was
    /// cancelled, and the torrent session the caller must stop, if any.
    pub fn cancel(&mut self, id: u64) -> (r: (bool, Option<usize>))
        ensures
            same_limits(*old(self), *final(self)),
            cancels(old(self).items@, final(self).items@, id, r),
    {
        if let Some(i) = self.find_index(id) {
            if !self.items[i].status.is_pending() {
                return (false, None);
            }
            let item = &mut self.items[i];
            match &item.status {
                QueueStatus::Active => {
                    item.signal_stop();
                    item.status = QueueStatus::Error { message: crate::text::owned_text("Cancelled") };
                    item.progress.speed_bits = ZERO_F64_BITS;
                    return (true, None);
                },
                QueueStatus::Seeding => {
                    let tid = item.progress.torrent_id;
                    item.status = QueueStatus::Error { message: crate::text::owned_text("Cancelled") };
                    item.progress.speed_bits = ZERO_F64_BITS;
                    return (true, tid);
                },
                QueueStatus::Paused => {
                    item.signal_stop();
                    let tid = if same_text(item.config.platform.as_str(), "magnet") {
                        item.progress.torrent_id
                    } else {
                        None
                    };
                    item.status = QueueStatus::Error { message: crate::text::owned_text("Cancelled") };
                    item.progress.speed_bits = ZERO_F64_BITS;
                    return (true, tid);
                },
                QueueStatus::Queued => {
                    item.status = QueueStatus::Error { message: crate::text::owned_text("Cancelled") };
                    return (true, None);
                },
                _ => {},
            }
        }
        (false, None)
    }

    /// Puts a failed item back in line, with its progress cleared and a new
    /// cancellation token, on which no stop has been signalled.
    pub fn retry(&mut self, id: u64) -> (ok: bool)
        ensures
            same_limits(*old(self), *final(self)),
            retries(old(self).items@, final(self).items@, id, ok),
    {
        if let Some(i) = self.find_index(id) {
            if matches!(self.items[i].status, QueueStatus::Error { .. }) {
                let item = &mut self.items[i];
                item.status = QueueStatus::Queued;
                item.renew_token();
                item.progress.percent_bits = ZERO_F64_BITS;
                item.progress.speed_bits = ZERO_F64_BITS;
                item.progress.downloaded_bytes = 0;
                item.progress.file_path = None;
                item.progress.file_size_bytes = None;
                return true;
            }
        }
        false
    }

    /// Takes an item out of the queue, telling a running download (or a
    /// paused torrent) to stop. Returns `None` when no item has the id, and
    /// otherwise the torrent session the caller must stop, if any.
    pub fn remove(&mut self, id: u64) -> (r: Option<Option<usize>>)
        ensures
            keeps_limits(*old(self), *final(self)),
            removes(old(self).items@, final(self).items@, id, r),
            match position_of(old(self).items@, id) {
                None => final(self).departed == old(self).departed,
                Some(i) => {
                    &&& final(self).departed@ == old(self).departed@.push(final(self).departed@.last())
                    &&& leaves(old(self).items@[i], final(self).departed@.last())
                },
            },
    {
        if let Some(pos) = self.find_index(id) {
            let ghost before = self.items@;
            let magnet = same_text(self.items[pos].config.platform.as_str(), "magnet");
            let active = matches!(self.items[pos].status, QueueStatus::Active);
            let paused = matches!(self.items[pos].status, QueueStatus::Paused);
            let seeding = matches!(self.items[pos].status, QueueStatus::Seeding);
            if active || (paused && magnet) {
                self.items[pos].signal_stop();
            }
            let torrent_id = if seeding || (paused && magnet) {
                self.items[pos].progress.torrent_id
            } else {
                None
            };
            assert(self.items@ == before.update(pos as int, self.items@[pos as int]));
            let gone = self.items.remove(pos);
            assert(self.items@ =~= before.remove(pos as int));
            self.departed = Ghost(self.departed@.push(gone));
            return Some(torrent_id);
        }
        None
    }

    /// Drops every finished item, keeping the order of the rest. Returns the
    /// ids of the dropped items, in queue order, for the caller to forget.
    pub fn clear_finished(&mut self) -> (removed: Vec<u64>)
        ensures
            same_limits(*old(self), *final(self)),
            final(self).items@ == unfinished(old(self).items@),
            removed@ == finished_ids(old(self).items@),
    {
        let ghost orig = self.items@;
        let mut rest: Vec<QueueItem> = Vec::new();
        std::mem::swap(&mut self.items, &mut rest);
        let mut removed: Vec<u64> = Vec::new();
        let n = rest.len();
        let mut k: usize = 0;
        while k < n
            invariant
                n == orig.len(),
                k <= n,
                rest@ == orig.subrange(k as int, n as int),
                self.items@ == unfinished(orig.take(k as int)),
                removed@ == finished_ids(orig.take(k as int)),
                same_limits(*old(self), *self),
            decreases n - k,
        {
            let item = rest.remove(0);
            proof {
                assert(orig.take(k + 1).drop_last() =~= orig.take(k as int));
                assert(orig.take(k + 1).last() == orig[k as int]);
            }
            if item.status.is_finished() {
                removed.push(item.id);
            } else {
                self.items.push(item);
            }
            k = k + 1;
            assert(rest@ =~= orig.subrange(k as int, n as int));
        }
        assert(orig.take(n as int) =~= orig);
        removed
    }

    /// How many items are running, as a `u32`.
    pub fn active_count(&self) -> (c: u32)
        ensures
            c == count_active(self.items@) as u32,
    {
        let mut c: usize = 0;
        let mut i: usize = 0;
        while i < self.items.len()
            invariant
                i <= self.items@.len(),
                c <= i,
                c == count_active(self.items@.take(i as int)),
            decreases self.items@.len() - i,
        {
            proof {
                assert(self.items@.take(i + 1).drop_last() =~= self.items@.take(i as int));
            }
            if matches!(self.items[i].status, QueueStatus::Active) {
                c = c + 1;
            }
            i = i + 1;
        }
        assert(self.items@.take(i as int) =~= self.items@);
        c as u32
    }

    /// Ids of the waiting items that may start now: as many, in queue order,
    /// as there are free slots.
    pub fn next_queued_ids(&self) -> (ids: Vec<u64>)
        ensures
            ids@ == at_most(queued_ids(self.items@), free_slots(self.max_concurrent, self.items@)),
    {
        let active = self.active_count();
        let slots: usize = if self.max_concurrent > active {
            (self.max_concurrent - active) as usize
        } else {
            0
        };
        let mut ids: Vec<u64> = Vec::new();
        let mut i: usize = 0;
        while i < self.items.len()
            invariant
                i <= self.items@.len(),
                slots == free_slots(self.max_concurrent, self.items@),
                ids@ == at_most(queued_ids(self.items@.take(i as int)), slots as nat),
            decreases self.items@.len() - i,
        {
            proof {
                assert(self.items@.take(i + 1).drop_last() =~= self.items@.take(i as int));
            }
            if matches!(self.items[i].status, QueueStatus::Queued) && ids.len() < slots {
                ids.push(self.items[i].id);
            }
            proof {
                let before = queued_ids(self.items@.take(i as int));
                let after = queued_ids(self.items@.take(i + 1));
                if self.items@[i as int].status is Queued {
                    assert(after == before.push(self.items@[i as int].id));
                    if before.len() < slots {
                        assert(at_most(after, slots as nat) =~= at_most(before, slots as nat).push(self.items@[i as int].id));
                    } else {
                        assert(at_most(after, slots as nat) =~= at_most(before, slots as nat));
                    }
                } else {
                    assert(after == before);
                }
            }
            i = i + 1;
        }
        assert(self.items@.take(i as int) =~= self.items@);
        ids
    }

    /// What the interface shows of every item, in queue order.
    pub fn get_state(&self) -> (infos: Vec<QueueItemInfo>)
        ensures
            infos@ == self.items@.map_values(|it: QueueItem| it.spec_info()),
    {
        let mut infos: Vec<QueueItemInfo> = Vec::new();
        let mut i: usize = 0;
        while i < self.items.len()
            invariant
                i <= self.items@.len(),
                infos@ == self.items@.take(i as int).map_values(|it: QueueItem| it.spec_info()),
            decreases self.items@.len() - i,
        {
            infos.push(self.items[i].to_info());
            i = i + 1;
            assert(infos@ =~= self.items@.take(i as int).map_values(|it: QueueItem| it.spec_info()));
        }
        assert(self.items@.take(i as int) =~= self.items@);
        infos
    }

    /// Whether an unfinished item already downloads this address.
    pub fn has_url(&self, url: &str) -> (b: bool)
        ensures
            b == url_pending(self.items@, url@),
    {
        let mut i: usize = 0;
        while i < self.items.len()
            invariant
                i <= self.items@.len(),
                forall|j: int|
                    0 <= j < i ==> !(#[trigger] self.items@[j].config.url@ == url@
                        && self.items@[j].status.spec_is_pending()),
            decreases self.items@.len() - i,
        {
            if same_text(self.items[i].config.url.as_str(), url) && self.items[i].status.is_pending() {
                return true;
            }
            i = i + 1;
        }
        false
    }
}

} // verus!

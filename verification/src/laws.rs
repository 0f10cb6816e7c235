use vstd::prelude::*;
use std::time::Instant;
use crate::errors::{classify, user_message_text, DownloadErrorView};
use crate::text::{lowercase, seq_contains};
use crate::gui::{logged, MAX_LOG_LINES};
use crate::item::{QueueItem, QueueItemInfo, QueueItemProgress, HUNDRED_F64_BITS, ZERO_F64_BITS};
use crate::media::{MediaInfo, MediaType};
use crate::pipeline::{batch_started, lemma_position_same_ids, same_ids, started_at, with_media};
use crate::queue::{
    activates, at_most, cancels, completes, count_active, finished_ids, free_slots, has_id,
    is_magnet, lemma_position_iff_has_id, lemma_position_is_first, opt_text, pauses, position_of,
    progressed, queued_ids, removes, resumes, retries, seeds, target_is, unfinished, url_pending,
};
use crate::recovery::restored;
use crate::status::QueueStatus;
use crate::throttle::{throttle_step, ProgressThrottle};

verus! {

/// Pausing a running download and then resuming it brings it back: a torrent
/// runs again at once, anything else is told to stop on pausing and then waits
/// for a slot with a new token on which no stop has been signalled; the item
/// keeps its place, its configuration and its progress, with the speed at zero.
pub proof fn law_pause_then_resume(
    s0: Seq<QueueItem>,
    s1: Seq<QueueItem>,
    s2: Seq<QueueItem>,
    id: u64,
    paused: bool,
    resumed: bool,
)
    requires
        target_is(s0, id, |it: QueueItem| it.status is Active),
        pauses(s0, s1, id, paused),
        resumes(s1, s2, id, resumed),
    ensures
        paused,
        resumed,
        ({
            let i = position_of(s0, id)->0;
            &&& s2 == s0.update(i, s2[i])
            &&& s2[i].id == s0[i].id
            &&& s2[i].config == s0[i].config
            &&& s2[i].progress == (QueueItemProgress { speed_bits: ZERO_F64_BITS, ..s0[i].progress })
            &&& s2[i].status == if is_magnet(s0[i]) {
                QueueStatus::Active
            } else {
                QueueStatus::Queued
            }
            &&& !is_magnet(s0[i]) ==> s1[i].stop_requested@ && !s2[i].stop_requested@
            &&& is_magnet(s0[i]) ==> s2[i].stop_requested == s0[i].stop_requested
        }),
{
    let i = position_of(s0, id)->0;
    assert(same_ids(s0, s1));
    lemma_position_same_ids(s0, s1, id);
    assert(s1[i].status is Paused);
    assert(same_ids(s1, s2));
    assert(s2 =~= s0.update(i, s2[i]));
}

/// A download that could be cancelled can be retried: it waits again with
/// its progress cleared, its configuration untouched and a new token on which
/// no stop has been signalled.
pub proof fn law_cancel_then_retry(
    s0: Seq<QueueItem>,
    s1: Seq<QueueItem>,
    s2: Seq<QueueItem>,
    id: u64,
    cancel_result: (bool, Option<usize>),
    retried: bool,
)
    requires
        cancels(s0, s1, id, cancel_result),
        retries(s1, s2, id, retried),
        cancel_result.0,
    ensures
        retried,
        ({
            let i = position_of(s0, id)->0;
            &&& s2 == s0.update(i, s2[i])
            &&& s2[i].id == s0[i].id
            &&& s2[i].config == s0[i].config
            &&& s2[i].status is Queued
            &&& s2[i].progress.percent_bits == ZERO_F64_BITS
            &&& s2[i].progress.downloaded_bytes == 0
            &&& s2[i].progress.file_path is None
            &&& !s2[i].stop_requested@
        }),
{
    let i = position_of(s0, id)->0;
    assert(same_ids(s0, s1));
    lemma_position_same_ids(s0, s1, id);
    assert(s1[i].status is Error);
    assert(s2 =~= s0.update(i, s2[i]));
}

/// Cancelling a seeding torrent hands back the session that seeding recorded,
/// for the caller to stop.
pub proof fn law_seeding_then_cancel(
    s0: Seq<QueueItem>,
    s1: Seq<QueueItem>,
    s2: Seq<QueueItem>,
    id: u64,
    file_path: Option<String>,
    file_size_bytes: Option<u64>,
    torrent_id: Option<usize>,
    cancel_result: (bool, Option<usize>),
)
    requires
        position_of(s0, id) is Some,
        seeds(s0, s1, id, file_path, file_size_bytes, torrent_id),
        cancels(s1, s2, id, cancel_result),
    ensures
        cancel_result.0,
        cancel_result.1 == torrent_id,
{
    let i = position_of(s0, id)->0;
    assert(same_ids(s0, s1));
    lemma_position_same_ids(s0, s1, id);
    assert(s1[i].status is Seeding);
}

/// Clearing finished downloads leaves none behind, keeps every other item,
/// and clearing again changes nothing.
pub proof fn law_clear_finished(s: Seq<QueueItem>)
    ensures
        forall|k: int|
            0 <= k < unfinished(s).len() ==> !(#[trigger] unfinished(s)[k]).status.spec_is_finished(),
        unfinished(unfinished(s)) == unfinished(s),
        unfinished(s).len() + finished_ids(s).len() == s.len(),
    decreases s.len(),
{
    if s.len() > 0 {
        law_clear_finished(s.drop_last());
        let rest = unfinished(s.drop_last());
        if !s.last().status.spec_is_finished() {
            assert(unfinished(s) == rest.push(s.last()));
            assert(unfinished(s).drop_last() =~= rest);
            assert(unfinished(unfinished(s)) =~= unfinished(s));
        }
    }
}

/// An address that was just queued is reported as already in the queue.
pub proof fn law_enqueued_url_is_pending(s0: Seq<QueueItem>, s1: Seq<QueueItem>, url: Seq<char>)
    requires
        s1.len() == s0.len() + 1,
        s1.last().config.url@ == url,
        s1.last().status is Queued,
    ensures
        url_pending(s1, url),
{
    let k = s1.len() - 1;
    assert(s1[k].config.url@ == url);
}

/// Persisting an item and restoring it keeps who it is and where it goes; what
/// was running comes back paused, every other status comes back as it was.
pub proof fn law_recovery_round_trip(item: QueueItem, back: QueueItem)
    requires
        restored(item.spec_recovery(), back),
    ensures
        back.id == item.id,
        back.config.url == item.config.url,
        back.config.platform == item.config.platform,
        back.config.title == item.spec_title(),
        back.config.output_dir == item.config.output_dir,
        back.config.download_mode == item.config.download_mode,
        back.config.quality == item.config.quality,
        back.config.format_id == item.config.format_id,
        back.config.referer == item.config.referer,
        back.progress.file_path == item.progress.file_path,
        back.progress.file_size_bytes == item.progress.file_size_bytes,
        item.status is Active || item.status is Seeding ==> back.status is Paused,
        !(item.status is Active || item.status is Seeding) ==> back.status == item.status,
        item.status == (QueueStatus::Complete { success: true }) ==> back.progress.percent_bits
            == HUNDRED_F64_BITS,
{
}

/// Once media information is recorded, the interface shows its title, size and
/// thumbnail for the item.
pub proof fn law_media_shows_in_state(before: QueueItem, after: QueueItem, info: MediaInfo)
    requires
        with_media(before, after, info),
    ensures
        after.spec_info().title == info.title,
        after.spec_info().total_bytes == info.file_size_bytes,
        after.spec_info().thumbnail_url == info.thumbnail_url,
        after.spec_info().file_count == Some(info.spec_file_count()),
        after.spec_info().status == before.status,
{
}

/// The first torrent session reported for an item is never replaced, and a
/// report without a total keeps the total known before.
pub proof fn law_progress_keeps_first_torrent_and_total(
    before: QueueItem,
    after: QueueItem,
    percent_bits: u64,
    speed_bits: u64,
    downloaded: u64,
    total: Option<u64>,
    torrent_id: Option<usize>,
)
    requires
        progressed(before, after, percent_bits, speed_bits, downloaded, total, torrent_id),
    ensures
        before.progress.torrent_id is Some ==> after.progress.torrent_id
            == before.progress.torrent_id,
        total is None ==> after.progress.total_bytes == before.progress.total_bytes,
        after.status == before.status,
{
}

/// After a report goes through, no other goes through before the interval has
/// passed again.
pub proof fn law_throttle_spacing(
    t0: ProgressThrottle,
    t1: ProgressThrottle,
    t2: ProgressThrottle,
    now1: Instant,
    elapsed1: u128,
    emit1: bool,
    now2: Instant,
    elapsed2: u128,
    emit2: bool,
)
    requires
        throttle_step(t0, t1, now1, elapsed1, emit1),
        throttle_step(t1, t2, now2, elapsed2, emit2),
        emit1,
        elapsed2 < t0.spec_min_interval_ms(),
    ensures
        !emit2,
{
}

/// Exactly the unrecognised errors carry the code `unknown`, and exactly
/// they come without a hint.
pub proof fn law_unknown_code_and_hint(e: DownloadErrorView)
    ensures
        (e.code_text() == "unknown"@) <==> e is Unknown,
        (e.hint_text().len() == 0) <==> e is Unknown,
{
    reveal_strlit("unknown");
    reveal_strlit("auth_required");
    reveal_strlit("rate_limited");
    reveal_strlit("restricted");
    reveal_strlit("file_missing");
    reveal_strlit("not_found");
    reveal_strlit("ffmpeg_needed");
    reveal_strlit("ytdlp_needed");
    reveal_strlit("ytdlp_outdated");
    reveal_strlit("");
    reveal_strlit(
        "This content requires login. Install the browser extension and visit the site while logged in.",
    );
    reveal_strlit("Too many requests. Try again in a few minutes.");
    reveal_strlit("This content is private or age-restricted.");
    reveal_strlit("Downloaded file could not be located in the output folder.");
    reveal_strlit("Content not found or has been deleted.");
    reveal_strlit("FFmpeg is required for this download. Install it from Settings.");
    reveal_strlit("yt-dlp is required. Install it from Settings.");
    reveal_strlit("yt-dlp needs updating. Restart the app to auto-update.");
    if !(e is Unknown) {
        // No other code starts with the letter of "unknown".
        assert(e.code_text()[0] != "unknown"@[0]);
    }
}

} // verus!

verus! {

/// No two items share an id.
pub open spec fn ids_distinct(items: Seq<QueueItem>) -> bool {
    forall|a: int, b: int|
        0 <= a < items.len() && 0 <= b < items.len() && a != b ==> #[trigger] items[a].id
            != #[trigger] items[b].id
}

/// Changing one item changes the count of running items by what that item
/// counted before and after.
pub proof fn lemma_count_active_update(s: Seq<QueueItem>, j: int, x: QueueItem)
    requires
        0 <= j < s.len(),
    ensures
        count_active(s.update(j, x)) + (if s[j].status is Active {
            1int
        } else {
            0int
        }) == count_active(s) + (if x.status is Active {
            1int
        } else {
            0int
        }),
    decreases s.len(),
{
    let t = s.update(j, x);
    if j == s.len() - 1 {
        assert(t.drop_last() =~= s.drop_last());
    } else {
        assert(t.drop_last() =~= s.drop_last().update(j, x));
        lemma_count_active_update(s.drop_last(), j, x);
    }
}

/// Some waiting item of `items` carries this id.
pub open spec fn is_waiting_id(items: Seq<QueueItem>, id: u64) -> bool {
    exists|j: int| 0 <= j < items.len() && items[j].id == id && items[j].status is Queued
}

/// Every id of `ids` belongs to a waiting item of `items`.
pub open spec fn all_waiting(items: Seq<QueueItem>, ids: Seq<u64>) -> bool {
    forall|m: int| 0 <= m < ids.len() ==> is_waiting_id(items, #[trigger] ids[m])
}

/// Every id in the waiting list is the id of a waiting item.
pub proof fn lemma_queued_ids_members(s: Seq<QueueItem>)
    ensures
        all_waiting(s, queued_ids(s)),
    decreases s.len(),
{
    if s.len() > 0 {
        let d = s.drop_last();
        lemma_queued_ids_members(d);
        assert forall|k: int| 0 <= k < queued_ids(s).len() implies is_waiting_id(
            s,
            #[trigger] queued_ids(s)[k],
        ) by {
            if k < queued_ids(d).len() {
                assert(queued_ids(s)[k] == queued_ids(d)[k]);
                assert(is_waiting_id(d, queued_ids(d)[k]));
                let j = choose|j: int|
                    0 <= j < d.len() && d[j].id == queued_ids(d)[k] && d[j].status is Queued;
                assert(s[j] == d[j]);
            } else {
                assert(s[s.len() - 1].id == queued_ids(s)[k]);
            }
        }
    }
}

/// With distinct item ids, the waiting list has no repeated id.
pub proof fn lemma_queued_ids_distinct(s: Seq<QueueItem>)
    requires
        ids_distinct(s),
    ensures
        queued_ids(s).no_duplicates(),
    decreases s.len(),
{
    if s.len() > 0 {
        let d = s.drop_last();
        assert(ids_distinct(d)) by {
            assert forall|a: int, b: int|
                0 <= a < d.len() && 0 <= b < d.len() && a != b implies #[trigger] d[a].id
                    != #[trigger] d[b].id by {
                assert(d[a] == s[a] && d[b] == s[b]);
            }
        }
        lemma_queued_ids_distinct(d);
        lemma_queued_ids_members(d);
        if s.last().status is Queued {
            let q = queued_ids(d);
            assert forall|a: int, b: int|
                0 <= a < q.push(s.last().id).len() && 0 <= b < q.push(s.last().id).len() && a
                    != b implies q.push(s.last().id)[a] != q.push(s.last().id)[b] by {
                if a < q.len() && b < q.len() {
                } else if a == q.len() {
                    assert(is_waiting_id(d, q[b]));
                    let j = choose|j: int| 0 <= j < d.len() && d[j].id == q[b] && d[j].status is Queued;
                    assert(s[j].id != s[s.len() - 1].id);
                } else {
                    assert(is_waiting_id(d, q[a]));
                    let j = choose|j: int| 0 <= j < d.len() && d[j].id == q[a] && d[j].status is Queued;
                    assert(s[j].id != s[s.len() - 1].id);
                }
            }
        }
    }
}

/// With distinct ids, an operation on an item's id acts on that item.
pub proof fn lemma_position_distinct(s: Seq<QueueItem>, j: int)
    requires
        ids_distinct(s),
        0 <= j < s.len(),
    ensures
        position_of(s, s[j].id) == Some(j),
{
    assert forall|m: int| 0 <= m < j implies s[m].id != s[j].id by {}
    lemma_position_is_first(s, s[j].id, j);
}

/// `before` with the first `k` ids of the batch started, as `after` has them.
pub open spec fn partly_started(
    before: Seq<QueueItem>,
    after: Seq<QueueItem>,
    ids: Seq<u64>,
    k: int,
) -> Seq<QueueItem> {
    Seq::new(
        before.len(),
        |j: int|
            if started_at(before, ids.take(k), j) {
                after[j]
            } else {
                before[j]
            },
    )
}

/// Starting a batch of distinct waiting items raises the count of running
/// items by the size of the batch.
proof fn lemma_batch_count(before: Seq<QueueItem>, after: Seq<QueueItem>, ids: Seq<u64>, k: int)
    requires
        ids_distinct(before),
        ids.no_duplicates(),
        all_waiting(before, ids),
        batch_started(before, after, ids),
        0 <= k <= ids.len(),
    ensures
        count_active(partly_started(before, after, ids, k)) == count_active(before) + k,
    decreases k,
{
    if k == 0 {
        assert(partly_started(before, after, ids, 0) =~= before) by {
            assert forall|j: int| 0 <= j < before.len() implies !started_at(before, ids.take(0), j) by {}
        }
    } else {
        lemma_batch_count(before, after, ids, k - 1);
        let prev = partly_started(before, after, ids, k - 1);
        let next = partly_started(before, after, ids, k);
        assert(is_waiting_id(before, ids[k - 1]));
        let jk = choose|j: int|
            0 <= j < before.len() && before[j].id == ids[k - 1] && before[j].status is Queued;
        lemma_position_distinct(before, jk);
        assert(ids.take(k)[k - 1] == ids[k - 1]);
        assert(started_at(before, ids.take(k), jk));
        assert(!started_at(before, ids.take(k - 1), jk)) by {
            if started_at(before, ids.take(k - 1), jk) {
                let m = choose|m: int|
                    0 <= m < ids.take(k - 1).len() && position_of(before, #[trigger] ids.take(k - 1)[m])
                        == Some(jk);
                assert(ids.take(k - 1)[m] == ids[m]);
                lemma_position_iff_has_id(before, ids[m]);
                assert(before[jk].id == ids[m]);
                assert(ids[m] == ids[k - 1]);
            }
        }
        assert(next =~= prev.update(jk, after[jk])) by {
            assert forall|j: int| 0 <= j < before.len() && j != jk implies next[j] == prev[j] by {
                if started_at(before, ids.take(k), j) {
                    let m = choose|m: int|
                        0 <= m < ids.take(k).len() && position_of(before, #[trigger] ids.take(k)[m])
                            == Some(j);
                    if m == k - 1 {
                        assert(ids.take(k)[m] == ids[k - 1]);
                    } else {
                        assert(ids.take(k - 1)[m] == ids.take(k)[m]);
                        assert(started_at(before, ids.take(k - 1), j));
                    }
                } else {
                    if started_at(before, ids.take(k - 1), j) {
                        let m = choose|m: int|
                            0 <= m < ids.take(k - 1).len() && position_of(
                                before,
                                #[trigger] ids.take(k - 1)[m],
                            ) == Some(j);
                        assert(ids.take(k)[m] == ids.take(k - 1)[m]);
                    }
                }
            }
        }
        assert(started_at(before, ids, jk)) by {
            assert(position_of(before, ids[k - 1]) == Some(jk));
        }
        lemma_count_active_update(prev, jk, after[jk]);
    }
}

/// Starting the next batch never runs more downloads than the limit allows:
/// with distinct ids and no more running items than the limit, the batch adds
/// exactly its own size to the running count, and the total stays within the limit.
pub proof fn law_batch_respects_limit(before: Seq<QueueItem>, after: Seq<QueueItem>, max_concurrent: u32)
    requires
        ids_distinct(before),
        count_active(before) <= max_concurrent,
        batch_started(
            before,
            after,
            at_most(queued_ids(before), free_slots(max_concurrent, before)),
        ),
    ensures
        count_active(after) == count_active(before) + at_most(
            queued_ids(before),
            free_slots(max_concurrent, before),
        ).len(),
        count_active(after) <= max_concurrent,
{
    let q = queued_ids(before);
    let slots = free_slots(max_concurrent, before);
    let ids = at_most(q, slots);
    lemma_queued_ids_distinct(before);
    lemma_queued_ids_members(before);
    assert forall|m: int| 0 <= m < ids.len() implies is_waiting_id(before, #[trigger] ids[m]) by {
        assert(0 <= m < q.len());
        assert(ids[m] == q[m]);
        assert(is_waiting_id(before, q[m]));
    }
    assert(ids.no_duplicates()) by {
        assert forall|a: int, b: int| 0 <= a < ids.len() && 0 <= b < ids.len() && a != b implies ids[a] != ids[b] by {
            assert(ids[a] == q[a] && ids[b] == q[b]);
        }
    }
    assert(all_waiting(before, ids));
    lemma_batch_count(before, after, ids, ids.len() as int);
    assert(partly_started(before, after, ids, ids.len() as int) =~= after) by {
        assert(ids.take(ids.len() as int) =~= ids);
    }
}

} // verus!

verus! {

/// A line from the engine's log stream never lets the interface's log grow
/// past its limit, and the line is kept as the newest entry.
pub proof fn law_log_stream_bounded(logs: Seq<String>, line: String)
    requires
        logs.len() <= MAX_LOG_LINES,
    ensures
        logged(logs, line).len() <= MAX_LOG_LINES,
        logged(logs, line).last() == line,
{
}

} // verus!

verus! {

/// One of the operations that change a single item in place.
pub enum ItemOperation {
    Activate,
    Pause { ok: bool },
    Resume { ok: bool },
    Cancel { result: (bool, Option<usize>) },
    Retry { ok: bool },
    Complete { success: bool, error: Option<String>, file_path: Option<String>, file_size_bytes: Option<u64> },
    Seed { file_path: Option<String>, file_size_bytes: Option<u64>, torrent_id: Option<usize> },
    Progress { percent_bits: u64, speed_bits: u64, downloaded: u64, total: Option<u64>, torrent_id: Option<usize> },
    RecordInfo { info: MediaInfo },
}

/// `after` is `before` once `op` has run for `id`.
pub open spec fn performed(before: Seq<QueueItem>, after: Seq<QueueItem>, id: u64, op: ItemOperation) -> bool {
    match op {
        ItemOperation::Activate => activates(before, after, id),
        ItemOperation::Pause { ok } => pauses(before, after, id, ok),
        ItemOperation::Resume { ok } => resumes(before, after, id, ok),
        ItemOperation::Cancel { result } => cancels(before, after, id, result),
        ItemOperation::Retry { ok } => retries(before, after, id, ok),
        ItemOperation::Complete { success, error, file_path, file_size_bytes } => completes(
            before,
            after,
            id,
            success,
            opt_text(error),
            file_path,
            file_size_bytes,
        ),
        ItemOperation::Seed { file_path, file_size_bytes, torrent_id } => seeds(
            before,
            after,
            id,
            file_path,
            file_size_bytes,
            torrent_id,
        ),
        ItemOperation::Progress { percent_bits, speed_bits, downloaded, total, torrent_id } => match position_of(before, id) {
            None => after == before,
            Some(i) => after == before.update(i, after[i]) && progressed(
                before[i],
                after[i],
                percent_bits,
                speed_bits,
                downloaded,
                total,
                torrent_id,
            ),
        },
        ItemOperation::RecordInfo { info } => match position_of(before, id) {
            None => after == before,
            Some(i) => after == before.update(i, after[i]) && with_media(before[i], after[i], info),
        },
    }
}

/// The queue holds the same items in the same order, each with its id and
/// the configuration it was enqueued with.
pub open spec fn keeps_configuration(before: Seq<QueueItem>, after: Seq<QueueItem>) -> bool {
    &&& after.len() == before.len()
    &&& forall|j: int|
        0 <= j < before.len() ==> (#[trigger] after[j]).id == before[j].id && after[j].config
            == before[j].config
}

/// The configuration of a download is fixed at enqueue time: no operation
/// on a single item, recording its fetched media information included,
/// reorders the queue or changes an item's id or configuration.
pub proof fn law_item_operations_keep_configuration(
    before: Seq<QueueItem>,
    after: Seq<QueueItem>,
    id: u64,
    op: ItemOperation,
)
    requires
        performed(before, after, id, op),
    ensures
        keeps_configuration(before, after),
{
    if let Some(i) = position_of(before, id) {
        assert forall|j: int| 0 <= j < before.len() implies (#[trigger] after[j]).id == before[j].id
            && after[j].config == before[j].config by {
            if j != i {
                match op {
                    ItemOperation::Pause { ok } => { if ok { assert(after[j] == before[j]); } },
                    ItemOperation::Resume { ok } => { if ok { assert(after[j] == before[j]); } },
                    ItemOperation::Cancel { result } => { if result.0 { assert(after[j] == before[j]); } },
                    ItemOperation::Retry { ok } => { if ok { assert(after[j] == before[j]); } },
                    _ => { assert(after[j] == before[j]); },
                }
            }
        }
    }
}

} // verus!

verus! {

/// With distinct ids, a removed download is gone: no item carries its id any more.
pub proof fn law_remove_forgets_the_id(
    before: Seq<QueueItem>,
    after: Seq<QueueItem>,
    id: u64,
    r: Option<Option<usize>>,
)
    requires
        ids_distinct(before),
        removes(before, after, id, r),
    ensures
        r is Some <==> has_id(before, id),
        !has_id(after, id),
        after.len() == before.len() - (if r is Some { 1int } else { 0int }),
{
    lemma_position_iff_has_id(before, id);
    if let Some(i) = position_of(before, id) {
        assert forall|k: int| 0 <= k < after.len() implies #[trigger] after[k].id != id by {
            if k < i {
                assert(after[k] == before[k]);
            } else {
                assert(after[k] == before[k + 1]);
                assert(before[k + 1].id != before[i].id);
            }
        }
    }
}

} // verus!

verus! {

/// The lower-cased message names an authentication problem.
pub open spec fn names_auth(l: Seq<char>) -> bool {
    ||| seq_contains(l, "authentication"@) && seq_contains(l, "fail"@)
    ||| seq_contains(l, "login"@)
    ||| seq_contains(l, "sign in"@)
    ||| seq_contains(l, "403"@)
}

/// The lower-cased message names throttling by the platform.
pub open spec fn names_rate_limit(l: Seq<char>) -> bool {
    ||| seq_contains(l, "captcha"@)
    ||| seq_contains(l, "blocking"@)
    ||| seq_contains(l, "rate limit"@)
    ||| seq_contains(l, "429"@)
    ||| seq_contains(l, "too many"@)
}

/// The lower-cased message names private or age-restricted content.
pub open spec fn names_restriction(l: Seq<char>) -> bool {
    seq_contains(l, "private"@) || seq_contains(l, "restricted"@) || seq_contains(l, "age"@)
}

/// The lower-cased message says the downloaded file is missing.
pub open spec fn names_missing_file(l: Seq<char>) -> bool {
    seq_contains(l, "downloaded file"@) && seq_contains(l, "not found"@)
}

/// The lower-cased message says the content is gone.
pub open spec fn names_absence(l: Seq<char>) -> bool {
    ||| seq_contains(l, "not found"@)
    ||| seq_contains(l, "404"@)
    ||| seq_contains(l, "unavailable"@)
    ||| seq_contains(l, "deleted"@)
}

/// The lower-cased message names FFmpeg's work.
pub open spec fn names_ffmpeg(l: Seq<char>) -> bool {
    seq_contains(l, "ffmpeg"@) || seq_contains(l, "mux"@) || seq_contains(l, "merge"@)
}

/// The lower-cased message names a missing yt-dlp.
pub open spec fn names_ytdlp(l: Seq<char>) -> bool {
    seq_contains(l, "yt-dlp"@) || seq_contains(l, "ytdlp"@) || seq_contains(l, "no downloader"@)
}

/// The lower-cased message names a signature yt-dlp could not solve.
pub open spec fn names_outdated_extractor(l: Seq<char>) -> bool {
    seq_contains(l, "nsig"@) || seq_contains(l, "signature"@) || seq_contains(l, "cipher"@)
}

/// Each keyword of the rule list gives its class when no earlier rule's
/// keyword occurs: authentication first, then rate limiting, restriction,
/// a missing file, missing content, FFmpeg, a missing yt-dlp and an outdated
/// yt-dlp; a message that names none of them stays unclassified, with its
/// original text.
pub proof fn law_error_keywords(lower: Seq<char>, original: Seq<char>)
    ensures
        names_auth(lower) ==> classify(lower, original) is AuthRequired,
        !names_auth(lower) && names_rate_limit(lower) ==> classify(lower, original) is RateLimited,
        !names_auth(lower) && !names_rate_limit(lower) && names_restriction(lower)
            ==> classify(lower, original) is Restricted,
        !names_auth(lower) && !names_rate_limit(lower) && !names_restriction(lower)
            && names_missing_file(lower) ==> classify(lower, original) is FileMissing,
        !names_auth(lower) && !names_rate_limit(lower) && !names_restriction(lower)
            && !names_missing_file(lower) && names_absence(lower) ==> classify(lower, original) is NotFound,
        !names_auth(lower) && !names_rate_limit(lower) && !names_restriction(lower)
            && !names_missing_file(lower) && !names_absence(lower) && names_ffmpeg(lower)
            ==> classify(lower, original) is FfmpegNeeded,
        !names_auth(lower) && !names_rate_limit(lower) && !names_restriction(lower)
            && !names_missing_file(lower) && !names_absence(lower) && !names_ffmpeg(lower)
            && names_ytdlp(lower) ==> classify(lower, original) is YtdlpNeeded,
        !names_auth(lower) && !names_rate_limit(lower) && !names_restriction(lower)
            && !names_missing_file(lower) && !names_absence(lower) && !names_ffmpeg(lower)
            && !names_ytdlp(lower) && names_outdated_extractor(lower) ==> classify(lower, original) is YtdlpOutdated,
        !names_auth(lower) && !names_rate_limit(lower) && !names_restriction(lower)
            && !names_missing_file(lower) && !names_absence(lower) && !names_ffmpeg(lower)
            && !names_ytdlp(lower) && !names_outdated_extractor(lower) ==> classify(lower, original)
            == DownloadErrorView::Unknown(original),
{
}

/// A message that names rate limiting (and no authentication problem) is
/// shown with the rate-limit hint before it; a message that names nothing the
/// rules know is shown as it is.
pub proof fn law_rate_limit_message(raw: Seq<char>)
    ensures
        !names_auth(lowercase(raw)) && names_rate_limit(lowercase(raw)) ==> user_message_text(raw)
            == "Too many requests. Try again in a few minutes."@ + " ("@ + raw + ")"@,
        names_auth(lowercase(raw)) ==> user_message_text(raw)
            == "This content requires login. Install the browser extension and visit the site while logged in."@
            + " ("@ + raw + ")"@,
        !names_auth(lowercase(raw)) && !names_rate_limit(lowercase(raw)) && !names_restriction(
            lowercase(raw),
        ) && !names_missing_file(lowercase(raw)) && !names_absence(lowercase(raw)) && !names_ffmpeg(
            lowercase(raw),
        ) && !names_ytdlp(lowercase(raw)) && !names_outdated_extractor(lowercase(raw))
            ==> user_message_text(raw) == raw,
{
}

/// Recording fetched information counts one file per entry of a carousel or
/// playlist and one file for any single medium, shows that count in the
/// interface, and takes the size and title from the information.
pub proof fn law_recorded_file_count(before: QueueItem, after: QueueItem, info: MediaInfo)
    requires
        with_media(before, after, info),
    ensures
        info.media_type == MediaType::Carousel || info.media_type == MediaType::Playlist
            ==> after.progress.file_count == Some(info.available_qualities@.len() as u32),
        info.media_type == MediaType::Video || info.media_type == MediaType::Audio
            || info.media_type == MediaType::Image ==> after.progress.file_count == Some(1u32),
        after.spec_info().file_count == after.progress.file_count,
        after.progress.total_bytes == info.file_size_bytes,
        after.spec_info().title == info.title,
{
}

/// The interface's state holds one entry per item, in order, and each entry
/// reports that item's own fields: its id, address, platform, status,
/// percentage, speed, byte counts, phase, file, file count and thumbnail,
/// and the fetched title where there is one, else the configured title.
pub proof fn law_state_reports_item_fields(items: Seq<QueueItem>, infos: Seq<QueueItemInfo>)
    requires
        infos == items.map_values(|it: QueueItem| it.spec_info()),
    ensures
        infos.len() == items.len(),
        forall|k: int|
            0 <= k < items.len() ==> {
                &&& (#[trigger] infos[k]).id == items[k].id
                &&& infos[k].url == items[k].config.url
                &&& infos[k].platform == items[k].config.platform
                &&& infos[k].status == items[k].status
                &&& infos[k].percent_bits == items[k].progress.percent_bits
                &&& infos[k].speed_bits == items[k].progress.speed_bits
                &&& infos[k].downloaded_bytes == items[k].progress.downloaded_bytes
                &&& infos[k].total_bytes == items[k].progress.total_bytes
                &&& infos[k].phase == items[k].progress.phase
                &&& infos[k].file_path == items[k].progress.file_path
                &&& infos[k].file_size_bytes == items[k].progress.file_size_bytes
                &&& infos[k].file_count == items[k].progress.file_count
                &&& infos[k].thumbnail_url == match items[k].progress.media_info {
                    Some(m) => m.thumbnail_url,
                    None => None,
                }
                &&& infos[k].title == match items[k].progress.fetched_title {
                    Some(t) => t,
                    None => items[k].config.title,
                }
            },
{
}

} // verus!

# mangofetch

The bookkeeping core of a media downloader, verified with Verus.

`src/` is the library:

- `queue.rs` — the download queue: enqueueing, the status machine
  (queued, active, paused, seeding, complete, failed), progress, removal and
  clearing, each operation specified over the sequence of items.
- `pipeline.rs` — the decisions around one download: which waiting items start
  and after what delay, what a media-information fetch and a download's end do
  to the queue, what happens to a download that ends without releasing its slot.
- `recovery.rs` — the records persisted across restarts and how items come back.
- `errors.rs` — classification of downloader error messages and the message
  shown to the user.
- `cache.rs`, `throttle.rs`, `options.rs`, `media.rs` — the media-information
  cache, the progress-report throttle, download options filled in from the
  settings, and placeholder titles.
- `gui.rs`, `theme.rs` — the interface's state as events arrive and the brand colours.
- `laws.rs` — properties that relate several operations, proved.

`app/` holds what the library leaves to its caller: floating-point progress
figures, serialisable copies of the records, the reporter, the async loop that
runs downloads, the engine thread and the egui theme. `tests/` exercises the
library on concrete values.

use vstd::prelude::*;
use crate::item::HUNDRED_F64_BITS;
use crate::text::{joined, owned_text, same_text};
use crate::theme::BrandPreset;

verus! {

/// Most log lines the interface keeps from the engine's log stream.
pub const MAX_LOG_LINES: usize = 800;

/// Active tabs in the navigation.
#[derive(Debug, Clone, Copy, PartialEq, Eq, Structural)]
pub enum Tab {
    Home,
    Queue,
    Settings,
    Logs,
    About,
}

/// One row of the interface's queue table; progress and speed are `f64`
/// values kept as bit patterns.
#[derive(Debug)]
pub struct GuiQueueItem {
    pub id: u64,
    pub platform: String,
    pub title: String,
    pub status: String,
    pub progress_bits: u64,
    pub speed_bits: u64,
    pub eta_seconds: Option<u64>,
}

/// What a link inspection found.
#[derive(Debug)]
pub struct GuiMediaInfo {
    pub title: String,
    pub platform: String,
    pub duration_seconds: Option<u64>,
}

/// What the engine tells the interface.
#[derive(Debug)]
pub enum CoreEvent {
    QueueUpdated(Vec<GuiQueueItem>),
    DownloadProgress { id: u64, progress_bits: u64, speed_bits: u64, eta_seconds: Option<u64> },
    DownloadComplete { id: u64, title: String },
    DownloadError { id: u64, error: String },
    MediaInfoFetched(Result<GuiMediaInfo, String>),
    DependencyStatus { ytdlp: bool, ffmpeg: bool },
    LogLine(String),
}

/// What the interface asks of the engine.
#[derive(Debug)]
pub enum GuiCommand {
    RefreshQueue,
    CheckDependencies,
    FetchMediaInfo { url: String },
    StartDownload { url: String, output_dir: String, quality: Option<String>, audio_only: bool },
    PauseDownload { id: u64 },
    ResumeDownload { id: u64 },
    RemoveDownload { id: u64 },
    Shutdown,
}

/// The decimal digits of a number.
pub open spec fn decimal(n: nat) -> Seq<char>
    decreases n,
{
    if n < 10 {
        seq![digit_char(n)]
    } else {
        decimal(n / 10).push(digit_char(n % 10))
    }
}

/// The character of a decimal digit.
pub open spec fn digit_char(d: nat) -> char {
    if d == 0 { '0' } else if d == 1 { '1' } else if d == 2 { '2' } else if d == 3 { '3' }
    else if d == 4 { '4' } else if d == 5 { '5' } else if d == 6 { '6' } else if d == 7 { '7' }
    else if d == 8 { '8' } else { '9' }
}

/// The text of one decimal digit.
fn digit_text(d: u64) -> (s: String)
    requires
        d < 10,
    ensures
        s@ == seq![digit_char(d as nat)],
{
    proof {
        reveal_strlit("0");
        reveal_strlit("1");
        reveal_strlit("2");
        reveal_strlit("3");
        reveal_strlit("4");
        reveal_strlit("5");
        reveal_strlit("6");
        reveal_strlit("7");
        reveal_strlit("8");
        reveal_strlit("9");
    }
    let s = if d == 0 {
        owned_text("0")
    } else if d == 1 {
        owned_text("1")
    } else if d == 2 {
        owned_text("2")
    } else if d == 3 {
        owned_text("3")
    } else if d == 4 {
        owned_text("4")
    } else if d == 5 {
        owned_text("5")
    } else if d == 6 {
        owned_text("6")
    } else if d == 7 {
        owned_text("7")
    } else if d == 8 {
        owned_text("8")
    } else {
        owned_text("9")
    };
    assert(s@ =~= seq![digit_char(d as nat)]);
    s
}

/// The decimal digits of a number, without sign or padding.
fn decimal_text(n: u64) -> (s: String)
    ensures
        s@ == decimal(n as nat),
    decreases n,
{
    if n < 10 {
        digit_text(n)
    } else {
        let mut s = decimal_text(n / 10);
        let d = digit_text(n % 10);
        s.append(d.as_str());
        assert(s@ =~= decimal((n / 10) as nat).push(digit_char((n % 10) as nat)));
        s
    }
}

/// The command behind a row's pause-or-resume control: a running download
/// can be paused, a paused one resumed, and any other row has no such control.
pub fn toggle_command(row: &GuiQueueItem) -> (cmd: Option<GuiCommand>)
    ensures
        row.status@ == "Active"@ ==> (cmd matches Some(GuiCommand::PauseDownload { id }) && id == row.id),
        row.status@ == "Paused"@ ==> (cmd matches Some(GuiCommand::ResumeDownload { id }) && id == row.id),
        row.status@ != "Active"@ && row.status@ != "Paused"@ ==> cmd is None,
{
    proof {
        reveal_strlit("Active");
        reveal_strlit("Paused");
        assert("Active"@[0] != "Paused"@[0]);
    }
    if same_text(row.status.as_str(), "Active") {
        Some(GuiCommand::PauseDownload { id: row.id })
    } else if same_text(row.status.as_str(), "Paused") {
        Some(GuiCommand::ResumeDownload { id: row.id })
    } else {
        None
    }
}

/// The command behind a row's remove control, which every row has.
pub fn remove_command(row: &GuiQueueItem) -> (cmd: GuiCommand)
    ensures
        cmd matches GuiCommand::RemoveDownload { id } && id == row.id,
{
    GuiCommand::RemoveDownload { id: row.id }
}

/// How many rows show a running download.
pub open spec fn active_rows(rows: Seq<GuiQueueItem>) -> nat
    decreases rows.len(),
{
    if rows.len() == 0 {
        0
    } else {
        active_rows(rows.drop_last()) + if rows.last().status@ == "Active"@ {
            1nat
        } else {
            0nat
        }
    }
}

/// The top bar's label for the running downloads.
pub open spec fn active_label(count: nat) -> Seq<char> {
    "ACTIVE DOWNLOADS: "@ + decimal(count)
}

/// The position of the first row with this id, if any.
pub open spec fn row_of(items: Seq<GuiQueueItem>, id: u64) -> Option<int> {
    if exists|i: int| 0 <= i < items.len() && items[i].id == id && forall|j: int| 0 <= j < i ==> items[j].id != id {
        Some(choose|i: int| 0 <= i < items.len() && items[i].id == id && forall|j: int| 0 <= j < i ==> items[j].id != id)
    } else {
        None
    }
}

/// The line logged for a finished download.
pub open spec fn completion_line(title: Seq<char>) -> Seq<char> {
    "✓ ["@ + title + "] Completed successfully"@
}

/// The line logged for a failed download.
pub open spec fn error_line(id: u64, error: Seq<char>) -> Seq<char> {
    "✗ [ID #"@ + decimal(id as nat) + "] Error: "@ + error
}

/// The line logged when a download is handed to the engine.
pub open spec fn enqueued_line(url: Seq<char>) -> Seq<char> {
    "Enqueued download: "@ + url
}

/// The log after a line from the engine: appended, and the oldest line
/// dropped when there are more than the limit.
pub open spec fn logged(logs: Seq<String>, line: String) -> Seq<String> {
    if logs.len() + 1 > MAX_LOG_LINES {
        logs.push(line).drop_first()
    } else {
        logs.push(line)
    }
}

/// `after` differs from `before` at most in its rows and its log.
pub open spec fn only_rows_and_log_changed(before: MangoFetchApp, after: MangoFetchApp) -> bool {
    after == (MangoFetchApp { items: after.items, logs: after.logs, ..before })
}

/// `after` differs from `before` at most in the link preview.
pub open spec fn only_preview_changed(before: MangoFetchApp, after: MangoFetchApp) -> bool {
    after == (MangoFetchApp {
        media_info_loading: after.media_info_loading,
        media_info: after.media_info,
        media_info_error: after.media_info_error,
        ..before
    })
}

/// `after` is `before` with a progress report applied to the row of `id`.
pub open spec fn progress_applied(
    before: MangoFetchApp,
    after: MangoFetchApp,
    id: u64,
    progress_bits: u64,
    speed_bits: u64,
    eta_seconds: Option<u64>,
) -> bool {
    &&& only_rows_and_log_changed(before, after)
    &&& after.logs@ == before.logs@
    &&& match row_of(before.items@, id) {
        None => after.items@ == before.items@,
        Some(i) => after.items@ == before.items@.update(
            i,
            GuiQueueItem { progress_bits, speed_bits, eta_seconds, ..before.items@[i] },
        ),
    }
}

/// `after` is `before` with the row of `id` complete and the completion logged.
pub open spec fn completion_applied(before: MangoFetchApp, after: MangoFetchApp, id: u64, title: Seq<char>) -> bool {
    &&& only_rows_and_log_changed(before, after)
    &&& after.logs@.len() == before.logs@.len() + 1
    &&& after.logs@.drop_last() == before.logs@
    &&& after.logs@.last()@ == completion_line(title)
    &&& match row_of(before.items@, id) {
        None => after.items@ == before.items@,
        Some(i) => {
            &&& after.items@ == before.items@.update(i, after.items@[i])
            &&& after.items@[i] == (GuiQueueItem {
                status: after.items@[i].status,
                progress_bits: HUNDRED_F64_BITS,
                ..before.items@[i]
            })
            &&& after.items@[i].status@ == "Complete"@
        },
    }
}

/// `after` is `before` with the row of `id` failed and the error logged, or
/// unchanged when no row has the id.
pub open spec fn error_applied(before: MangoFetchApp, after: MangoFetchApp, id: u64, error: Seq<char>) -> bool {
    &&& only_rows_and_log_changed(before, after)
    &&& match row_of(before.items@, id) {
        None => after.items@ == before.items@ && after.logs@ == before.logs@,
        Some(i) => {
            &&& after.items@ == before.items@.update(i, after.items@[i])
            &&& after.items@[i] == (GuiQueueItem { status: after.items@[i].status, ..before.items@[i] })
            &&& after.items@[i].status@ == "Error"@
            &&& after.logs@.len() == before.logs@.len() + 1
            &&& after.logs@.drop_last() == before.logs@
            &&& after.logs@.last()@ == error_line(id, error)
        },
    }
}

/// `after` is `before` with one event from the engine applied.
pub open spec fn event_applied(before: MangoFetchApp, after: MangoFetchApp, event: CoreEvent) -> bool {
    match event {
        CoreEvent::QueueUpdated(rows) => after == (MangoFetchApp { items: rows, ..before }),
        CoreEvent::DownloadProgress { id, progress_bits, speed_bits, eta_seconds } => progress_applied(
            before,
            after,
            id,
            progress_bits,
            speed_bits,
            eta_seconds,
        ),
        CoreEvent::DownloadComplete { id, title } => completion_applied(before, after, id, title@),
        CoreEvent::DownloadError { id, error } => error_applied(before, after, id, error@),
        CoreEvent::MediaInfoFetched(result) => {
            &&& only_preview_changed(before, after)
            &&& !after.media_info_loading
            &&& match result {
                Ok(info) => after.media_info == Some(info) && after.media_info_error is None,
                Err(e) => after.media_info is None && after.media_info_error == Some(e),
            }
        },
        CoreEvent::DependencyStatus { ytdlp, ffmpeg } => after == (MangoFetchApp {
            ytdlp_installed: ytdlp,
            ffmpeg_installed: ffmpeg,
            ..before
        }),
        CoreEvent::LogLine(line) => after == (MangoFetchApp { logs: after.logs, ..before })
            && after.logs@ == logged(before.logs@, line),
    }
}

/// `after` is `before` with `events` applied one after the other.
pub open spec fn events_applied(before: MangoFetchApp, after: MangoFetchApp, events: Seq<CoreEvent>) -> bool {
    exists|states: Seq<MangoFetchApp>|
        #![trigger states.len()]
        states.len() == events.len() + 1 && states[0] == before && states.last() == after
            && forall|m: int| 0 <= m < events.len() ==> event_applied(states[m], states[m + 1], #[trigger] events[m])
}

/// The interface's own state: what it shows and what the user has entered.
pub struct MangoFetchApp {
    pub current_tab: Tab,
    pub theme: BrandPreset,
    pub items: Vec<GuiQueueItem>,
    pub logs: Vec<String>,
    pub ytdlp_installed: bool,
    pub ffmpeg_installed: bool,
    pub input_url: String,
    pub output_dir: String,
    pub audio_only: bool,
    pub selected_quality: String,
    pub media_info_loading: bool,
    pub media_info: Option<GuiMediaInfo>,
    pub media_info_error: Option<String>,
    pub concurrent_limit: usize,
    pub auto_retry: bool,
}

impl MangoFetchApp {
    /// The state at start-up, saving into `output_dir`.
    pub fn new(output_dir: String) -> (app: Self)
        ensures
            app.current_tab == Tab::Home,
            app.theme == BrandPreset::PlasmCore,
            app.items@.len() == 0,
            app.logs@.len() == 0,
            !app.ytdlp_installed,
            !app.ffmpeg_installed,
            app.input_url@.len() == 0,
            app.output_dir == output_dir,
            !app.audio_only,
            app.selected_quality@ == "Best"@,
            !app.media_info_loading,
            app.media_info is None,
            app.media_info_error is None,
            app.concurrent_limit == 3,
            app.auto_retry,
    {
        MangoFetchApp {
            current_tab: Tab::Home,
            theme: BrandPreset::PlasmCore,
            items: Vec::new(),
            logs: Vec::new(),
            ytdlp_installed: false,
            ffmpeg_installed: false,
            input_url: String::new(),
            output_dir,
            audio_only: false,
            selected_quality: owned_text("Best"),
            media_info_loading: false,
            media_info: None,
            media_info_error: None,
            concurrent_limit: 3,
            auto_retry: true,
        }
    }

    /// The commands sent at start-up: check the dependencies, then load the queue.
    pub fn initial_commands() -> (cmds: Vec<GuiCommand>)
        ensures
            cmds@.len() == 2,
            cmds@[0] is CheckDependencies,
            cmds@[1] is RefreshQueue,
    {
        let mut cmds: Vec<GuiCommand> = Vec::new();
        cmds.push(GuiCommand::CheckDependencies);
        cmds.push(GuiCommand::RefreshQueue);
        cmds
    }

    /// The position of the first row with this id.
    fn find_row(&self, id: u64) -> (r: Option<usize>)
        ensures
            match r {
                Some(i) => row_of(self.items@, id) == Some(i as int),
                None => row_of(self.items@, id) is None,
            },
    {
        let mut i: usize = 0;
        while i < self.items.len()
            invariant
                i <= self.items@.len(),
                forall|j: int| 0 <= j < i ==> self.items@[j].id != id,
            decreases self.items@.len() - i,
        {
            if self.items[i].id == id {
                proof {
                    let k = choose|k: int| 0 <= k < self.items@.len() && self.items@[k].id == id
                        && forall|j: int| 0 <= j < k ==> self.items@[j].id != id;
                    assert(0 <= i < self.items@.len() && self.items@[i as int].id == id
                        && forall|j: int| 0 <= j < i ==> self.items@[j].id != id);
                    if k < i {
                        assert(self.items@[k].id != id);
                    } else if i < k {
                        assert(self.items@[i as int].id != id);
                    }
                }
                return Some(i);
            }
            i = i + 1;
        }
        None
    }

    /// Appends a line from the engine's log stream, dropping the oldest line
    /// when the log grows past its limit.
    pub fn push_log_line(&mut self, line: String)
        ensures
            *final(self) == (MangoFetchApp { logs: final(self).logs, ..*old(self) }),
            final(self).logs@ == logged(old(self).logs@, line),
    {
        self.logs.push(line);
        if self.logs.len() > MAX_LOG_LINES {
            self.logs.remove(0);
        }
    }

    /// Records progress for the first row with this id.
    pub fn apply_progress(&mut self, id: u64, progress_bits: u64, speed_bits: u64, eta_seconds: Option<u64>)
        ensures
            progress_applied(*old(self), *final(self), id, progress_bits, speed_bits, eta_seconds),
    {
        if let Some(i) = self.find_row(id) {
            let item = &mut self.items[i];
            item.progress_bits = progress_bits;
            item.speed_bits = speed_bits;
            item.eta_seconds = eta_seconds;
        }
    }

    /// Marks the first row with this id complete and logs the completion.
    pub fn apply_complete(&mut self, id: u64, title: String)
        ensures
            completion_applied(*old(self), *final(self), id, title@),
    {
        let ghost old_items = self.items@;
        let ghost old_logs = self.logs@;
        if let Some(i) = self.find_row(id) {
            let item = &mut self.items[i];
            item.status = owned_text("Complete");
            item.progress_bits = HUNDRED_F64_BITS;
            assert(self.items@ =~= old_items.update(i as int, self.items@[i as int]));
        }
        let mut line = joined("✓ [", title.as_str());
        line.append("] Completed successfully");
        self.logs.push(line);
        assert(self.logs@.drop_last() =~= old_logs);
    }

    /// Marks the first row with this id failed and logs the error; an
    /// unknown id changes nothing.
    pub fn apply_error(&mut self, id: u64, error: String)
        ensures
            error_applied(*old(self), *final(self), id, error@),
    {
        let ghost old_items = self.items@;
        let ghost old_logs = self.logs@;
        if let Some(i) = self.find_row(id) {
            let item = &mut self.items[i];
            item.status = owned_text("Error");
            assert(self.items@ =~= old_items.update(i as int, self.items@[i as int]));
            let digits = decimal_text(id);
            let mut line = joined("✗ [ID #", digits.as_str());
            line.append("] Error: ");
            line.append(error.as_str());
            self.logs.push(line);
            assert(self.logs@.drop_last() =~= old_logs);
        }
    }

    /// Shows the result of a link inspection.
    pub fn apply_media_info(&mut self, result: Result<GuiMediaInfo, String>)
        ensures
            only_preview_changed(*old(self), *final(self)),
            !final(self).media_info_loading,
            match result {
                Ok(info) => final(self).media_info == Some(info) && final(self).media_info_error is None,
                Err(e) => final(self).media_info is None && final(self).media_info_error == Some(e),
            },
    {
        self.media_info_loading = false;
        match result {
            Ok(info) => {
                self.media_info = Some(info);
                self.media_info_error = None;
            },
            Err(err) => {
                self.media_info = None;
                self.media_info_error = Some(err);
            },
        }
    }

    /// Applies one event from the engine.
    pub fn apply_event(&mut self, event: CoreEvent)
        ensures
            event_applied(*old(self), *final(self), event),
    {
        match event {
            CoreEvent::QueueUpdated(rows) => {
                self.items = rows;
            },
            CoreEvent::DownloadProgress { id, progress_bits, speed_bits, eta_seconds } => {
                self.apply_progress(id, progress_bits, speed_bits, eta_seconds);
            },
            CoreEvent::DownloadComplete { id, title } => {
                self.apply_complete(id, title);
            },
            CoreEvent::DownloadError { id, error } => {
                self.apply_error(id, error);
            },
            CoreEvent::MediaInfoFetched(result) => {
                self.apply_media_info(result);
            },
            CoreEvent::DependencyStatus { ytdlp, ffmpeg } => {
                self.ytdlp_installed = ytdlp;
                self.ffmpeg_installed = ffmpeg;
            },
            CoreEvent::LogLine(line) => {
                self.push_log_line(line);
            },
        }
    }

    /// Applies the engine's pending events in order.
    pub fn drain_events(&mut self, events: Vec<CoreEvent>)
        ensures
            events_applied(*old(self), *final(self), events@),
    {
        let ghost all = events@;
        let ghost mut states: Seq<MangoFetchApp> = seq![*self];
        let mut rest = events;
        let n = rest.len();
        let mut k: usize = 0;
        while k < n
            invariant
                n == all.len(),
                k <= n,
                rest@ == all.subrange(k as int, n as int),
                states.len() == k + 1,
                states[0] == *old(self),
                states[k as int] == *self,
                forall|m: int| 0 <= m < k ==> event_applied(states[m], states[m + 1], #[trigger] all[m]),
            decreases n - k,
        {
            let event = rest.remove(0);
            self.apply_event(event);
            proof {
                states = states.push(*self);
            }
            k = k + 1;
            assert(rest@ =~= all.subrange(k as int, n as int));
        }
        assert(states.last() == *self);
    }

    /// How many rows show a running download.
    pub fn active_download_count(&self) -> (n: usize)
        ensures
            n == active_rows(self.items@),
    {
        let mut n: usize = 0;
        let mut i: usize = 0;
        while i < self.items.len()
            invariant
                i <= self.items@.len(),
                n <= i,
                n == active_rows(self.items@.take(i as int)),
            decreases self.items@.len() - i,
        {
            proof {
                assert(self.items@.take(i + 1).drop_last() =~= self.items@.take(i as int));
            }
            if same_text(self.items[i].status.as_str(), "Active") {
                n = n + 1;
            }
            i = i + 1;
        }
        assert(self.items@.take(i as int) =~= self.items@);
        n
    }

    /// The top bar's label: `ACTIVE DOWNLOADS: ` and the number of rows
    /// that show a running download.
    pub fn active_downloads_label(&self) -> (s: String)
        ensures
            s@ == active_label(active_rows(self.items@)),
    {
        let n = self.active_download_count();
        let digits = decimal_text(n as u64);
        joined("ACTIVE DOWNLOADS: ", digits.as_str())
    }

    /// Switches tab; opening the queue also asks for a fresh queue state.
    pub fn select_tab(&mut self, tab: Tab) -> (cmd: Option<GuiCommand>)
        ensures
            *final(self) == (MangoFetchApp { current_tab: tab, ..*old(self) }),
            tab == Tab::Queue ==> cmd matches Some(GuiCommand::RefreshQueue),
            tab != Tab::Queue ==> cmd is None,
    {
        self.current_tab = tab;
        if tab == Tab::Queue {
            Some(GuiCommand::RefreshQueue)
        } else {
            None
        }
    }

    /// Starts inspecting the entered link: the preview is cleared and marked
    /// as loading. Nothing happens while no link is entered.
    pub fn fetch_preview(&mut self) -> (cmd: Option<GuiCommand>)
        ensures
            old(self).input_url@.len() == 0 ==> cmd is None && *final(self) == *old(self),
            old(self).input_url@.len() > 0 ==> {
                &&& cmd matches Some(GuiCommand::FetchMediaInfo { url }) && url == old(self).input_url
                &&& only_preview_changed(*old(self), *final(self))
                &&& final(self).media_info_loading
                &&& final(self).media_info is None
                &&& final(self).media_info_error is None
            },
    {
        if self.input_url.unicode_len() == 0 {
            return None;
        }
        self.media_info_loading = true;
        self.media_info = None;
        self.media_info_error = None;
        Some(GuiCommand::FetchMediaInfo { url: self.input_url.clone() })
    }

    /// Hands the entered link to the engine with the chosen options, logs it,
    /// clears the form and shows the queue. Nothing happens while no link is entered.
    pub fn enqueue_download(&mut self) -> (cmd: Option<GuiCommand>)
        ensures
            old(self).input_url@.len() == 0 ==> cmd is None && *final(self) == *old(self),
            old(self).input_url@.len() > 0 ==> {
                &&& cmd matches Some(GuiCommand::StartDownload { url, output_dir, quality, audio_only })
                    && url == old(self).input_url && output_dir == old(self).output_dir
                    && quality == Some(old(self).selected_quality) && audio_only == old(self).audio_only
                &&& *final(self) == (MangoFetchApp {
                    logs: final(self).logs,
                    input_url: final(self).input_url,
                    media_info: None,
                    current_tab: Tab::Queue,
                    ..*old(self)
                })
                &&& final(self).logs@.len() == old(self).logs@.len() + 1
                &&& final(self).logs@.drop_last() == old(self).logs@
                &&& final(self).logs@.last()@ == enqueued_line(old(self).input_url@)
                &&& final(self).input_url@.len() == 0
            },
    {
        if self.input_url.unicode_len() == 0 {
            return None;
        }
        let cmd = GuiCommand::StartDownload {
            url: self.input_url.clone(),
            output_dir: self.output_dir.clone(),
            quality: Some(self.selected_quality.clone()),
            audio_only: self.audio_only,
        };
        self.logs.push(joined("Enqueued download: ", self.input_url.as_str()));
        self.input_url = String::new();
        self.media_info = None;
        self.current_tab = Tab::Queue;
        Some(cmd)
    }
}

} // verus!

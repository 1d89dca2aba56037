use vstd::prelude::*;

use std::collections::VecDeque;

use crate::events::{AppEvent, AppEventView};
use crate::files::{default_root, derive_dirs, is_verbatim, join_shape, joined_with_separator};
use crate::mode::ScanMode;
use crate::po::occurs_in;
use crate::text::{after_last_slash, is_plain_path, opt_view, path_debug_rendering, path_debug, decimal, path_file_name, push_decimal, push_two_digits, two_digits};

verus! {

/// The activity log keeps at most this many lines.
pub const MAX_LOG_LINES: usize = 200;

/// A log line stamped with the time of day (UTC) of `secs` seconds since the epoch:
/// `[hh:mm:ss] msg`.
pub open spec fn log_line(secs: u64, msg: Seq<char>) -> Seq<char> {
    "["@ + two_digits(((secs % 86400) / 3600) as nat) + ":"@ + two_digits(((secs % 3600) / 60) as nat)
        + ":"@ + two_digits((secs % 60) as nat) + "] "@ + msg
}

/// The log after appending `line`: the oldest line goes when the log is full.
pub open spec fn appended(log: Seq<Seq<char>>, line: Seq<char>) -> Seq<Seq<char>> {
    if log.len() >= MAX_LOG_LINES {
        log.drop_first().push(line)
    } else {
        log.push(line)
    }
}

/// Appending to a log of at most `MAX_LOG_LINES` lines keeps it within the
/// bound, puts the new line last, and keeps the newest of the old lines in order.
pub proof fn lemma_appended(log: Seq<Seq<char>>, line: Seq<char>)
    requires
        log.len() <= MAX_LOG_LINES,
    ensures
        appended(log, line).len() <= MAX_LOG_LINES,
        appended(log, line).len() == (if log.len() == MAX_LOG_LINES { log.len() } else { log.len() + 1 }),
        appended(log, line).last() == line,
        appended(log, line).drop_last() == log.subrange(
            log.len() - (appended(log, line).len() - 1),
            log.len() as int,
        ),
{
    let r = appended(log, line);
    if log.len() >= MAX_LOG_LINES {
        assert(r.drop_last() =~= log.subrange(1, log.len() as int));
    } else {
        assert(r.drop_last() =~= log.subrange(0, log.len() as int));
    }
}

/// Whether a hardware scan is running after the window handled `event`:
/// only a finished scan clears the flag, and no event sets it.
pub open spec fn scanning_after_event(scanning: bool, event: AppEventView) -> bool {
    match event {
        AppEventView::HardwareScanReady(_) => false,
        _ => scanning,
    }
}

/// Whether a hardware scan is running after the window handled `events` in order.
pub open spec fn scanning_after_events(scanning: bool, events: Seq<AppEventView>) -> bool
    decreases events.len(),
{
    if events.len() == 0 {
        scanning
    } else {
        scanning_after_event(scanning_after_events(scanning, events.drop_last()), events.last())
    }
}

/// After draining any sequence of events, a hardware scan is still marked as
/// running exactly when it was before and no `HardwareScanReady` came.
pub proof fn lemma_scanning_after_events(scanning: bool, events: Seq<AppEventView>)
    ensures
        scanning_after_events(scanning, events) == (scanning && forall|i: int|
            0 <= i < events.len() ==> !(#[trigger] events[i] is HardwareScanReady)),
    decreases events.len(),
{
    if events.len() > 0 {
        lemma_scanning_after_events(scanning, events.drop_last());
        if events.last() is HardwareScanReady {
            assert(events[events.len() - 1] is HardwareScanReady);
        } else {
            if scanning && forall|i: int| 0 <= i < events.drop_last().len() ==> !(#[trigger] events.drop_last()[i] is HardwareScanReady) {
                assert forall|i: int| 0 <= i < events.len() implies !(#[trigger] events[i] is HardwareScanReady) by {
                    if i < events.len() - 1 {
                        assert(events.drop_last()[i] == events[i]);
                    }
                }
            }
        }
    }
}

/// Formats `msg` as a log line for the time `secs`.
pub fn format_log_line(secs: u64, msg: &str) -> (line: String)
    ensures
        line@ == log_line(secs, msg@),
{
    let mut line = String::from_str("[");
    push_two_digits(&mut line, (secs % 86400) / 3600);
    line.append(":");
    push_two_digits(&mut line, (secs % 3600) / 60);
    line.append(":");
    push_two_digits(&mut line, secs % 60);
    line.append("] ");
    line.append(msg);
    proof {
        assert(line@ =~= log_line(secs, msg@));
    }
    line
}

/// The activity log of the front-end: the newest lines, oldest first.
pub struct ActivityLog {
    pub lines: VecDeque<String>,
}

impl ActivityLog {
    /// The lines as text.
    pub open spec fn view_lines(&self) -> Seq<Seq<char>> {
        self.lines@.map_values(|s: String| s@)
    }

    /// The log never holds more than `MAX_LOG_LINES` lines.
    pub open spec fn wf(&self) -> bool {
        self.lines@.len() <= MAX_LOG_LINES
    }

    pub fn new() -> (log: ActivityLog)
        ensures
            log.wf(),
            log.view_lines() == Seq::<Seq<char>>::empty(),
    {
        let log = ActivityLog { lines: VecDeque::new() };
        proof {
            assert(log.view_lines() =~= Seq::<Seq<char>>::empty());
        }
        log
    }

    /// Appends `msg` stamped with the time `secs`, dropping the oldest line
    /// when the log is full.
    pub fn push_log(&mut self, msg: &str, secs: u64)
        requires
            old(self).wf(),
        ensures
            final(self).wf(),
            final(self).view_lines() == appended(old(self).view_lines(), log_line(secs, msg@)),
    {
        let line = format_log_line(secs, msg);
        if self.lines.len() >= MAX_LOG_LINES {
            self.lines.pop_front();
        }
        self.lines.push_back(line);
        proof {
            assert(final(self).view_lines() =~= appended(old(self).view_lines(), log_line(secs, msg@)));
        }
    }
}

/// The file name shown for a path: its last component, or nothing when it has none.
fn file_name_or_empty(p: &str) -> (name: String)
    ensures
        occurs_in(name@, p@),
        !is_verbatim(p@) ==> !name@.contains('/'),
        is_plain_path(p@) ==> name@ == after_last_slash(p@),
{
    match path_file_name(p) {
        Some(n) => n,
        None => {
            let empty = String::new();
            proof {
                assert(p@.subrange(0int, 0int + empty@.len()) =~= empty@);
            }
            empty
        },
    }
}

/// Work the front-end performs after handling an event.
#[derive(Debug)]
pub enum UiAction {
    /// Show this image in the preview.
    LoadPreview(String),
    /// Process this image in the background.
    SpawnProcess(String),
}

/// The state of the desktop front-end, apart from its widgets and channels.
pub struct AppState {
    // Settings (user-editable)
    pub root_directory: String,
    pub mode: ScanMode,
    pub tesseract_cmd: String,
    pub tesseract_ok: bool,
    // Directories derived from the root
    pub waves_dir: String,
    pub finished_dir: String,
    pub error_dir: String,
    // What the window shows
    pub preview_path: Option<String>,
    pub last_id: Option<String>,
    pub log: ActivityLog,
    pub is_scanning: bool,
    pub status: String,
}

/// The settings and directories of two states agree.
pub open spec fn same_setup(a: &AppState, b: &AppState) -> bool {
    &&& a.root_directory == b.root_directory
    &&& a.mode == b.mode
    &&& a.tesseract_cmd == b.tesseract_cmd
    &&& a.tesseract_ok == b.tesseract_ok
    &&& a.waves_dir == b.waves_dir
    &&& a.finished_dir == b.finished_dir
    &&& a.error_dir == b.error_dir
}

/// The message logged when processing finished and the file was moved.
pub open spec fn moved_message(
    source_name: Seq<char>,
    dest_name: Seq<char>,
    id: Option<Seq<char>>,
) -> Seq<char> {
    "✓ "@ + source_name + " → "@ + dest_name + " ["@ + (match id {
        Some(i) => i,
        None => "(no ID)"@,
    }) + "]"@
}

/// The status line after a successful move.
pub open spec fn last_id_status(id: Option<Seq<char>>) -> Seq<char> {
    "Last ID: "@ + match id {
        Some(i) => i,
        None => "—"@,
    }
}

impl AppState {
    pub open spec fn wf(&self) -> bool {
        self.log.wf()
    }

    /// The state at start-up: default root and its directories, Auto mode, the
    /// OCR command found at start-up (or plain `tesseract`, marked as not
    /// found), and one log line announcing the start.
    pub fn new(found_tesseract: Option<String>, secs: u64) -> (app: AppState)
        ensures
            app.wf(),
            app.root_directory@.len() == 12,
            crate::files::is_separator_char(app.root_directory@[0]),
            app.root_directory@.subrange(1, 12) == "renamescans"@,
            joined_with_separator(app.waves_dir@, app.root_directory@, "waves"@),
            joined_with_separator(app.finished_dir@, app.root_directory@, "wavesfinished"@),
            joined_with_separator(app.error_dir@, app.finished_dir@, "UncapturedPO"@),
            app.mode == ScanMode::Auto,
            app.tesseract_ok == found_tesseract is Some,
            app.tesseract_cmd@ == (match found_tesseract {
                Some(cmd) => cmd@,
                None => "tesseract"@,
            }),
            app.preview_path is None,
            app.last_id is None,
            app.is_scanning == false,
            app.status@ == "Ready"@,
            app.log.view_lines() == seq![log_line(secs, "Application started."@)],
    {
        let root_directory = default_root();
        proof {
            reveal_strlit("renamescans");
            assert(root_directory@[1] == root_directory@.subrange(1, 12)[0]);
            assert(root_directory@[1] == 'r');
            assert(!crate::files::is_verbatim(root_directory@)) by {
                if root_directory@.subrange(0, 4) == seq!['\\', '\\', '?', '\\'] {
                    assert(root_directory@.subrange(0, 4)[1] == root_directory@[1]);
                }
            }
        }
        let (waves_dir, finished_dir, error_dir) = derive_dirs(root_directory.as_str());
        proof {
            assert(root_directory@.last() == root_directory@.subrange(1, 12)[10]);
            assert(crate::files::is_ascii_alnum(root_directory@.last()));
            reveal_strlit("wavesfinished");
            let c = choose|c: char|
                crate::files::is_separator_char(c) && finished_dir@ == root_directory@ + seq![c]
                    + "wavesfinished"@;
            assert(finished_dir@.last() == 'd');
        }
        let (tesseract_cmd, tesseract_ok) = match found_tesseract {
            Some(cmd) => (cmd, true),
            None => (String::from_str("tesseract"), false),
        };
        let mut app = AppState {
            root_directory,
            mode: ScanMode::Auto,
            tesseract_cmd,
            tesseract_ok,
            waves_dir,
            finished_dir,
            error_dir,
            preview_path: None,
            last_id: None,
            log: ActivityLog::new(),
            is_scanning: false,
            status: String::from_str("Ready"),
        };
        app.log.push_log("Application started.", secs);
        proof {
            assert(app.log.view_lines() =~= seq![log_line(secs, "Application started."@)]);
        }
        app
    }

    /// Updates the state for one event from the background work and returns
    /// the work the front-end has to do next. Every event adds exactly one log line.
    pub fn handle_event(&mut self, event: AppEvent, secs: u64) -> (actions: Vec<UiAction>)
        requires
            old(self).wf(),
        ensures
            final(self).wf(),
            same_setup(final(self), old(self)),
            final(self).preview_path == old(self).preview_path,
            final(self).is_scanning == scanning_after_event(old(self).is_scanning, event@),
            match event {
                AppEvent::FileDetected(p) => {
                    &&& final(self).log.view_lines() == appended(
                        old(self).log.view_lines(),
                        log_line(secs, "File detected: "@ + p@),
                    )
                    &&& final(self).status@ == "Processing "@ + p@ + "…"@
                    &&& final(self).last_id == old(self).last_id
                    &&& final(self).is_scanning == old(self).is_scanning
                    &&& actions@.len() == 2
                    &&& actions@[0] matches UiAction::LoadPreview(q) && q@ == p@
                    &&& actions@[1] matches UiAction::SpawnProcess(q) && q@ == p@
                },
                AppEvent::ProcessingDone { source, po_number, destination } => {
                    &&& actions@.len() == 0
                    &&& final(self).is_scanning == old(self).is_scanning
                    &&& match destination {
                        Ok(dest) => {
                            &&& exists|sn: Seq<char>, dn: Seq<char>|
                                {
                                    &&& occurs_in(sn, source@) && occurs_in(dn, dest@)
                                    &&& !is_verbatim(source@) ==> !sn.contains('/')
                                    &&& !is_verbatim(dest@) ==> !dn.contains('/')
                                    &&& is_plain_path(source@) ==> sn == after_last_slash(source@)
                                    &&& is_plain_path(dest@) ==> dn == after_last_slash(dest@)
                                    &&& #[trigger] final(self).log.view_lines() == appended(
                                        old(self).log.view_lines(),
                                        log_line(secs, moved_message(sn, dn, opt_view(po_number))),
                                    )
                                }
                            &&& final(self).last_id == po_number
                            &&& final(self).status@ == last_id_status(opt_view(po_number))
                        },
                        Err(e) => {
                            &&& final(self).log.view_lines() == appended(
                                old(self).log.view_lines(),
                                log_line(secs, "✗ Move failed for "@ + source@ + ": "@ + e@),
                            )
                            &&& final(self).last_id == old(self).last_id
                            &&& final(self).status@ == "Error — see log."@
                        },
                    }
                },
                AppEvent::HardwareScanReady(p) => {
                    &&& final(self).log.view_lines() == appended(
                        old(self).log.view_lines(),
                        log_line(secs, "Hardware scan saved: "@ + p@),
                    )
                    &&& final(self).status@ == "Scan complete — processing…"@
                    &&& final(self).last_id == old(self).last_id
                    &&& final(self).is_scanning == false
                    &&& actions@.len() == 2
                    &&& actions@[0] matches UiAction::LoadPreview(q) && q@ == p@
                    &&& actions@[1] matches UiAction::SpawnProcess(q) && q@ == p@
                },
                AppEvent::Log(msg) => {
                    &&& final(self).log.view_lines() == appended(
                        old(self).log.view_lines(),
                        log_line(secs, msg@),
                    )
                    &&& final(self).status == old(self).status
                    &&& final(self).last_id == old(self).last_id
                    &&& final(self).is_scanning == old(self).is_scanning
                    &&& actions@.len() == 0
                },
            },
    {
        let mut actions: Vec<UiAction> = Vec::new();
        match event {
            AppEvent::FileDetected(path) => {
                let mut msg = String::from_str("File detected: ");
                msg.append(path.as_str());
                self.log.push_log(msg.as_str(), secs);
                let mut status = String::from_str("Processing ");
                status.append(path.as_str());
                status.append("…");
                self.status = status;
                actions.push(UiAction::LoadPreview(path.clone()));
                actions.push(UiAction::SpawnProcess(path));
            },
            AppEvent::ProcessingDone { source, po_number, destination } => {
                match destination {
                    Ok(dest) => {
                        let source_name = file_name_or_empty(source.as_str());
                        let dest_name = file_name_or_empty(dest.as_str());
                        let mut msg = String::from_str("✓ ");
                        msg.append(source_name.as_str());
                        msg.append(" → ");
                        msg.append(dest_name.as_str());
                        msg.append(" [");
                        match &po_number {
                            Some(id) => msg.append(id.as_str()),
                            None => msg.append("(no ID)"),
                        }
                        msg.append("]");
                        proof {
                            assert(msg@ =~= moved_message(
                                source_name@,
                                dest_name@,
                                opt_view(po_number),
                            ));
                        }
                        self.log.push_log(msg.as_str(), secs);
                        let mut status = String::from_str("Last ID: ");
                        match &po_number {
                            Some(id) => status.append(id.as_str()),
                            None => status.append("—"),
                        }
                        proof {
                            assert(status@ =~= last_id_status(opt_view(po_number)));
                        }
                        self.last_id = po_number;
                        self.status = status;
                    },
                    Err(e) => {
                        let mut msg = String::from_str("✗ Move failed for ");
                        msg.append(source.as_str());
                        msg.append(": ");
                        msg.append(e.as_str());
                        self.log.push_log(msg.as_str(), secs);
                        self.status = String::from_str("Error — see log.");
                    },
                }
            },
            AppEvent::HardwareScanReady(path) => {
                self.is_scanning = false;
                let mut msg = String::from_str("Hardware scan saved: ");
                msg.append(path.as_str());
                self.log.push_log(msg.as_str(), secs);
                self.status = String::from_str("Scan complete — processing…");
                actions.push(UiAction::LoadPreview(path.clone()));
                actions.push(UiAction::SpawnProcess(path));
            },
            AppEvent::Log(msg) => {
                self.log.push_log(msg.as_str(), secs);
            },
        }
        actions
    }
    /// Re-derives the directories from the root directory setting and reports
    /// the directory now watched. The caller restarts the watcher on `waves_dir`.
    pub fn apply_settings(&mut self, secs: u64)
        requires
            old(self).wf(),
        ensures
            final(self).wf(),
            final(self).root_directory == old(self).root_directory,
            final(self).mode == old(self).mode,
            final(self).tesseract_cmd == old(self).tesseract_cmd,
            final(self).tesseract_ok == old(self).tesseract_ok,
            !is_verbatim(old(self).root_directory@) ==> join_shape(
                final(self).waves_dir@,
                old(self).root_directory@,
                "waves"@,
            ),
            !is_verbatim(old(self).root_directory@) ==> join_shape(
                final(self).finished_dir@,
                old(self).root_directory@,
                "wavesfinished"@,
            ),
            !is_verbatim(final(self).finished_dir@) ==> join_shape(
                final(self).error_dir@,
                final(self).finished_dir@,
                "UncapturedPO"@,
            ),
            final(self).log.view_lines() == appended(
                old(self).log.view_lines(),
                log_line(secs, "Settings applied — watching "@ + path_debug_rendering(final(self).waves_dir@)),
            ),
            final(self).status@ == "Watching "@ + final(self).waves_dir@,
            final(self).preview_path == old(self).preview_path,
            final(self).last_id == old(self).last_id,
            final(self).is_scanning == old(self).is_scanning,
    {
        let (waves_dir, finished_dir, error_dir) = derive_dirs(self.root_directory.as_str());
        let shown = path_debug(waves_dir.as_str());
        let msg = settings_applied_message(shown.as_str());
        self.log.push_log(msg.as_str(), secs);
        let mut status = String::from_str("Watching ");
        status.append(waves_dir.as_str());
        self.status = status;
        self.waves_dir = waves_dir;
        self.finished_dir = finished_dir;
        self.error_dir = error_dir;
    }

    /// A hardware scan has been started (where WIA is available).
    pub fn begin_hardware_scan(&mut self)
        ensures
            same_setup(final(self), old(self)),
            final(self).is_scanning == true,
            final(self).status@ == "Scanning…"@,
            final(self).log == old(self).log,
            final(self).preview_path == old(self).preview_path,
            final(self).last_id == old(self).last_id,
    {
        self.is_scanning = true;
        self.status = String::from_str("Scanning…");
    }

    /// A hardware scan was requested where WIA is not available.
    pub fn hardware_scan_unavailable(&mut self, secs: u64)
        requires
            old(self).wf(),
        ensures
            final(self).wf(),
            same_setup(final(self), old(self)),
            final(self).log.view_lines() == appended(
                old(self).log.view_lines(),
                log_line(secs, "Hardware scanning requires Windows + WIA."@),
            ),
            final(self).status@ == "Not available on this platform."@,
            final(self).is_scanning == old(self).is_scanning,
            final(self).preview_path == old(self).preview_path,
            final(self).last_id == old(self).last_id,
    {
        self.log.push_log("Hardware scanning requires Windows + WIA.", secs);
        self.status = String::from_str("Not available on this platform.");
    }

    /// The preview now shows the image at `path`.
    pub fn preview_loaded(&mut self, path: String)
        ensures
            same_setup(final(self), old(self)),
            final(self).preview_path == Some(path),
            final(self).log == old(self).log,
            final(self).status == old(self).status,
            final(self).last_id == old(self).last_id,
            final(self).is_scanning == old(self).is_scanning,
    {
        self.preview_path = Some(path);
    }

    /// The image for the preview could not be loaded.
    pub fn preview_failed(&mut self, error: &str, secs: u64)
        requires
            old(self).wf(),
        ensures
            final(self).wf(),
            same_setup(final(self), old(self)),
            final(self).log.view_lines() == appended(
                old(self).log.view_lines(),
                log_line(secs, "Could not load preview: "@ + error@),
            ),
            final(self).preview_path == old(self).preview_path,
            final(self).status == old(self).status,
            final(self).last_id == old(self).last_id,
            final(self).is_scanning == old(self).is_scanning,
    {
        let mut msg = String::from_str("Could not load preview: ");
        msg.append(error);
        self.log.push_log(msg.as_str(), secs);
    }

    /// The caption of the scan button.
    pub fn scan_button_label(&self) -> (label: &'static str)
        ensures
            label@ == (if self.is_scanning { "⏳ Scanning…"@ } else { "📷 Scan Now"@ }),
    {
        if self.is_scanning {
            "⏳ Scanning…"
        } else {
            "📷 Scan Now"
        }
    }

    /// Whether the scan button can be pressed: only with WIA, and not while a
    /// scan is running.
    pub fn scan_button_enabled(&self, wia_available: bool) -> (enabled: bool)
        ensures
            enabled == (wia_available && !self.is_scanning),
    {
        wia_available && !self.is_scanning
    }
}

/// The name of the image a hardware scan at time `secs` is saved under: `scan_<secs>.png`.
pub fn scan_output_name(secs: u64) -> (name: String)
    ensures
        name@ == "scan_"@ + decimal(secs as nat) + ".png"@,
{
    let mut name = String::from_str("scan_");
    push_decimal(&mut name, secs);
    name.append(".png");
    name
}

/// The event for a failed hardware scan.
pub fn scan_failed_event(error: &str) -> (event: AppEvent)
    ensures
        event matches AppEvent::Log(msg) && msg@ == "Scan failed: "@ + error@,
{
    let mut msg = String::from_str("Scan failed: ");
    msg.append(error);
    AppEvent::Log(msg)
}

/// The message for a file that never became accessible.
pub open spec fn access_failed_message(path: Seq<char>) -> Seq<char> {
    "Could not access file after retries: "@ + path_debug_rendering(path)
}

/// The message for a failure of the extraction pipeline on `path`.
pub open spec fn processing_error_message(path: Seq<char>, error: Seq<char>) -> Seq<char> {
    "Processing error for "@ + path_debug_rendering(path) + ": "@ + error
}

/// The event for a file that never became accessible.
pub fn access_failed_event(path: &str) -> (event: AppEvent)
    ensures
        event matches AppEvent::Log(msg) && msg@ == access_failed_message(path@),
{
    let shown = path_debug(path);
    access_failed_event_shown(shown.as_str())
}

/// The event for a failure of the extraction pipeline on `path`.
pub fn processing_error_event(path: &str, error: &str) -> (event: AppEvent)
    ensures
        event matches AppEvent::Log(msg) && msg@ == processing_error_message(path@, error@),
{
    let shown = path_debug(path);
    processing_error_event_shown(shown.as_str(), error)
}

/// The log line after applying the settings, given how the watched directory is shown.
pub fn settings_applied_message(shown_waves: &str) -> (msg: String)
    ensures
        msg@ == "Settings applied — watching "@ + shown_waves@,
{
    let mut msg = String::from_str("Settings applied — watching ");
    msg.append(shown_waves);
    msg
}

/// The event for a file that never became accessible, given how its path is shown.
pub fn access_failed_event_shown(shown_path: &str) -> (event: AppEvent)
    ensures
        event matches AppEvent::Log(msg) && msg@ == "Could not access file after retries: "@ + shown_path@,
{
    let mut msg = String::from_str("Could not access file after retries: ");
    msg.append(shown_path);
    AppEvent::Log(msg)
}

/// The event for a failure of the extraction pipeline, given how the image's
/// path is shown.
pub fn processing_error_event_shown(shown_path: &str, error: &str) -> (event: AppEvent)
    ensures
        event matches AppEvent::Log(msg) && msg@ == "Processing error for "@ + shown_path@ + ": "@
            + error@,
{
    let mut msg = String::from_str("Processing error for ");
    msg.append(shown_path);
    msg.append(": ");
    msg.append(error);
    AppEvent::Log(msg)
}

} // verus!

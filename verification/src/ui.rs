//! What the launcher's window keeps track of: the versions found, the
//! operations under way, and the log that is shown to the user. The window
//! itself is drawn elsewhere; here is what it decides.
use vstd::prelude::*;
use vstd::string::*;
use crate::github::{DownloadEvent, DownloadEventView, UpdateEvent};
use crate::text::{chars_of, is_prefix, joined, opt_string_view, starts_with, str_eq, substring};
use crate::update::{Product, RESTART_PREFIX};
use crate::update_check::UpdateEventView;

verus! {

/// The greatest number of entries that the log keeps.
pub const MAX_LOG_ENTRIES: usize = 50;

/// The number of seconds after which the latest versions are asked for
/// again.
pub const UPDATE_INTERVAL_SECS: u64 = 600;

/// The number of seconds for which the notice of a finished launcher update
/// is shown before the process ends.
pub const EXIT_DELAY_SECS: u64 = 2;

/// The kind of a log entry.
#[derive(Debug, Clone, Copy, PartialEq, Eq, Structural)]
pub enum LogEntryType {
    Info,
    Success,
    Warning,
    Error,
    Checking,
}

/// What the user can do about a log entry.
#[derive(Debug, Clone, Copy, PartialEq, Eq, Structural)]
pub enum LogAction {
    UpdateLauncher,
    UpdateOpenUO,
    RetryDownload,
}

/// What a log entry says. The words are chosen where the entry is shown,
/// in the user's language.
#[derive(Debug, Clone)]
pub enum LogMessage {
    /// A status line.
    Status(String),
    CheckingOpenUo,
    CheckingLauncher,
    /// A newer version of the managed product is out.
    OpenUoNewVersion(String),
    /// The installed managed product is the latest.
    OpenUoLatest(String),
    /// The managed product is not installed; the latest version.
    OpenUoNotInstalled(String),
    OpenUoCheckError(String),
    /// A newer version of the launcher is out.
    LauncherNewVersion(String),
    /// The launcher is the latest.
    LauncherLatest(String),
    LauncherCheckError(String),
    DownloadingOpenUo,
    DownloadingLauncher,
    /// The managed product was installed in this version.
    OpenUoDownloadComplete(String),
    /// The launcher was replaced by this version and restarts.
    LauncherUpdateComplete(String),
    DownloadError(String),
}

/// The mathematical content of a `LogMessage`.
pub enum LogMessageView {
    Status(Seq<char>),
    CheckingOpenUo,
    CheckingLauncher,
    OpenUoNewVersion(Seq<char>),
    OpenUoLatest(Seq<char>),
    OpenUoNotInstalled(Seq<char>),
    OpenUoCheckError(Seq<char>),
    LauncherNewVersion(Seq<char>),
    LauncherLatest(Seq<char>),
    LauncherCheckError(Seq<char>),
    DownloadingOpenUo,
    DownloadingLauncher,
    OpenUoDownloadComplete(Seq<char>),
    LauncherUpdateComplete(Seq<char>),
    DownloadError(Seq<char>),
}

impl View for LogMessage {
    type V = LogMessageView;

    open spec fn view(&self) -> LogMessageView {
        match self {
            LogMessage::Status(s) => LogMessageView::Status(s@),
            LogMessage::CheckingOpenUo => LogMessageView::CheckingOpenUo,
            LogMessage::CheckingLauncher => LogMessageView::CheckingLauncher,
            LogMessage::OpenUoNewVersion(s) => LogMessageView::OpenUoNewVersion(s@),
            LogMessage::OpenUoLatest(s) => LogMessageView::OpenUoLatest(s@),
            LogMessage::OpenUoNotInstalled(s) => LogMessageView::OpenUoNotInstalled(s@),
            LogMessage::OpenUoCheckError(s) => LogMessageView::OpenUoCheckError(s@),
            LogMessage::LauncherNewVersion(s) => LogMessageView::LauncherNewVersion(s@),
            LogMessage::LauncherLatest(s) => LogMessageView::LauncherLatest(s@),
            LogMessage::LauncherCheckError(s) => LogMessageView::LauncherCheckError(s@),
            LogMessage::DownloadingOpenUo => LogMessageView::DownloadingOpenUo,
            LogMessage::DownloadingLauncher => LogMessageView::DownloadingLauncher,
            LogMessage::OpenUoDownloadComplete(s) => LogMessageView::OpenUoDownloadComplete(s@),
            LogMessage::LauncherUpdateComplete(s) => LogMessageView::LauncherUpdateComplete(s@),
            LogMessage::DownloadError(s) => LogMessageView::DownloadError(s@),
        }
    }
}

/// One entry of the log.
#[derive(Debug, Clone)]
pub struct LogEntry {
    /// When the entry was made, in seconds of the caller's clock.
    pub timestamp: u64,
    pub entry_type: LogEntryType,
    pub message: LogMessage,
    pub action: Option<LogAction>,
}

/// The mathematical content of a `LogEntry`.
pub struct LogEntryView {
    pub timestamp: u64,
    pub entry_type: LogEntryType,
    pub message: LogMessageView,
    pub action: Option<LogAction>,
}

impl View for LogEntry {
    type V = LogEntryView;

    open spec fn view(&self) -> LogEntryView {
        LogEntryView {
            timestamp: self.timestamp,
            entry_type: self.entry_type,
            message: self.message@,
            action: self.action,
        }
    }
}

/// The views of a sequence of log entries.
pub open spec fn log_view(entries: Seq<LogEntry>) -> Seq<LogEntryView> {
    entries.map_values(|e: LogEntry| e@)
}

/// The log `log` with `entry` added: the entry comes last, and the oldest
/// entry leaves where the log would grow beyond its greatest length.
pub open spec fn log_with(log: Seq<LogEntryView>, entry: LogEntryView) -> Seq<LogEntryView> {
    let all = log.push(entry);
    if all.len() > MAX_LOG_ENTRIES {
        all.drop_first()
    } else {
        all
    }
}

/// What the window keeps track of.
pub struct LauncherUi {
    open_uo_version: Option<String>,
    launcher_version: String,
    downloading: bool,
    download_progress: Option<(u64, u64)>,
    downloading_launcher: bool,
    launcher_restarting: bool,
    remote_open_uo: Option<String>,
    remote_launcher: Option<String>,
    last_update_poll: Option<u64>,
    checking_open_uo: bool,
    checking_launcher: bool,
    logs: Vec<LogEntry>,
    download_failed: bool,
}

/// The mathematical content of `LauncherUi`.
pub struct UiView {
    /// The installed version of the managed product, if it is installed.
    pub open_uo_version: Option<Seq<char>>,
    /// The version of the running launcher.
    pub launcher_version: Seq<char>,
    /// Whether an installation or a launcher update is under way.
    pub downloading: bool,
    /// The bytes received and the bytes announced, as last reported.
    pub download_progress: Option<(u64, u64)>,
    /// Whether the operation under way is a launcher update.
    pub downloading_launcher: bool,
    /// Whether the launcher was replaced and is about to end.
    pub launcher_restarting: bool,
    /// The latest version of the managed product, as last learned.
    pub remote_open_uo: Option<Seq<char>>,
    /// The latest version of the launcher, as last learned.
    pub remote_launcher: Option<Seq<char>>,
    /// When the latest versions were last asked for, if ever.
    pub last_update_poll: Option<u64>,
    /// Whether a check of the managed product is outstanding.
    pub checking_open_uo: bool,
    /// Whether a check of the launcher is outstanding.
    pub checking_launcher: bool,
    pub logs: Seq<LogEntryView>,
    /// Whether the last operation failed.
    pub download_failed: bool,
}

/// What is left of `text` after the mark that asks for a restart.
pub open spec fn restart_version(text: Seq<char>) -> Seq<char> {
    text.subrange(RESTART_PREFIX@.len() as int, text.len() as int)
}

impl LauncherUi {
    #[verifier::type_invariant]
    spec fn log_is_bounded(self) -> bool {
        self.logs@.len() <= MAX_LOG_ENTRIES
    }
}

impl View for LauncherUi {
    type V = UiView;

    closed spec fn view(&self) -> UiView {
        UiView {
            open_uo_version: opt_string_view(self.open_uo_version),
            launcher_version: self.launcher_version@,
            downloading: self.downloading,
            download_progress: self.download_progress,
            downloading_launcher: self.downloading_launcher,
            launcher_restarting: self.launcher_restarting,
            remote_open_uo: opt_string_view(self.remote_open_uo),
            remote_launcher: opt_string_view(self.remote_launcher),
            last_update_poll: self.last_update_poll,
            checking_open_uo: self.checking_open_uo,
            checking_launcher: self.checking_launcher,
            logs: log_view(self.logs@),
            download_failed: self.download_failed,
        }
    }
}

impl LauncherUi {
    /// The state of a window that has just opened: nothing is under way,
    /// nothing was learned or logged, and the latest versions were never
    /// asked for. The launcher's version is the package's, preceded by `v`.
    pub fn new(open_uo_version: Option<String>, package_version: &str) -> (ui: LauncherUi)
        ensures
            ui@ == (UiView {
                open_uo_version: opt_string_view(open_uo_version),
                launcher_version: "v"@ + package_version@,
                downloading: false,
                download_progress: None,
                downloading_launcher: false,
                launcher_restarting: false,
                remote_open_uo: None,
                remote_launcher: None,
                last_update_poll: None,
                checking_open_uo: false,
                checking_launcher: false,
                logs: Seq::empty(),
                download_failed: false,
            }),
    {
        let ui = LauncherUi {
            open_uo_version,
            launcher_version: joined("v", package_version),
            downloading: false,
            download_progress: None,
            downloading_launcher: false,
            launcher_restarting: false,
            remote_open_uo: None,
            remote_launcher: None,
            last_update_poll: None,
            checking_open_uo: false,
            checking_launcher: false,
            logs: Vec::new(),
            download_failed: false,
        };
        assert(log_view(ui.logs@) =~= Seq::empty());
        ui
    }

    /// Adds an entry to the log.
    pub fn add_log(
        &mut self,
        entry_type: LogEntryType,
        message: LogMessage,
        action: Option<LogAction>,
        now: u64,
    )
        ensures
            final(self)@ == (UiView {
                logs: log_with(
                    old(self)@.logs,
                    LogEntryView { timestamp: now, entry_type, message: message@, action },
                ),
                ..old(self)@
            }),
    {
        proof {
            use_type_invariant(&*self);
        }
        let ghost before = log_view(self.logs@);
        let entry = LogEntry { timestamp: now, entry_type, message, action };
        let mut logs: Vec<LogEntry> = Vec::new();
        core::mem::swap(&mut self.logs, &mut logs);
        logs.push(entry);
        assert(log_view(logs@) =~= before.push(entry@));
        if logs.len() > MAX_LOG_ENTRIES {
            logs.remove(0);
            assert(log_view(logs@) =~= before.push(entry@).drop_first());
        }
        self.logs = logs;
    }

    /// Adds a status line to the log.
    pub fn set_status(&mut self, msg: &str, now: u64)
        ensures
            final(self)@ == (UiView {
                logs: log_with(
                    old(self)@.logs,
                    LogEntryView {
                        timestamp: now,
                        entry_type: LogEntryType::Info,
                        message: LogMessageView::Status(msg@),
                        action: None,
                    },
                ),
                ..old(self)@
            }),
    {
        self.add_log(LogEntryType::Info, LogMessage::Status(msg.to_string()), None, now);
    }
}

/// A log entry without an action.
pub open spec fn note(now: u64, entry_type: LogEntryType, message: LogMessageView) -> LogEntryView {
    LogEntryView { timestamp: now, entry_type, message, action: None }
}

/// A log entry that offers an action.
pub open spec fn offer(
    now: u64,
    entry_type: LogEntryType,
    message: LogMessageView,
    action: LogAction,
) -> LogEntryView {
    LogEntryView { timestamp: now, entry_type, message, action: Some(action) }
}

/// The state after a request to check the products asked about.
///
/// A product is checked only where no check of it is outstanding. Where
/// that leaves nothing to check, nothing changes. Otherwise each product
/// that is checked is marked and logged, and the time is noted.
pub open spec fn after_trigger(ui: UiView, open_uo: bool, launcher: bool, now: u64) -> UiView {
    let start_open_uo = open_uo && !ui.checking_open_uo;
    let start_launcher = launcher && !ui.checking_launcher;
    if !start_open_uo && !start_launcher {
        ui
    } else {
        let first = if start_open_uo {
            log_with(ui.logs, note(now, LogEntryType::Checking, LogMessageView::CheckingOpenUo))
        } else {
            ui.logs
        };
        let second = if start_launcher {
            log_with(first, note(now, LogEntryType::Checking, LogMessageView::CheckingLauncher))
        } else {
            first
        };
        UiView {
            checking_open_uo: ui.checking_open_uo || start_open_uo,
            checking_launcher: ui.checking_launcher || start_launcher,
            last_update_poll: Some(now),
            logs: second,
            ..ui
        }
    }
}

/// Whether it is time to ask for the latest versions again: they were never
/// asked for, or more than the interval has passed since.
pub open spec fn is_due(ui: UiView, now: u64) -> bool {
    match ui.last_update_poll {
        None => true,
        Some(then) => now - then > UPDATE_INTERVAL_SECS,
    }
}

/// The state after the window asked itself whether to check for updates:
/// both products are checked where no check is outstanding and it is time.
pub open spec fn after_schedule(ui: UiView, now: u64) -> UiView {
    if ui.checking_open_uo || ui.checking_launcher || !is_due(ui, now) {
        ui
    } else {
        after_trigger(ui, true, true, now)
    }
}

/// The state after a request to install or update `product`: nothing
/// changes while an operation is under way; otherwise the operation is
/// marked as under way and logged.
pub open spec fn after_start(ui: UiView, product: Product, now: u64) -> UiView {
    if ui.downloading {
        ui
    } else {
        UiView {
            downloading: true,
            download_progress: None,
            downloading_launcher: product == Product::Launcher,
            logs: log_with(
                ui.logs,
                note(
                    now,
                    LogEntryType::Info,
                    if product == Product::Launcher {
                        LogMessageView::DownloadingLauncher
                    } else {
                        LogMessageView::DownloadingOpenUo
                    },
                ),
            ),
            ..ui
        }
    }
}

/// The state after an event of the operation under way.
///
/// Progress is noted. The end of the operation clears what was noted of it.
/// A result that begins with the restart mark tells that the launcher was
/// replaced: the window notes that it is about to end. Any other result is
/// the version of the managed product that is now installed. A failure is
/// logged with the offer to try again.
pub open spec fn after_download_event(ui: UiView, event: DownloadEventView, now: u64) -> UiView {
    match event {
        DownloadEventView::Progress { received, total } => UiView {
            download_progress: Some((received, total)),
            ..ui
        },
        DownloadEventView::Finished(Ok(tag)) => if is_prefix(RESTART_PREFIX@, tag) {
            UiView {
                downloading: false,
                download_progress: None,
                downloading_launcher: false,
                download_failed: false,
                launcher_restarting: true,
                logs: log_with(
                    ui.logs,
                    note(
                        now,
                        LogEntryType::Success,
                        LogMessageView::LauncherUpdateComplete(restart_version(tag)),
                    ),
                ),
                ..ui
            }
        } else {
            UiView {
                downloading: false,
                download_progress: None,
                downloading_launcher: false,
                download_failed: false,
                open_uo_version: Some(tag),
                logs: log_with(
                    ui.logs,
                    note(now, LogEntryType::Success, LogMessageView::OpenUoDownloadComplete(tag)),
                ),
                ..ui
            }
        },
        DownloadEventView::Finished(Err(message)) => UiView {
            downloading: false,
            download_progress: None,
            downloading_launcher: false,
            download_failed: true,
            logs: log_with(
                ui.logs,
                offer(
                    now,
                    LogEntryType::Error,
                    LogMessageView::DownloadError(message),
                    LogAction::RetryDownload,
                ),
            ),
            ..ui
        },
    }
}

/// Whether an event tells that the launcher was replaced, so that the
/// process is to end after the delay.
pub open spec fn asks_for_exit(event: DownloadEventView) -> bool {
    event matches DownloadEventView::Finished(Ok(tag)) && is_prefix(RESTART_PREFIX@, tag)
}

/// The state after an event of an update check.
///
/// An answer about a product ends the check of that product. A version is
/// noted as the latest, and logged: with the offer to update where it
/// differs from what is installed or nothing is installed, as a
/// confirmation where it is what is installed. A failure is logged.
pub open spec fn after_update_event(ui: UiView, event: UpdateEventView, now: u64) -> UiView {
    match event {
        UpdateEventView::OpenUO(Ok(v)) => UiView {
            checking_open_uo: false,
            remote_open_uo: Some(v),
            logs: log_with(
                ui.logs,
                match ui.open_uo_version {
                    Some(local) => if v != local {
                        offer(
                            now,
                            LogEntryType::Info,
                            LogMessageView::OpenUoNewVersion(v),
                            LogAction::UpdateOpenUO,
                        )
                    } else {
                        note(now, LogEntryType::Success, LogMessageView::OpenUoLatest(v))
                    },
                    None => offer(
                        now,
                        LogEntryType::Info,
                        LogMessageView::OpenUoNotInstalled(v),
                        LogAction::UpdateOpenUO,
                    ),
                },
            ),
            ..ui
        },
        UpdateEventView::OpenUO(Err(e)) => UiView {
            checking_open_uo: false,
            logs: log_with(
                ui.logs,
                note(now, LogEntryType::Error, LogMessageView::OpenUoCheckError(e)),
            ),
            ..ui
        },
        UpdateEventView::Launcher(Ok(v)) => UiView {
            checking_launcher: false,
            remote_launcher: Some(v),
            logs: log_with(
                ui.logs,
                if v != ui.launcher_version {
                    offer(
                        now,
                        LogEntryType::Info,
                        LogMessageView::LauncherNewVersion(v),
                        LogAction::UpdateLauncher,
                    )
                } else {
                    note(now, LogEntryType::Success, LogMessageView::LauncherLatest(v))
                },
            ),
            ..ui
        },
        UpdateEventView::Launcher(Err(e)) => UiView {
            checking_launcher: false,
            logs: log_with(
                ui.logs,
                note(now, LogEntryType::Error, LogMessageView::LauncherCheckError(e)),
            ),
            ..ui
        },
        UpdateEventView::Done => ui,
    }
}

/// The operation that the user's choice of `action` starts, if any: an
/// update of the launcher unless one is under way or done, an installation
/// unless an operation is under way, and after a failure the operation that
/// is tried again.
pub open spec fn started_by(ui: UiView, action: LogAction) -> Option<Product> {
    match action {
        LogAction::UpdateLauncher => if !ui.downloading_launcher && !ui.launcher_restarting
            && !ui.downloading {
            Some(Product::Launcher)
        } else {
            None
        },
        LogAction::UpdateOpenUO => if !ui.downloading {
            Some(Product::OpenUo)
        } else {
            None
        },
        LogAction::RetryDownload => if !ui.downloading {
            if ui.downloading_launcher {
                Some(Product::Launcher)
            } else {
                Some(Product::OpenUo)
            }
        } else {
            None
        },
    }
}

/// The state after the user's choice of `action`.
pub open spec fn after_action(ui: UiView, action: LogAction, now: u64) -> UiView {
    match started_by(ui, action) {
        Some(product) => after_start(
            if action == LogAction::RetryDownload {
                UiView { download_failed: false, ..ui }
            } else {
                ui
            },
            product,
            now,
        ),
        None => ui,
    }
}

impl LauncherUi {
    /// The installed version of the managed product, if it is installed.
    pub fn open_uo_version(&self) -> (v: Option<String>)
        ensures
            opt_string_view(v) == self@.open_uo_version,
    {
        match &self.open_uo_version {
            Some(v) => Some(v.clone()),
            None => None,
        }
    }

    /// The version of the running launcher.
    pub fn launcher_version(&self) -> (v: String)
        ensures
            v@ == self@.launcher_version,
    {
        self.launcher_version.clone()
    }

    /// The latest version of the managed product, as last learned.
    pub fn remote_open_uo(&self) -> (v: Option<String>)
        ensures
            opt_string_view(v) == self@.remote_open_uo,
    {
        match &self.remote_open_uo {
            Some(v) => Some(v.clone()),
            None => None,
        }
    }

    /// The latest version of the launcher, as last learned.
    pub fn remote_launcher(&self) -> (v: Option<String>)
        ensures
            opt_string_view(v) == self@.remote_launcher,
    {
        match &self.remote_launcher {
            Some(v) => Some(v.clone()),
            None => None,
        }
    }

    /// Whether an installation or a launcher update is under way.
    pub fn is_downloading(&self) -> (r: bool)
        ensures
            r == self@.downloading,
    {
        self.downloading
    }

    /// Whether the operation under way is a launcher update.
    pub fn is_downloading_launcher(&self) -> (r: bool)
        ensures
            r == self@.downloading_launcher,
    {
        self.downloading_launcher
    }

    /// Whether the launcher was replaced and is about to end.
    pub fn is_restarting(&self) -> (r: bool)
        ensures
            r == self@.launcher_restarting,
    {
        self.launcher_restarting
    }

    /// Whether the last operation failed.
    pub fn has_download_failed(&self) -> (r: bool)
        ensures
            r == self@.download_failed,
    {
        self.download_failed
    }

    /// The bytes received and the bytes announced, as last reported.
    pub fn download_progress(&self) -> (p: Option<(u64, u64)>)
        ensures
            p == self@.download_progress,
    {
        self.download_progress
    }

    /// Whether a check of the managed product is outstanding.
    pub fn is_checking_open_uo(&self) -> (r: bool)
        ensures
            r == self@.checking_open_uo,
    {
        self.checking_open_uo
    }

    /// Whether a check of the launcher is outstanding.
    pub fn is_checking_launcher(&self) -> (r: bool)
        ensures
            r == self@.checking_launcher,
    {
        self.checking_launcher
    }

    /// The number of entries in the log, which is never more than the log
    /// keeps.
    pub fn log_len(&self) -> (n: usize)
        ensures
            n == self@.logs.len(),
            n <= MAX_LOG_ENTRIES,
    {
        proof {
            use_type_invariant(self);
        }
        self.logs.len()
    }

    /// The entry of the log at position `i`, the oldest being at 0, if the
    /// log has that many entries.
    pub fn log_entry(&self, i: usize) -> (entry: Option<&LogEntry>)
        ensures
            match entry {
                Some(e) => i < self@.logs.len() && e@ == self@.logs[i as int],
                None => i >= self@.logs.len(),
            },
    {
        if i < self.logs.len() {
            Some(&self.logs[i])
        } else {
            None
        }
    }

    /// Asks to check the products asked about, and says which checks are to
    /// be sent off: those of products of which no check is outstanding.
    pub fn trigger_update_checks(&mut self, open_uo: bool, launcher: bool, now: u64) -> (dispatch: (
        bool,
        bool,
    ))
        ensures
            dispatch.0 == (open_uo && !old(self)@.checking_open_uo),
            dispatch.1 == (launcher && !old(self)@.checking_launcher),
            final(self)@ == after_trigger(old(self)@, open_uo, launcher, now),
    {
        let start_open_uo = open_uo && !self.checking_open_uo;
        let start_launcher = launcher && !self.checking_launcher;
        if !start_open_uo && !start_launcher {
            return (false, false);
        }
        proof {
            use_type_invariant(&*self);
        }
        self.last_update_poll = Some(now);
        if start_open_uo {
            self.checking_open_uo = true;
        }
        if start_launcher {
            self.checking_launcher = true;
        }
        if start_open_uo {
            self.add_log(LogEntryType::Checking, LogMessage::CheckingOpenUo, None, now);
        }
        if start_launcher {
            self.add_log(LogEntryType::Checking, LogMessage::CheckingLauncher, None, now);
        }
        (start_open_uo, start_launcher)
    }

    /// Checks both products where it is time and no check is outstanding,
    /// and says which checks are to be sent off.
    pub fn maybe_schedule_updates(&mut self, now: u64) -> (dispatch: (bool, bool))
        ensures
            final(self)@ == after_schedule(old(self)@, now),
            dispatch.0 == dispatch.1,
            dispatch.0 == (!old(self)@.checking_open_uo && !old(self)@.checking_launcher && is_due(
                old(self)@,
                now,
            )),
    {
        if self.checking_open_uo || self.checking_launcher {
            return (false, false);
        }
        let due = match self.last_update_poll {
            None => true,
            Some(then) => now > then && now - then > UPDATE_INTERVAL_SECS,
        };
        if due {
            self.trigger_update_checks(true, true, now)
        } else {
            (false, false)
        }
    }

    /// Marks an operation on `product` as under way, unless one is, and says
    /// whether it is to be started.
    fn start(&mut self, product: Product, now: u64) -> (started: bool)
        ensures
            started == !old(self)@.downloading,
            final(self)@ == after_start(old(self)@, product, now),
    {
        if self.downloading {
            return false;
        }
        let launcher = match product {
            Product::Launcher => true,
            Product::OpenUo => false,
        };
        let message = if launcher {
            LogMessage::DownloadingLauncher
        } else {
            LogMessage::DownloadingOpenUo
        };
        proof {
            use_type_invariant(&*self);
        }
        self.downloading = true;
        self.download_progress = None;
        self.downloading_launcher = launcher;
        self.add_log(LogEntryType::Info, message, None, now);
        true
    }

    /// Asks to install the managed product, and says whether the
    /// installation is to be started: not while an operation is under way.
    pub fn start_download(&mut self, now: u64) -> (started: bool)
        ensures
            started == !old(self)@.downloading,
            final(self)@ == after_start(old(self)@, Product::OpenUo, now),
    {
        self.start(Product::OpenUo, now)
    }

    /// Asks to update the launcher, and says whether the update is to be
    /// started: not while an operation is under way.
    pub fn start_launcher_update(&mut self, now: u64) -> (started: bool)
        ensures
            started == !old(self)@.downloading,
            final(self)@ == after_start(old(self)@, Product::Launcher, now),
    {
        self.start(Product::Launcher, now)
    }

    /// Takes in an event of the operation under way, and says whether the
    /// process is to end after the delay.
    pub fn handle_download_event(&mut self, event: DownloadEvent, now: u64) -> (exit: bool)
        ensures
            final(self)@ == after_download_event(old(self)@, event@, now),
            exit == asks_for_exit(event@),
    {
        proof {
            use_type_invariant(&*self);
        }
        match event {
            DownloadEvent::Progress { received, total } => {
                self.download_progress = Some((received, total));
                false
            },
            DownloadEvent::Finished(result) => {
                self.downloading = false;
                self.download_progress = None;
                self.downloading_launcher = false;
                match result {
                    Ok(tag) => {
                        self.download_failed = false;
                        if starts_with(tag.as_str(), RESTART_PREFIX) {
                            let prefix = chars_of(RESTART_PREFIX);
                            let all = chars_of(tag.as_str());
                            let version = substring(tag.as_str(), prefix.len(), all.len());
                            self.launcher_restarting = true;
                            self.add_log(
                                LogEntryType::Success,
                                LogMessage::LauncherUpdateComplete(version),
                                None,
                                now,
                            );
                            true
                        } else {
                            self.open_uo_version = Some(tag.clone());
                            self.add_log(
                                LogEntryType::Success,
                                LogMessage::OpenUoDownloadComplete(tag),
                                None,
                                now,
                            );
                            false
                        }
                    },
                    Err(message) => {
                        self.download_failed = true;
                        self.add_log(
                            LogEntryType::Error,
                            LogMessage::DownloadError(message),
                            Some(LogAction::RetryDownload),
                            now,
                        );
                        false
                    },
                }
            },
        }
    }

    /// Takes in an event of an update check.
    pub fn handle_update_event(&mut self, event: UpdateEvent, now: u64)
        ensures
            final(self)@ == after_update_event(old(self)@, event@, now),
    {
        proof {
            use_type_invariant(&*self);
        }
        match event {
            UpdateEvent::OpenUO(Ok(v)) => {
                self.checking_open_uo = false;
                let same = match &self.open_uo_version {
                    Some(local) => Some(str_eq(v.as_str(), local.as_str())),
                    None => None,
                };
                self.remote_open_uo = Some(v.clone());
                match same {
                    Some(true) => self.add_log(
                        LogEntryType::Success,
                        LogMessage::OpenUoLatest(v),
                        None,
                        now,
                    ),
                    Some(false) => self.add_log(
                        LogEntryType::Info,
                        LogMessage::OpenUoNewVersion(v),
                        Some(LogAction::UpdateOpenUO),
                        now,
                    ),
                    None => self.add_log(
                        LogEntryType::Info,
                        LogMessage::OpenUoNotInstalled(v),
                        Some(LogAction::UpdateOpenUO),
                        now,
                    ),
                }
            },
            UpdateEvent::OpenUO(Err(e)) => {
                self.checking_open_uo = false;
                self.add_log(LogEntryType::Error, LogMessage::OpenUoCheckError(e), None, now);
            },
            UpdateEvent::Launcher(Ok(v)) => {
                self.checking_launcher = false;
                let same = str_eq(v.as_str(), self.launcher_version.as_str());
                self.remote_launcher = Some(v.clone());
                if same {
                    self.add_log(LogEntryType::Success, LogMessage::LauncherLatest(v), None, now);
                } else {
                    self.add_log(
                        LogEntryType::Info,
                        LogMessage::LauncherNewVersion(v),
                        Some(LogAction::UpdateLauncher),
                        now,
                    );
                }
            },
            UpdateEvent::Launcher(Err(e)) => {
                self.checking_launcher = false;
                self.add_log(LogEntryType::Error, LogMessage::LauncherCheckError(e), None, now);
            },
            UpdateEvent::Done => {},
        }
    }

    /// Takes in the user's choice of an action that a log entry offers, and
    /// says which operation is to be started, if any.
    pub fn choose_action(&mut self, action: LogAction, now: u64) -> (started: Option<Product>)
        ensures
            started == started_by(old(self)@, action),
            final(self)@ == after_action(old(self)@, action, now),
    {
        proof {
            use_type_invariant(&*self);
        }
        match action {
            LogAction::UpdateLauncher => {
                if !self.downloading_launcher && !self.launcher_restarting && !self.downloading {
                    self.start(Product::Launcher, now);
                    Some(Product::Launcher)
                } else {
                    None
                }
            },
            LogAction::UpdateOpenUO => {
                if !self.downloading {
                    self.start(Product::OpenUo, now);
                    Some(Product::OpenUo)
                } else {
                    None
                }
            },
            LogAction::RetryDownload => {
                if !self.downloading {
                    self.download_failed = false;
                    let product = if self.downloading_launcher {
                        Product::Launcher
                    } else {
                        Product::OpenUo
                    };
                    self.start(product, now);
                    Some(product)
                } else {
                    None
                }
            },
        }
    }
}

/// Whether a newer launcher is known to be out: a latest version was
/// learned, it is not the running one, and no check is outstanding that
/// could change it.
pub open spec fn launcher_update_known(ui: UiView) -> bool {
    match ui.remote_launcher {
        Some(remote) => remote != ui.launcher_version && !ui.checking_launcher,
        None => false,
    }
}

/// Whether a newer managed product is known to be out: it is installed, a
/// latest version was learned, and the two differ.
pub open spec fn open_uo_update_known(ui: UiView) -> bool {
    match (ui.remote_open_uo, ui.open_uo_version) {
        (Some(remote), Some(local)) => remote != local,
        _ => false,
    }
}

/// Whether the user can choose `action` now: an update of the launcher
/// unless one is under way or done, anything else unless an operation is
/// under way.
pub open spec fn is_offered(ui: UiView, action: LogAction) -> bool {
    match action {
        LogAction::UpdateLauncher => !ui.downloading_launcher && !ui.launcher_restarting,
        _ => !ui.downloading,
    }
}

impl LauncherUi {
    /// Whether a newer launcher is known to be out.
    pub fn has_launcher_update(&self) -> (r: bool)
        ensures
            r == launcher_update_known(self@),
    {
        match &self.remote_launcher {
            Some(remote) => !str_eq(remote.as_str(), self.launcher_version.as_str())
                && !self.checking_launcher,
            None => false,
        }
    }

    /// Whether a newer managed product is known to be out.
    pub fn has_open_uo_update(&self) -> (r: bool)
        ensures
            r == open_uo_update_known(self@),
    {
        match (&self.remote_open_uo, &self.open_uo_version) {
            (Some(remote), Some(local)) => !str_eq(remote.as_str(), local.as_str()),
            _ => false,
        }
    }

    /// Whether the user can choose `action` now.
    pub fn offers(&self, action: LogAction) -> (r: bool)
        ensures
            r == is_offered(self@, action),
    {
        match action {
            LogAction::UpdateLauncher => !self.downloading_launcher && !self.launcher_restarting,
            _ => !self.downloading,
        }
    }
}

/// An action that starts an operation was offered: what is not offered
/// starts nothing.
pub proof fn lemma_only_offered_actions_start(ui: UiView, action: LogAction)
    requires
        !is_offered(ui, action),
    ensures
        started_by(ui, action) is None,
{
}

/// While a check of a product is outstanding, asking to check that product
/// again changes nothing and sends nothing off.
pub proof fn lemma_outstanding_check_is_not_repeated(
    ui: UiView,
    open_uo: bool,
    launcher: bool,
    now: u64,
)
    requires
        open_uo ==> ui.checking_open_uo,
        launcher ==> ui.checking_launcher,
    ensures
        after_trigger(ui, open_uo, launcher, now) == ui,
{
}

/// Asking twice in a row for the same checks sends each off once: after the
/// first request, the second changes nothing.
pub proof fn lemma_second_trigger_changes_nothing(
    ui: UiView,
    open_uo: bool,
    launcher: bool,
    first: u64,
    second: u64,
)
    ensures
        after_trigger(after_trigger(ui, open_uo, launcher, first), open_uo, launcher, second)
            == after_trigger(ui, open_uo, launcher, first),
{
}

/// While a check is outstanding, the window schedules none.
pub proof fn lemma_no_schedule_while_checking(ui: UiView, now: u64)
    requires
        ui.checking_open_uo || ui.checking_launcher,
    ensures
        after_schedule(ui, now) == ui,
{
}

/// While an operation is under way, asking for another changes nothing.
pub proof fn lemma_one_operation_at_a_time(ui: UiView, product: Product, now: u64)
    requires
        ui.downloading,
    ensures
        after_start(ui, product, now) == ui,
{
}

/// The log never holds more than it keeps, and the entry added last is its
/// last entry.
pub proof fn lemma_log_with(log: Seq<LogEntryView>, entry: LogEntryView)
    requires
        log.len() <= MAX_LOG_ENTRIES,
    ensures
        log_with(log, entry).len() <= MAX_LOG_ENTRIES,
        log_with(log, entry).len() > 0,
        log_with(log, entry).last() == entry,
{
}

} // verus!

//! The dashboard's state: the latest data snapshot, which tab and row are
//! selected, the search query, the settings flow and its pending request,
//! and the captured logs. Key handling (`keys`) and the details pane
//! (`details`) change it; rendering reads it.

use vstd::prelude::*;
use crate::actions::{ActionRequest, ActionResult};
use crate::config::{PulsosConfig, TuiConfig};
use crate::details::PlatformDetailsState;
use crate::domain::{CorrelatedEvent, DeploymentEvent, HealthBreakdown, PingResult, PlatformHealthReport, PlatformKind};
use crate::health_rows::{grouped_rows, health_grouped_rows, lemma_rows_partition, HealthProjectRow, row_view};
use crate::log_buffer::{LogEntry, LogRingBuffer};
use crate::platform_rows::{
    distinct_keys, filtered, filtered_event_indices, latest_per_key, latest_rows, lemma_shown_bounds,
    rows_newest_first,
};
use crate::settings_flow::{fresh_list, fresh_vercel, OnboardingState};
use crate::tabs::{HealthGroup, InputMode, Level, LogFilter, PlatformSubtab, SettingsFlowState, Tab, UnifiedSort};
use crate::text::{char_at, char_count, contains, contains_str, lower, owned, push_decimal, push_str, decimal, to_lower};
use crate::config::{eq_ignore_ascii_case, eq_ignore_case};

verus! {

/// A reading of the system clock (`std::time::SystemTime`). Opaque.
#[verifier::external_type_specification]
#[verifier::external_body]
pub struct ExSystemTime(std::time::SystemTime);

/// `std::time::SystemTime::now`: the system clock's current reading.
/// Nothing is stated of it: the clock may be set anywhere.
#[verifier::external_body]
fn system_now() -> (r: std::time::SystemTime) {
    std::time::SystemTime::now()
}

/// `SystemTime::duration_since(UNIX_EPOCH)`: the time from the Unix epoch
/// to the reading, or `None` when the reading lies before the epoch (the
/// call's error). Nothing is stated of which happens: it rests on the clock.
#[verifier::external_body]
fn since_epoch(t: &std::time::SystemTime) -> (r: Option<std::time::Duration>) {
    t.duration_since(std::time::UNIX_EPOCH).ok()
}

/// `Duration::as_millis`: the whole milliseconds of a duration. Nothing is
/// stated of the value, since the duration is opaque here.
#[verifier::external_body]
fn whole_millis(d: &std::time::Duration) -> (r: u128) {
    d.as_millis()
}

/// The current time, milliseconds since the Unix epoch. A clock set before
/// the epoch reads as the epoch itself (0), and one past what an `i64`
/// holds reads as `i64::MAX`; nothing here panics on a strange clock.
pub(crate) fn now_millis() -> (r: i64)
    ensures
        r >= 0,
{
    let t = system_now();
    match since_epoch(&t) {
        Some(d) => {
            let ms = whole_millis(&d);
            if ms <= 0x7fff_ffff_ffff_ffffu128 {
                ms as i64
            } else {
                i64::MAX
            }
        },
        None => 0,
    }
}

/// A row of a Railway or Vercel subtab: the event it shows.
#[derive(Debug, Clone, Copy)]
pub struct PlatformLatestRow {
    pub event_idx: usize,
}

/// Everything the dashboard draws, as last produced by the poller.
#[derive(Debug)]
pub struct DataSnapshot {
    /// Raw events from all providers.
    pub events: Vec<DeploymentEvent>,
    /// Events grouped across providers by commit.
    pub correlated: Vec<CorrelatedEvent>,
    /// Per-project health scores (name, 0-100).
    pub health_scores: Vec<(String, u8)>,
    /// Per-project per-provider scores and weights.
    pub health_breakdowns: Vec<(String, HealthBreakdown)>,
    /// Per-project score history for sparklines.
    pub health_history: Vec<(String, Vec<u8>)>,
    /// Per-project grouping for the Health tab.
    pub health_project_groups: Vec<(String, HealthGroup)>,
    /// Warnings from provider fetches.
    pub warnings: Vec<String>,
    /// Per-provider readiness reports.
    pub platform_health: Vec<PlatformHealthReport>,
    /// Per project, the latest probe of its deployed address (none while
    /// only resource metrics were fetched).
    pub telemetry: Vec<(String, Option<PingResult>)>,
    /// Number of grouped events kept for delivery metrics.
    pub dora_history_count: usize,
    /// Whether a poll cycle is running.
    pub is_syncing: bool,
    /// When the snapshot was made (ms since the epoch).
    pub fetched_at: i64,
    /// When the last poll cycle started (ms since the epoch).
    pub last_cycle_started_at: i64,
    /// When the last poll cycle completed (ms since the epoch).
    pub last_cycle_completed_at: i64,
}

impl DataSnapshot {
    /// An empty snapshot taken at `now_ms`.
    pub open spec fn is_empty_at(&self, now_ms: i64) -> bool {
        &&& self.events@.len() == 0
        &&& self.correlated@.len() == 0
        &&& self.health_scores@.len() == 0
        &&& self.health_breakdowns@.len() == 0
        &&& self.health_history@.len() == 0
        &&& self.health_project_groups@.len() == 0
        &&& self.warnings@.len() == 0
        &&& self.platform_health@.len() == 0
        &&& self.telemetry@.len() == 0
        &&& self.dora_history_count == 0
        &&& !self.is_syncing
        &&& self.fetched_at == now_ms
        &&& self.last_cycle_started_at == now_ms
        &&& self.last_cycle_completed_at == now_ms
    }

    pub fn empty_at(now_ms: i64) -> (r: Self)
        ensures
            r.is_empty_at(now_ms),
    {
        DataSnapshot {
            events: Vec::new(),
            correlated: Vec::new(),
            health_scores: Vec::new(),
            health_breakdowns: Vec::new(),
            health_history: Vec::new(),
            health_project_groups: Vec::new(),
            warnings: Vec::new(),
            platform_health: Vec::new(),
            telemetry: Vec::new(),
            dora_history_count: 0,
            is_syncing: false,
            fetched_at: now_ms,
            last_cycle_started_at: now_ms,
            last_cycle_completed_at: now_ms,
        }
    }
}

impl Default for DataSnapshot {
    /// An empty snapshot taken now.
    fn default() -> (r: Self)
        ensures
            r.is_empty_at(r.fetched_at),
    {
        DataSnapshot::empty_at(now_millis())
    }
}

/// What the main loop does after a worker result.
#[derive(Debug)]
pub struct ActionOutcome {
    pub force_refresh: bool,
    pub replace_config: Option<PulsosConfig>,
}

/// The complete dashboard state.
pub struct App {
    pub active_tab: Tab,
    pub input_mode: InputMode,
    /// Selected row of the active tab's table.
    pub selected_row: usize,
    pub scroll_offset: usize,
    pub search_query: String,
    pub data: DataSnapshot,
    pub tui_config: TuiConfig,
    /// Set to leave the main loop.
    pub should_quit: bool,
    /// Set to poll again without waiting.
    pub force_refresh: bool,
    pub terminal_size: (u16, u16),
    pub last_error: Option<String>,
    pub settings_flow: SettingsFlowState,
    pub settings_action_cursor: usize,
    pub settings_message: Option<String>,
    /// Token typed into the masked entry.
    pub token_input: String,
    /// A worker request is running.
    pub settings_action_in_flight: bool,
    /// A worker request waiting to be sent.
    pub pending_action: Option<ActionRequest>,
    pub onboarding: OnboardingState,
    pub log_buffer: LogRingBuffer,
    pub log_filter: LogFilter,
    pub unified_sort: UnifiedSort,
    /// The GitHub run tree and details pane of the Platform tab.
    pub platform_details_mode: Option<PlatformDetailsState>,
    pub platform_subtab: PlatformSubtab,
    pub settings_general_mode: bool,
    pub settings_general_cursor: usize,
    /// Whether the background daemon runs.
    pub daemon_running: bool,
}

/// The tab a configured `default_tab` name opens on.
pub open spec fn tab_for(name: Seq<char>) -> Tab {
    if name == "by_platform"@ || name == "platform"@ {
        Tab::Platform
    } else if name == "health"@ {
        Tab::Health
    } else if name == "settings"@ {
        Tab::Settings
    } else if name == "logs"@ {
        Tab::Logs
    } else {
        Tab::Unified
    }
}

/// The records of `s` that pass filter `f`, in order.
pub open spec fn admitted(s: Seq<LogEntry>, f: LogFilter) -> Seq<LogEntry>
    decreases s.len(),
{
    if s.len() == 0 {
        Seq::empty()
    } else {
        admitted(s.drop_last(), f) + (if f.admits(s.last().level) {
            seq![s.last()]
        } else {
            Seq::empty()
        })
    }
}

pub proof fn lemma_admit_all(s: Seq<LogEntry>)
    ensures
        admitted(s, LogFilter::All) == s,
    decreases s.len(),
{
    if s.len() > 0 {
        lemma_admit_all(s.drop_last());
        assert(s.drop_last().push(s.last()) =~= s);
    }
}

proof fn lemma_admitted_len(s: Seq<LogEntry>, f: LogFilter)
    ensures
        admitted(s, f).len() <= s.len(),
    decreases s.len(),
{
    if s.len() > 0 {
        lemma_admitted_len(s.drop_last(), f);
    }
}

/// Row `sel` of a list of `len` rows, or the last row when `sel` is past
/// the end.
pub open spec fn pick(sel: usize, len: nat) -> int {
    if sel < len {
        sel as int
    } else {
        len - 1
    }
}

/// A token source names an environment variable: not the keyring, not a
/// CLI's config, and only capitals, digits and underscores.
pub open spec fn env_source(src: Seq<char>) -> bool {
    &&& !eq_ignore_case(src, "keyring"@)
    &&& !contains(lower(src), "cli"@)
    &&& forall|i: int|
        0 <= i < src.len() ==> ('A' <= #[trigger] src[i] <= 'Z') || ('0' <= src[i] <= '9') || src[i] == '_'
}

/// Strings joined by `sep`.
pub open spec fn joined(ws: Seq<String>, sep: Seq<char>) -> Seq<char>
    decreases ws.len(),
{
    if ws.len() == 0 {
        Seq::empty()
    } else if ws.len() == 1 {
        ws[0]@
    } else {
        joined(ws.drop_last(), sep) + sep + ws.last()@
    }
}

/// Joining strings is joining their texts.
pub proof fn lemma_joined_texts(ws: Seq<String>, sep: Seq<char>)
    ensures
        joined(ws, sep) == crate::doctor::joined_texts(crate::sorting::texts(ws), sep),
    decreases ws.len(),
{
    if ws.len() > 1 {
        lemma_joined_texts(ws.drop_last(), sep);
        assert(crate::sorting::texts(ws.drop_last()) =~= crate::sorting::texts(ws).drop_last());
    }
}

/// The strings of `ws` joined by `sep`.
pub fn join_strings(ws: &Vec<String>, sep: &str) -> (r: String)
    ensures
        r@ == joined(ws@, sep@),
{
    let mut out = String::new();
    let mut i: usize = 0;
    while i < ws.len()
        invariant
            i <= ws@.len(),
            out@ == joined(ws@.take(i as int), sep@),
        decreases ws@.len() - i,
    {
        if i > 0 {
            push_str(&mut out, sep);
        }
        push_str(&mut out, ws[i].as_str());
        i = i + 1;
        proof {
            assert(ws@.take(i as int).drop_last() =~= ws@.take((i - 1) as int));
            if i == 1 {
                assert(joined(ws@.take(0), sep@) =~= Seq::<char>::empty());
            }
        }
    }
    assert(ws@.take(i as int) =~= ws@);
    out
}

/// The settings message a worker result leaves (`None`: unchanged).
pub open spec fn result_message(r: ActionResult) -> Option<Seq<char>> {
    match r {
        ActionResult::TokenStored { platform, identity, warnings } => if warnings@.len() == 0 {
            Some("ok: "@ + platform.name_of() + " token saved ("@ + identity@ + ")"@)
        } else {
            Some("warn: "@ + platform.name_of() + " token saved with warnings: "@ + joined(warnings@, "; "@))
        },
        ActionResult::TokenRemoved { platform } => Some("ok: "@ + platform.name_of() + " token removed"@),
        ActionResult::PlatformValidated { platform, identity, warnings } => if warnings@.len() == 0 {
            Some("ok: "@ + platform.name_of() + " token valid ("@ + identity@ + ")"@)
        } else {
            Some(
                "warn: "@ + platform.name_of() + " token valid ("@ + identity@ + ") with warnings: "@ + joined(
                    warnings@,
                    "; "@,
                ),
            )
        },
        ActionResult::DiscoveryCompleted { payload } => if payload.warnings@.len() > 0 {
            Some("warn: discovery completed with "@ + decimal(payload.warnings@.len()) + " warning(s)"@)
        } else {
            Some("ok: discovery completed"@)
        },
        ActionResult::CorrelationPreview { .. } => None,
        ActionResult::CorrelationsApplied { added, updated, total, .. } => Some(
            "ok: saved correlations: "@ + decimal(total as nat) + " total ("@ + decimal(added as nat) + " new, "@
                + decimal(updated as nat) + " updated)"@,
        ),
        ActionResult::Error { context, message } => Some("error: "@ + context@ + ": "@ + message@),
        ActionResult::DaemonStarted => Some("daemon started"@),
        ActionResult::DaemonStopped => Some("daemon stopped"@),
        ActionResult::DaemonAlreadyRunning => Some("daemon is already running"@),
        ActionResult::DaemonNotRunning => Some("daemon is not running"@),
        ActionResult::TuiConfigSaved => None,
    }
}

/// The settings step a worker result leads to.
pub open spec fn result_flow(r: ActionResult) -> SettingsFlowState {
    match r {
        ActionResult::DiscoveryCompleted { .. } => SettingsFlowState::ResourceSelection,
        ActionResult::CorrelationPreview { .. } => SettingsFlowState::CorrelationReview,
        ActionResult::DaemonStarted
        | ActionResult::DaemonStopped
        | ActionResult::DaemonAlreadyRunning
        | ActionResult::DaemonNotRunning
        | ActionResult::TuiConfigSaved => SettingsFlowState::Idle,
        _ => SettingsFlowState::ValidationResult,
    }
}

/// Whether a worker result asks for a fresh poll.
pub open spec fn result_refreshes(r: ActionResult) -> bool {
    match r {
        ActionResult::TokenStored { .. }
        | ActionResult::TokenRemoved { .. }
        | ActionResult::PlatformValidated { .. }
        | ActionResult::CorrelationsApplied { .. } => true,
        _ => false,
    }
}

/// The daemon state a worker result reports (`None`: unchanged).
pub open spec fn result_daemon(r: ActionResult) -> Option<bool> {
    match r {
        ActionResult::DaemonStarted | ActionResult::DaemonAlreadyRunning => Some(true),
        ActionResult::DaemonStopped | ActionResult::DaemonNotRunning => Some(false),
        _ => None,
    }
}

pub open spec fn opt_text(o: Option<String>) -> Option<Seq<char>> {
    match o {
        Some(s) => Some(s@),
        None => None,
    }
}

impl App {
    /// A new dashboard on the configured default tab, in normal mode,
    /// with nothing selected, searched or pending.
    pub fn new(data: DataSnapshot, tui_config: TuiConfig, log_buffer: LogRingBuffer) -> (r: Self)
        ensures
            r.active_tab == tab_for(tui_config.default_tab@),
            r.input_mode == InputMode::Normal,
            r.selected_row == 0,
            r.scroll_offset == 0,
            r.search_query@.len() == 0,
            r.data == data,
            r.tui_config == tui_config,
            !r.should_quit,
            !r.force_refresh,
            r.terminal_size == (80u16, 24u16),
            r.last_error is None,
            r.settings_flow == SettingsFlowState::Idle,
            r.settings_action_cursor == 0,
            r.settings_message is None,
            r.token_input@.len() == 0,
            !r.settings_action_in_flight,
            r.pending_action is None,
            r.onboarding.is_fresh(),
            r.log_buffer == log_buffer,
            r.log_filter == LogFilter::All,
            r.unified_sort == UnifiedSort::ByTime,
            r.platform_details_mode is None,
            r.platform_subtab == PlatformSubtab::GitHub,
            !r.settings_general_mode,
            r.settings_general_cursor == 0,
            !r.daemon_running,
    {
        let name = tui_config.default_tab.as_str();
        proof {
            reveal_strlit("by_platform");
            reveal_strlit("platform");
            reveal_strlit("health");
            reveal_strlit("settings");
            reveal_strlit("logs");
        }
        let default_tab = if crate::text::str_eq(name, "by_platform") || crate::text::str_eq(name, "platform") {
            Tab::Platform
        } else if crate::text::str_eq(name, "health") {
            Tab::Health
        } else if crate::text::str_eq(name, "settings") {
            Tab::Settings
        } else if crate::text::str_eq(name, "logs") {
            Tab::Logs
        } else {
            Tab::Unified
        };
        App {
            active_tab: default_tab,
            input_mode: InputMode::Normal,
            selected_row: 0,
            scroll_offset: 0,
            search_query: String::new(),
            data,
            tui_config,
            should_quit: false,
            force_refresh: false,
            terminal_size: (80, 24),
            last_error: None,
            settings_flow: SettingsFlowState::Idle,
            settings_action_cursor: 0,
            settings_message: None,
            token_input: String::new(),
            settings_action_in_flight: false,
            pending_action: None,
            onboarding: OnboardingState::fresh(),
            log_buffer,
            log_filter: LogFilter::All,
            unified_sort: UnifiedSort::ByTime,
            platform_details_mode: None,
            platform_subtab: PlatformSubtab::GitHub,
            settings_general_mode: false,
            settings_general_cursor: 0,
            daemon_running: false,
        }
    }

    /// Positions of the events the Platform tab lists for the current
    /// subtab and search.
    pub open spec fn spec_filtered(&self) -> Seq<usize> {
        filtered(self.data.events@, self.platform_subtab, self.search_query@)
    }

    /// Rows of the Platform tab: every listed GitHub run; for Railway and
    /// Vercel one row per service or project.
    pub open spec fn spec_platform_rows(&self) -> int {
        match self.platform_subtab {
            PlatformSubtab::GitHub => self.spec_filtered().len() as int,
            _ => distinct_keys(self.data.events@, self.spec_filtered()) as int,
        }
    }

    /// Rows of the active tab.
    pub open spec fn spec_row_count(&self) -> int {
        match self.active_tab {
            Tab::Unified => self.data.correlated@.len() as int,
            Tab::Platform => self.spec_platform_rows(),
            Tab::Health => self.data.health_scores@.len() as int,
            Tab::Settings => self.data.platform_health@.len() as int,
            Tab::Logs => admitted(self.log_buffer@, self.log_filter).len() as int,
        }
    }

    /// Positions of the events the Platform tab lists.
    pub fn platform_filtered_event_indices(&self) -> (r: Vec<usize>)
        ensures
            r@ == self.spec_filtered(),
            forall|t: int| 0 <= t < r@.len() ==> (#[trigger] r@[t]) < self.data.events@.len(),
            forall|a: int, b: int| 0 <= a < b < r@.len() ==> r@[a] < r@[b],
    {
        let r = filtered_event_indices(&self.data.events, self.platform_subtab, self.search_query.as_str());
        let _n = self.data.events.len();
        proof {
            lemma_shown_bounds(
                self.data.events@,
                self.platform_subtab,
                lower(self.search_query@),
                self.data.events@.len() as int,
            );
        }
        r
    }

    /// One row per Railway service or Vercel project listed: its newest
    /// event (the first of equally new ones), newest first.
    pub fn platform_latest_rows(&self) -> (r: Vec<PlatformLatestRow>)
        ensures
            latest_per_key(self.data.events@, self.spec_filtered(), r@.map_values(|x: PlatformLatestRow| x.event_idx)),
            rows_newest_first(self.data.events@, r@.map_values(|x: PlatformLatestRow| x.event_idx)),
    {
        let idx = self.platform_filtered_event_indices();
        let rows = latest_rows(&self.data.events, &idx);
        let mut out: Vec<PlatformLatestRow> = Vec::new();
        let mut i: usize = 0;
        while i < rows.len()
            invariant
                i <= rows@.len(),
                out@.map_values(|x: PlatformLatestRow| x.event_idx) == rows@.take(i as int),
            decreases rows@.len() - i,
        {
            let ghost before = out@;
            let row = PlatformLatestRow { event_idx: rows[i] };
            out.push(row);
            assert(out@ =~= before.push(row));
            assert(out@.map_values(|x: PlatformLatestRow| x.event_idx) =~= before.map_values(
                |x: PlatformLatestRow| x.event_idx,
            ).push(row.event_idx));
            i = i + 1;
            assert(rows@.take(i as int) =~= rows@.take((i - 1) as int).push(rows@[i - 1]));
        }
        assert(rows@.take(i as int) =~= rows@);
        out
    }

    fn platform_row_count(&self) -> (r: usize)
        ensures
            r == self.spec_platform_rows(),
    {
        match self.platform_subtab {
            PlatformSubtab::GitHub => self.platform_filtered_event_indices().len(),
            _ => self.platform_latest_rows().len(),
        }
    }

    /// Number of rows of the active tab.
    pub fn row_count(&self) -> (r: usize)
        ensures
            r == self.spec_row_count(),
    {
        match self.active_tab {
            Tab::Unified => self.data.correlated.len(),
            Tab::Platform => self.platform_row_count(),
            Tab::Health => self.health_grouped_rows().len(),
            Tab::Settings => self.data.platform_health.len(),
            Tab::Logs => {
                if self.log_filter == LogFilter::All {
                    proof {
                        lemma_admit_all(self.log_buffer@);
                    }
                    self.log_buffer.len()
                } else {
                    let entries = self.log_buffer.snapshot();
                    let mut n: usize = 0;
                    let mut i: usize = 0;
                    while i < entries.len()
                        invariant
                            i <= entries@.len(),
                            entries@ == self.log_buffer@,
                            n == admitted(entries@.take(i as int), self.log_filter).len(),
                        decreases entries@.len() - i,
                    {
                        proof {
                            assert(entries@.take(i + 1).drop_last() =~= entries@.take(i as int));
                            lemma_admitted_len(entries@.take(i as int), self.log_filter);
                        }
                        if self.log_filter.matches(&entries[i].level) {
                            n = n + 1;
                        }
                        i = i + 1;
                    }
                    assert(entries@.take(i as int) =~= entries@);
                    n
                }
            },
        }
    }

    /// Keep the selection on an existing row (row 0 when there is none).
    pub fn clamp_selection(&mut self)
        ensures
            final(self).selected_row == (if old(self).spec_row_count() == 0 {
                0
            } else if old(self).selected_row >= old(self).spec_row_count() {
                (old(self).spec_row_count() - 1) as usize
            } else {
                old(self).selected_row
            }),
            same_but_row(*old(self), *final(self)),
    {
        let count = self.row_count();
        if count == 0 {
            self.selected_row = 0;
        } else if self.selected_row >= count {
            self.selected_row = count - 1;
        }
    }

    /// The GitHub details pane is showing.
    pub open spec fn spec_details_active(&self) -> bool {
        self.active_tab == Tab::Platform && match self.platform_details_mode {
            Some(d) => d.show_logs,
            None => false,
        }
    }

    pub fn platform_details_active(&self) -> (r: bool)
        ensures
            r == self.spec_details_active(),
    {
        self.active_tab == Tab::Platform && match &self.platform_details_mode {
            Some(d) => d.show_logs,
            None => false,
        }
    }

    pub fn close_platform_details_mode(&mut self)
        ensures
            final(self).platform_details_mode is None,
            same_but_details(*old(self), *final(self)),
    {
        self.platform_details_mode = None;
    }

    /// Switch the Platform subtab; a different one closes the details and
    /// goes back to the first row.
    pub fn set_platform_subtab(&mut self, subtab: PlatformSubtab)
        ensures
            old(self).platform_subtab == subtab ==> *final(self) == *old(self),
            old(self).platform_subtab != subtab ==> {
                &&& final(self).platform_subtab == subtab
                &&& final(self).platform_details_mode is None
                &&& final(self).selected_row == 0
                &&& same_outside_nav(*old(self), *final(self))
                &&& final(self).active_tab == old(self).active_tab
            },
    {
        if self.platform_subtab == subtab {
            return;
        }
        self.platform_subtab = subtab;
        self.close_platform_details_mode();
        self.selected_row = 0;
        self.clamp_selection();
    }

    pub fn next_platform_subtab(&mut self)
        ensures
            final(self).platform_subtab == old(self).platform_subtab.spec_next(),
            final(self).platform_details_mode is None,
            final(self).selected_row == 0,
            final(self).active_tab == old(self).active_tab,
            same_outside_nav(*old(self), *final(self)),
    {
        let s = self.platform_subtab.next();
        self.set_platform_subtab(s);
    }

    pub fn prev_platform_subtab(&mut self)
        ensures
            final(self).platform_subtab == old(self).platform_subtab.spec_prev(),
            final(self).platform_details_mode is None,
            final(self).selected_row == 0,
            final(self).active_tab == old(self).active_tab,
            same_outside_nav(*old(self), *final(self)),
    {
        let s = self.platform_subtab.prev();
        self.set_platform_subtab(s);
    }

    /// The Health tab's rows.
    pub fn health_grouped_rows(&self) -> (r: Vec<HealthProjectRow>)
        ensures
            r@.map_values(|x: HealthProjectRow| row_view(x)) == grouped_rows(
                self.data.health_scores@,
                self.data.health_project_groups@,
                self.data.health_breakdowns@,
            ),
            r@.len() == self.data.health_scores@.len(),
    {
        health_grouped_rows(&self.data.health_scores, &self.data.health_project_groups, &self.data.health_breakdowns)
    }

    /// The selected Health row, if there are rows.
    pub fn selected_health_project(&self) -> (r: Option<HealthProjectRow>)
        ensures
            match r {
                None => self.data.health_scores@.len() == 0,
                Some(row) => self.data.health_scores@.len() > 0 && row_view(row) == grouped_rows(
                    self.data.health_scores@,
                    self.data.health_project_groups@,
                    self.data.health_breakdowns@,
                )[pick(self.selected_row, self.data.health_scores@.len())],
            },
    {
        let rows = self.health_grouped_rows();
        if rows.len() == 0 {
            return None;
        }
        let k = if self.selected_row < rows.len() { self.selected_row } else { rows.len() - 1 };
        assert(row_view(rows@[k as int]) == rows@.map_values(|x: HealthProjectRow| row_view(x))[k as int]);
        Some(rows[k].duplicate())
    }

    /// The selected record of the Logs tab (under its filter), if any.
    pub fn selected_log_entry(&self) -> (r: Option<LogEntry>)
        ensures
            match r {
                None => admitted(self.log_buffer@, self.log_filter).len() == 0,
                Some(e) => admitted(self.log_buffer@, self.log_filter).len() > 0 && e == admitted(
                    self.log_buffer@,
                    self.log_filter,
                )[pick(self.selected_row, admitted(self.log_buffer@, self.log_filter).len())],
            },
    {
        let entries = self.log_buffer.snapshot();
        let mut kept: Vec<LogEntry> = Vec::new();
        let mut i: usize = 0;
        while i < entries.len()
            invariant
                i <= entries@.len(),
                entries@ == self.log_buffer@,
                kept@ == admitted(entries@.take(i as int), self.log_filter),
            decreases entries@.len() - i,
        {
            proof {
                assert(entries@.take(i + 1).drop_last() =~= entries@.take(i as int));
            }
            if self.log_filter.matches(&entries[i].level) {
                kept.push(entries[i].duplicate());
            }
            i = i + 1;
            assert(kept@ =~= admitted(entries@.take(i as int), self.log_filter));
        }
        assert(entries@.take(i as int) =~= entries@);
        if kept.len() == 0 {
            return None;
        }
        let k = if self.selected_row < kept.len() { self.selected_row } else { kept.len() - 1 };
        Some(kept[k].duplicate())
    }

    /// The provider selected on the Settings tab: the selected report's,
    /// or, before any report, the provider at the selected position.
    pub fn selected_settings_platform(&self) -> (r: PlatformKind)
        ensures
            r == (if self.data.platform_health@.len() == 0 {
                PlatformKind::spec_at(if self.selected_row < 3 { self.selected_row as int } else { 2 })
            } else {
                self.data.platform_health@[pick(self.selected_row, self.data.platform_health@.len())].platform
            }),
    {
        let n = self.data.platform_health.len();
        if n == 0 {
            let k: usize = if self.selected_row < 3 { self.selected_row } else { 2 };
            return PlatformKind::at(k);
        }
        let k = if self.selected_row < n { self.selected_row } else { n - 1 };
        self.data.platform_health[k].platform
    }

    /// The selected readiness report, if any.
    pub fn selected_settings_report(&self) -> (r: Option<&PlatformHealthReport>)
        ensures
            match r {
                None => self.data.platform_health@.len() == 0,
                Some(rep) => self.data.platform_health@.len() > 0 && *rep == self.data.platform_health@[pick(
                    self.selected_row,
                    self.data.platform_health@.len(),
                )],
            },
    {
        let n = self.data.platform_health.len();
        if n == 0 {
            return None;
        }
        let k = if self.selected_row < n { self.selected_row } else { n - 1 };
        Some(&self.data.platform_health[k])
    }

    /// The selected provider's token comes from an environment variable.
    pub open spec fn spec_token_from_env(&self) -> bool {
        self.data.platform_health@.len() > 0 && match self.data.platform_health@[pick(
            self.selected_row,
            self.data.platform_health@.len(),
        )].token_source {
            Some(src) => env_source(src@),
            None => false,
        }
    }

    pub fn selected_token_from_env(&self) -> (r: bool)
        ensures
            r == self.spec_token_from_env(),
    {
        let report = match self.selected_settings_report() {
            Some(rep) => rep,
            None => return false,
        };
        let source = match &report.token_source {
            Some(s) => s.as_str(),
            None => return false,
        };
        proof {
            reveal_strlit("keyring");
            reveal_strlit("cli");
        }
        if eq_ignore_ascii_case(source, "keyring") {
            return false;
        }
        let low = to_lower(source);
        if contains_str(low.as_str(), "cli") {
            return false;
        }
        let n = char_count(source);
        let mut i: usize = 0;
        assert(self.spec_token_from_env() == (forall|k: int|
            0 <= k < source@.len() ==> ('A' <= #[trigger] source@[k] <= 'Z') || ('0' <= source@[k] <= '9') || source@[k]
                == '_'));
        while i < n
            invariant
                i <= n,
                n == source@.len(),
                self.spec_token_from_env() == (forall|k: int|
                    0 <= k < source@.len() ==> ('A' <= #[trigger] source@[k] <= 'Z') || ('0' <= source@[k] <= '9')
                        || source@[k] == '_'),
                forall|k: int|
                    0 <= k < i ==> ('A' <= #[trigger] source@[k] <= 'Z') || ('0' <= source@[k] <= '9') || source@[k]
                        == '_',
            decreases n - i,
        {
            let c = char_at(source, i);
            if !(('A' <= c && c <= 'Z') || ('0' <= c && c <= '9') || c == '_') {
                assert(!(('A' <= source@[i as int] <= 'Z') || ('0' <= source@[i as int] <= '9') || source@[i as int] == '_'));
                return false;
            }
            i = i + 1;
        }
        true
    }

    /// Hand `request` to the worker and move the settings flow to
    /// `next_state`.
    pub fn queue_action(&mut self, request: ActionRequest, next_state: SettingsFlowState)
        ensures
            final(self).pending_action == Some(request),
            final(self).settings_action_in_flight,
            final(self).settings_flow == next_state,
            final(self).settings_message == old(self).settings_message,
            final(self).token_input == old(self).token_input,
            final(self).onboarding == old(self).onboarding,
            final(self).last_error == old(self).last_error,
            final(self).daemon_running == old(self).daemon_running,
            same_outside_settings(*old(self), *final(self)),
    {
        self.pending_action = Some(request);
        self.settings_action_in_flight = true;
        self.settings_flow = next_state;
    }

    /// The request waiting to be sent, leaving none.
    pub fn take_pending_action(&mut self) -> (r: Option<ActionRequest>)
        ensures
            r == old(self).pending_action,
            final(self).pending_action is None,
    {
        self.pending_action.take()
    }

    /// Apply a worker result: report it in the settings message, move the
    /// settings flow on, and say whether to poll again or replace the
    /// configuration.
    pub fn handle_action_result(&mut self, result: ActionResult) -> (outcome: ActionOutcome)
        ensures
            !final(self).settings_action_in_flight,
            final(self).settings_flow == result_flow(result),
            opt_text(final(self).settings_message) == (match result_message(result) {
                Some(m) => Some(m),
                None => opt_text(old(self).settings_message),
            }),
            outcome.force_refresh == result_refreshes(result),
            match result {
                ActionResult::CorrelationsApplied { config, .. } => outcome.replace_config == Some(*config),
                _ => outcome.replace_config is None,
            },
            final(self).daemon_running == (match result_daemon(result) {
                Some(b) => b,
                None => old(self).daemon_running,
            }),
            final(self).last_error == (match result {
                ActionResult::Error { message, .. } => Some(message),
                _ => old(self).last_error,
            }),
            match result {
                ActionResult::TokenStored { .. } => final(self).token_input@.len() == 0,
                _ => final(self).token_input == old(self).token_input,
            },
            match result {
                ActionResult::DiscoveryCompleted { payload } => {
                    &&& fresh_list(final(self).onboarding.github@, payload.github@)
                    &&& fresh_list(final(self).onboarding.railway@, payload.railway@)
                    &&& fresh_vercel(final(self).onboarding.vercel@, payload.vercel@)
                    &&& final(self).onboarding.resource_cursor == 0
                    &&& final(self).onboarding.correlation_preview@.len() == 0
                    &&& final(self).onboarding.platform_cursor == old(self).onboarding.platform_cursor
                    &&& final(self).onboarding.platform_selected == old(self).onboarding.platform_selected
                },
                ActionResult::CorrelationPreview { lines } => final(self).onboarding == (OnboardingState {
                    correlation_preview: lines,
                    ..old(self).onboarding
                }),
                ActionResult::CorrelationsApplied { .. } => final(self).onboarding.is_fresh(),
                _ => final(self).onboarding == old(self).onboarding,
            },
            final(self).pending_action == old(self).pending_action,
            same_outside_settings(*old(self), *final(self)),
    {
        let text = result_text(&result);
        self.settings_action_in_flight = false;
        match text {
            Some(m) => self.settings_message = Some(m),
            None => {},
        }
        self.settings_flow = result_next_flow(&result);
        match result {
            ActionResult::TokenStored { .. } => {
                self.token_input = String::new();
                ActionOutcome { force_refresh: true, replace_config: None }
            },
            ActionResult::TokenRemoved { .. } | ActionResult::PlatformValidated { .. } => {
                ActionOutcome { force_refresh: true, replace_config: None }
            },
            ActionResult::DiscoveryCompleted { payload } => {
                self.onboarding.set_discovery(payload);
                ActionOutcome { force_refresh: false, replace_config: None }
            },
            ActionResult::CorrelationPreview { lines } => {
                self.onboarding.correlation_preview = lines;
                ActionOutcome { force_refresh: false, replace_config: None }
            },
            ActionResult::CorrelationsApplied { config, .. } => {
                self.onboarding.reset();
                ActionOutcome { force_refresh: true, replace_config: Some(*config) }
            },
            ActionResult::DaemonStarted | ActionResult::DaemonAlreadyRunning => {
                self.daemon_running = true;
                ActionOutcome { force_refresh: false, replace_config: None }
            },
            ActionResult::DaemonStopped | ActionResult::DaemonNotRunning => {
                self.daemon_running = false;
                ActionOutcome { force_refresh: false, replace_config: None }
            },
            ActionResult::TuiConfigSaved => ActionOutcome { force_refresh: false, replace_config: None },
            ActionResult::Error { message, .. } => {
                self.last_error = Some(message);
                ActionOutcome { force_refresh: false, replace_config: None }
            },
        }
    }
}

fn result_next_flow(result: &ActionResult) -> (r: SettingsFlowState)
    ensures
        r == result_flow(*result),
{
    match result {
        ActionResult::DiscoveryCompleted { .. } => SettingsFlowState::ResourceSelection,
        ActionResult::CorrelationPreview { .. } => SettingsFlowState::CorrelationReview,
        ActionResult::DaemonStarted
        | ActionResult::DaemonStopped
        | ActionResult::DaemonAlreadyRunning
        | ActionResult::DaemonNotRunning
        | ActionResult::TuiConfigSaved => SettingsFlowState::Idle,
        _ => SettingsFlowState::ValidationResult,
    }
}

fn token_message(verb: &str, platform: PlatformKind, identity: &String, warnings: &Vec<String>) -> (r: String)
    ensures
        r@ == (if warnings@.len() == 0 {
            "ok: "@ + platform.name_of() + verb@ + " ("@ + identity@ + ")"@
        } else {
            "warn: "@ + platform.name_of() + verb@ + " ("@ + identity@ + ") with warnings: "@ + joined(warnings@, "; "@)
        }),
{
    proof {
        reveal_strlit(")");
        reveal_strlit(" with warnings: ");
        reveal_strlit(") with warnings: ");
        assert(")"@ + " with warnings: "@ =~= ") with warnings: "@);
    }
    let mut m = if warnings.len() == 0 { owned("ok: ") } else { owned("warn: ") };
    push_str(&mut m, platform.display_name());
    push_str(&mut m, verb);
    push_str(&mut m, " (");
    push_str(&mut m, identity.as_str());
    push_str(&mut m, ")");
    if warnings.len() > 0 {
        push_str(&mut m, " with warnings: ");
        let w = join_strings(warnings, "; ");
        push_str(&mut m, w.as_str());
    }
    m
}

fn result_text(result: &ActionResult) -> (r: Option<String>)
    ensures
        opt_text(r) == result_message(*result),
{
    match result {
        ActionResult::TokenStored { platform, identity, warnings } => {
            if warnings.len() == 0 {
                proof {
                    reveal_strlit(" token saved");
                    reveal_strlit(" (");
                    reveal_strlit(" token saved (");
                    assert(" token saved"@ + " ("@ =~= " token saved ("@);
                }
                Some(token_message(" token saved", *platform, identity, warnings))
            } else {
                let mut m = owned("warn: ");
                push_str(&mut m, platform.display_name());
                push_str(&mut m, " token saved with warnings: ");
                let w = join_strings(warnings, "; ");
                push_str(&mut m, w.as_str());
                Some(m)
            }
        },
        ActionResult::TokenRemoved { platform } => {
            let mut m = owned("ok: ");
            push_str(&mut m, platform.display_name());
            push_str(&mut m, " token removed");
            Some(m)
        },
        ActionResult::PlatformValidated { platform, identity, warnings } => {
            proof {
                reveal_strlit(" token valid");
                reveal_strlit(" (");
                reveal_strlit(" token valid (");
                assert(" token valid"@ + " ("@ =~= " token valid ("@);
            }
            Some(token_message(" token valid", *platform, identity, warnings))
        },
        ActionResult::DiscoveryCompleted { payload } => {
            let count = payload.warnings.len();
            if count > 0 {
                let mut m = owned("warn: discovery completed with ");
                push_decimal(&mut m, count as u64);
                push_str(&mut m, " warning(s)");
                Some(m)
            } else {
                Some(owned("ok: discovery completed"))
            }
        },
        ActionResult::CorrelationPreview { .. } => None,
        ActionResult::CorrelationsApplied { added, updated, total, .. } => {
            let mut m = owned("ok: saved correlations: ");
            push_decimal(&mut m, *total as u64);
            push_str(&mut m, " total (");
            push_decimal(&mut m, *added as u64);
            push_str(&mut m, " new, ");
            push_decimal(&mut m, *updated as u64);
            push_str(&mut m, " updated)");
            Some(m)
        },
        ActionResult::Error { context, message } => {
            let mut m = owned("error: ");
            push_str(&mut m, context.as_str());
            push_str(&mut m, ": ");
            push_str(&mut m, message.as_str());
            Some(m)
        },
        ActionResult::DaemonStarted => Some(owned("daemon started")),
        ActionResult::DaemonStopped => Some(owned("daemon stopped")),
        ActionResult::DaemonAlreadyRunning => Some(owned("daemon is already running")),
        ActionResult::DaemonNotRunning => Some(owned("daemon is not running")),
        ActionResult::TuiConfigSaved => None,
    }
}

/// Fields no key or worker result touches.
pub open spec fn same_context(a: App, b: App) -> bool {
    &&& b.scroll_offset == a.scroll_offset
    &&& b.data == a.data
    &&& b.tui_config == a.tui_config
    &&& b.terminal_size == a.terminal_size
    &&& b.settings_action_cursor == a.settings_action_cursor
    &&& b.settings_general_mode == a.settings_general_mode
    &&& b.settings_general_cursor == a.settings_general_cursor
}

/// The navigation fields: tab, row, Platform subtab and details.
pub open spec fn same_nav(a: App, b: App) -> bool {
    &&& b.active_tab == a.active_tab
    &&& b.selected_row == a.selected_row
    &&& b.platform_subtab == a.platform_subtab
    &&& b.platform_details_mode == a.platform_details_mode
}

/// The settings-flow fields.
pub open spec fn same_settings(a: App, b: App) -> bool {
    &&& b.settings_flow == a.settings_flow
    &&& b.settings_message == a.settings_message
    &&& b.token_input == a.token_input
    &&& b.settings_action_in_flight == a.settings_action_in_flight
    &&& b.pending_action == a.pending_action
    &&& b.onboarding == a.onboarding
    &&& b.last_error == a.last_error
    &&& b.daemon_running == a.daemon_running
}

/// The input, flag, log and sort fields.
pub open spec fn same_misc(a: App, b: App) -> bool {
    &&& b.input_mode == a.input_mode
    &&& b.search_query == a.search_query
    &&& b.should_quit == a.should_quit
    &&& b.force_refresh == a.force_refresh
    &&& b.log_filter == a.log_filter
    &&& b.log_buffer == a.log_buffer
    &&& b.unified_sort == a.unified_sort
}

/// Only the navigation fields may differ.
pub open spec fn same_outside_nav(a: App, b: App) -> bool {
    same_context(a, b) && same_settings(a, b) && same_misc(a, b)
}

/// Only the settings-flow fields may differ.
pub open spec fn same_outside_settings(a: App, b: App) -> bool {
    same_context(a, b) && same_nav(a, b) && same_misc(a, b)
}

/// Only the selected row may differ.
pub open spec fn same_but_row(a: App, b: App) -> bool {
    &&& same_outside_nav(a, b)
    &&& b.active_tab == a.active_tab
    &&& b.platform_subtab == a.platform_subtab
    &&& b.platform_details_mode == a.platform_details_mode
}

/// Only the details state may differ.
pub open spec fn same_but_details(a: App, b: App) -> bool {
    &&& same_outside_nav(a, b)
    &&& b.active_tab == a.active_tab
    &&& b.platform_subtab == a.platform_subtab
    &&& b.selected_row == a.selected_row
}

} // verus!

//! The decisions of the dashboard's main loop: what follows a new snapshot,
//! a key press, a clock tick and a worker result. The loop itself (terminal,
//! channels, drawing) performs the effects these return.

use vstd::prelude::*;
use crate::actions::{ActionRequest, ActionResult};
use crate::app::{result_refreshes, same_but_details, same_but_row, App, DataSnapshot};
use crate::details::{followed, resynced_ok};
use crate::keys::{handle_key, normal_step, search_step, KeyAction, KeyEvent};
use crate::poll::PollerCommand;
use crate::tabs::{InputMode, PlatformSubtab};
use crate::text::owned;

verus! {

/// `b` is `a` with the selected row brought back into the table.
pub open spec fn clamped(a: App, b: App) -> bool {
    &&& b.selected_row == (if a.spec_row_count() == 0 {
        0
    } else if a.selected_row >= a.spec_row_count() {
        (a.spec_row_count() - 1) as usize
    } else {
        a.selected_row
    })
    &&& same_but_row(a, b)
}

/// `b` is `a` with the run tree following the selected row.
pub open spec fn tree_followed(a: App, b: App) -> bool {
    followed(a, b.platform_details_mode) && same_but_details(a, b)
}

/// `b` is `a` with the open run tree kept on its run after new data.
pub open spec fn details_synced(a: App, b: App) -> bool {
    &&& same_but_details(a, b)
    &&& a.platform_subtab != PlatformSubtab::GitHub ==> b.platform_details_mode is None
    &&& a.platform_subtab == PlatformSubtab::GitHub ==> match a.platform_details_mode {
        None => b.platform_details_mode is None,
        Some(d) => resynced_ok(a, d, b.platform_details_mode),
    }
}

/// `d` is `a` after the views are brought in line with the data: the
/// selection clamped, the run tree following it, and kept on its run.
pub open spec fn view_refreshed(a: App, d: App) -> bool {
    exists|b: App, c: App| clamped(a, b) && tree_followed(b, c) && details_synced(c, d)
}

/// What a key press asks of the loop.
pub struct KeyOutcome {
    /// Copy this to the clipboard, then report with `App::record_copy`.
    pub action: KeyAction,
    /// Ask the poller for a fetch now.
    pub force_refresh: bool,
    /// Send this request to the worker.
    pub request: Option<ActionRequest>,
}

/// `b` is `a` after the key: the key's own effect.
pub open spec fn key_applied(a: App, b: App, key: KeyEvent, act: KeyAction) -> bool {
    &&& a.input_mode == InputMode::Normal ==> normal_step(a, b, key, act)
    &&& a.input_mode == InputMode::Search ==> search_step(a, b, key) && act is Nothing
}

impl App {
    /// Brings the views in line with the data.
    pub fn refresh_view(&mut self)
        ensures
            view_refreshed(*old(self), *final(self)),
    {
        let ghost a = *self;
        self.clamp_selection();
        let ghost b = *self;
        self.ensure_platform_tree_state();
        let ghost c = *self;
        self.sync_platform_details_with_data();
        assert(clamped(a, b) && tree_followed(b, c) && details_synced(c, *self));
    }

    /// Shows a new snapshot.
    pub fn accept_snapshot(&mut self, snapshot: DataSnapshot)
        ensures
            exists|a: App| a == (App { data: snapshot, ..*old(self) }) && view_refreshed(a, *final(self)),
    {
        self.data = snapshot;
        let ghost a = *self;
        self.refresh_view();
        assert(view_refreshed(a, *self));
    }

    /// Handles a key press: its effect, the views brought in line, then the
    /// refresh it asked for and the request it queued are handed out.
    pub fn after_key(&mut self, key: KeyEvent) -> (out: KeyOutcome)
        ensures
            exists|b: App, c: App|
                {
                    &&& key_applied(*old(self), b, key, out.action)
                    &&& view_refreshed(b, c)
                    &&& out.force_refresh == c.force_refresh
                    &&& out.request == c.pending_action
                    &&& *final(self) == (App { force_refresh: false, pending_action: None, ..c })
                },
    {
        let ghost a = *self;
        let action = handle_key(self, key);
        let ghost b = *self;
        self.refresh_view();
        let ghost c = *self;
        let force_refresh = self.force_refresh;
        self.force_refresh = false;
        let request = self.pending_action.take();
        let out = KeyOutcome { action, force_refresh, request };
        assert(key_applied(a, b, key, out.action));
        assert(*self == (App { force_refresh: false, pending_action: None, ..c }));
        out
    }

    /// The worker queue was full: the request is dropped and the user told.
    pub fn request_refused(&mut self)
        ensures
            *final(self) == (App {
                settings_action_in_flight: false,
                last_error: Some(final(self).last_error.unwrap()),
                ..*old(self)
            }),
            final(self).last_error matches Some(e) && e@ == "Action queue is busy; try again."@,
    {
        self.settings_action_in_flight = false;
        self.last_error = Some(owned("Action queue is busy; try again."));
    }

    /// Applies a worker result; returns the commands for the poller: a new
    /// configuration first, then a fetch, when the result asks for them.
    pub fn after_result(&mut self, result: ActionResult) -> (cmds: Vec<PollerCommand>)
        ensures
            cmds@.len() == (if result is CorrelationsApplied {
                1int
            } else {
                0int
            }) + (if result_refreshes(result) {
                1int
            } else {
                0int
            }),
            result matches ActionResult::CorrelationsApplied { config, .. } ==> cmds@[0] == PollerCommand::ReplaceConfig(
                *config,
            ),
            result_refreshes(result) ==> cmds@.last() is ForceRefresh,
    {
        let ghost r = result;
        let outcome = self.handle_action_result(result);
        let mut cmds: Vec<PollerCommand> = Vec::new();
        match outcome.replace_config {
            Some(config) => cmds.push(PollerCommand::ReplaceConfig(config)),
            None => {},
        }
        if outcome.force_refresh {
            cmds.push(PollerCommand::ForceRefresh);
        }
        cmds
    }
}

/// The check of the background service on the settings tab, about once a
/// second: ticks are counted while the tab is shown, and the count starts
/// full elsewhere so the check runs at once on the next visit. Returns the
/// new count and whether to check now.
pub fn daemon_tick(on_settings: bool, ticks: u32, interval: u32) -> (r: (u32, bool))
    ensures
        !on_settings ==> r == (interval, false),
        on_settings ==> ({
            let next = if ticks == u32::MAX {
                u32::MAX
            } else {
                (ticks + 1) as u32
            };
            if next >= interval {
                r == (0u32, true)
            } else {
                r == (next, false)
            }
        }),
{
    if !on_settings {
        return (interval, false);
    }
    let next = if ticks == u32::MAX { u32::MAX } else { ticks + 1 };
    if next >= interval {
        (0, true)
    } else {
        (next, false)
    }
}

/// Milliseconds between frames at the configured rate (at least one frame
/// a second).
pub fn tick_interval_ms(fps: u32) -> (r: u64)
    ensures
        r == 1000int / (if fps >= 1 {
            fps as int
        } else {
            1
        }),
{
    let f: u64 = if fps >= 1 { fps as u64 } else { 1 };
    1000 / f
}

} // verus!

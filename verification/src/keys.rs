//! Key handling: what each key does to the dashboard state in search mode,
//! in the settings flow, in the GitHub details pane, on the Platform tab,
//! and everywhere else. Copying to the clipboard is left to the caller:
//! the key reports the text to copy, and `App::record_copy` logs how the
//! copy went.

use vstd::prelude::*;
use crate::actions::ActionRequest;
use crate::app::{admitted, pick, same_context, same_misc, same_nav, same_outside_nav, same_outside_settings, same_settings, App, now_millis};
use crate::details::{focused_right, left_rel, moved_by, open_rel, scrolled_by, toggle_rel};
use crate::log_buffer::{kept, LogEntry};
use crate::settings_flow::{capped, picked_platforms, picked_resources, picked_vercel, OnboardingState};
use crate::tabs::{DetailsFocus, InputMode, Level, LogFilter, PlatformSubtab, SettingsFlowState, Tab};
use crate::text::{owned, pop_char, push_char, push_str, trim, trimmed};

verus! {

/// A key, as far as the dashboard tells keys apart.
#[derive(Debug, Clone, Copy, PartialEq, Eq, Structural)]
pub enum KeyCode {
    Char(char),
    Enter,
    Esc,
    Backspace,
    Left,
    Right,
    Up,
    Down,
    Tab,
    BackTab,
    PageUp,
    PageDown,
    /// Any other key.
    Other,
}

/// The modifier keys held with a key.
#[derive(Debug, Clone, Copy, PartialEq, Eq, Structural)]
pub struct KeyModifiers {
    pub control: bool,
    pub alt: bool,
    pub shift: bool,
}

impl KeyModifiers {
    pub fn none() -> (r: Self)
        ensures
            !r.control && !r.alt && !r.shift,
    {
        KeyModifiers { control: false, alt: false, shift: false }
    }

    pub fn control() -> (r: Self)
        ensures
            r.control && !r.alt && !r.shift,
    {
        KeyModifiers { control: true, alt: false, shift: false }
    }
}

/// A key press.
#[derive(Debug, Clone, Copy, PartialEq, Eq, Structural)]
pub struct KeyEvent {
    pub code: KeyCode,
    pub modifiers: KeyModifiers,
}

impl KeyEvent {
    pub fn new(code: KeyCode, modifiers: KeyModifiers) -> (r: Self)
        ensures
            r.code == code && r.modifiers == modifiers,
    {
        KeyEvent { code, modifiers }
    }

    /// A key pressed alone.
    pub fn plain(code: KeyCode) -> (r: Self)
        ensures
            r.code == code && !r.modifiers.control && !r.modifiers.alt && !r.modifiers.shift,
    {
        KeyEvent { code, modifiers: KeyModifiers::none() }
    }
}

/// Work a key leaves to the caller.
#[derive(Debug)]
pub enum KeyAction {
    Nothing,
    /// Put this text on the clipboard, then call `App::record_copy`.
    CopyToClipboard(String),
}

/// A character typed without Control or Alt.
pub open spec fn typed(key: KeyEvent) -> Option<char> {
    match key.code {
        KeyCode::Char(c) => if !key.modifiers.control && !key.modifiers.alt {
            Some(c)
        } else {
            None
        },
        _ => None,
    }
}

pub open spec fn is_char(key: KeyEvent, c: char) -> bool {
    key.code == KeyCode::Char(c)
}

pub open spec fn is_down(key: KeyEvent) -> bool {
    is_char(key, 'j') || key.code == KeyCode::Down
}

pub open spec fn is_up(key: KeyEvent) -> bool {
    is_char(key, 'k') || key.code == KeyCode::Up
}

// ---------------------------------------------------------------- search

/// A key in search mode: Esc leaves and clears the query, Enter leaves
/// and keeps it, Backspace deletes its last character, a typed character
/// is appended; nothing else changes.
pub open spec fn search_step(a: App, b: App, key: KeyEvent) -> bool {
    &&& same_context(a, b)
    &&& same_nav(a, b)
    &&& same_settings(a, b)
    &&& b.should_quit == a.should_quit
    &&& b.force_refresh == a.force_refresh
    &&& b.log_filter == a.log_filter
    &&& b.log_buffer == a.log_buffer
    &&& b.unified_sort == a.unified_sort
    &&& if key.code == KeyCode::Esc {
        b.input_mode == InputMode::Normal && b.search_query@.len() == 0
    } else if key.code == KeyCode::Enter {
        b.input_mode == InputMode::Normal && b.search_query == a.search_query
    } else if key.code == KeyCode::Backspace {
        b.input_mode == a.input_mode && b.search_query@ == (if a.search_query@.len() == 0 {
            a.search_query@
        } else {
            a.search_query@.drop_last()
        })
    } else if typed(key) is Some {
        b.input_mode == a.input_mode && b.search_query@ == a.search_query@.push(typed(key)->0)
    } else {
        b.input_mode == a.input_mode && b.search_query == a.search_query
    }
}

fn handle_search_mode(app: &mut App, key: KeyEvent)
    ensures
        search_step(*old(app), *final(app), key),
{
    match key.code {
        KeyCode::Esc => {
            app.input_mode = InputMode::Normal;
            app.search_query = String::new();
        },
        KeyCode::Enter => {
            app.input_mode = InputMode::Normal;
        },
        KeyCode::Backspace => {
            pop_char(&mut app.search_query);
        },
        KeyCode::Char(c) => {
            if !key.modifiers.control && !key.modifiers.alt {
                push_char(&mut app.search_query, c);
            }
        },
        _ => {},
    }
}

// -------------------------------------------------------------- settings

/// The settings message `m`.
pub open spec fn says(b: App, m: Seq<char>) -> bool {
    b.settings_message is Some && b.settings_message->0@ == m
}

/// Only the settings fields named change: the flow, the message, the
/// token being typed, the pending request, the onboarding draft.
pub open spec fn settings_frame(a: App, b: App) -> bool {
    &&& same_outside_settings(a, b)
    &&& b.last_error == a.last_error
    &&& b.daemon_running == a.daemon_running
}

/// The request `r` was queued and the flow moved to `next`; the message,
/// token and draft are unchanged.
pub open spec fn queued(a: App, b: App, next: SettingsFlowState) -> bool {
    &&& b.pending_action is Some
    &&& b.settings_action_in_flight
    &&& b.settings_flow == next
    &&& b.settings_message == a.settings_message
    &&& b.token_input == a.token_input
    &&& b.onboarding == a.onboarding
}

/// Only the named settings fields differ from `a`.
pub open spec fn only_flow(a: App, b: App) -> bool {
    &&& b.settings_message == a.settings_message
    &&& b.token_input == a.token_input
    &&& b.pending_action == a.pending_action
    &&& b.settings_action_in_flight == a.settings_action_in_flight
}

pub open spec fn only_message(a: App, b: App) -> bool {
    &&& b.settings_flow == a.settings_flow
    &&& b.token_input == a.token_input
    &&& b.pending_action == a.pending_action
    &&& b.settings_action_in_flight == a.settings_action_in_flight
    &&& b.onboarding == a.onboarding
}

/// Whether the settings tab takes the key: every key while a step of the
/// flow is open or running; at rest only Esc, Enter, t, T, x, v and o.
pub open spec fn settings_handles(a: App, key: KeyEvent) -> bool {
    match a.settings_flow {
        SettingsFlowState::Idle | SettingsFlowState::ValidationResult => {
            ||| key.code == KeyCode::Esc
            ||| key.code == KeyCode::Enter
            ||| is_char(key, 't')
            ||| is_char(key, 'T')
            ||| is_char(key, 'x')
            ||| is_char(key, 'v')
            ||| is_char(key, 'o')
        },
        _ => true,
    }
}

/// The selected provider (see `App::selected_settings_platform`).
pub open spec fn settings_platform(a: App) -> crate::domain::PlatformKind {
    if a.data.platform_health@.len() == 0 {
        crate::domain::PlatformKind::spec_at(if a.selected_row < 3 { a.selected_row as int } else { 2 })
    } else {
        a.data.platform_health@[pick(a.selected_row, a.data.platform_health@.len())].platform
    }
}

/// A key while typing a token: Esc cancels and clears it, Enter queues
/// validating and storing the trimmed token (or complains that it is
/// empty), Backspace deletes, a typed character is appended.
pub open spec fn token_entry_step(a: App, b: App, key: KeyEvent) -> bool {
    if key.code == KeyCode::Esc {
        b.settings_flow == SettingsFlowState::Idle && b.token_input@.len() == 0 && b.settings_message
            == a.settings_message && b.pending_action == a.pending_action && b.settings_action_in_flight
            == a.settings_action_in_flight && b.onboarding == a.onboarding
    } else if key.code == KeyCode::Enter {
        if trimmed(a.token_input@).len() == 0 {
            says(b, "token cannot be empty"@) && only_message(a, b)
        } else {
            queued(a, b, SettingsFlowState::ValidatingToken) && (b.pending_action->0 matches ActionRequest::ValidateAndStoreToken {
                platform,
                token,
            } && platform == settings_platform(a) && token@ == trimmed(a.token_input@))
        }
    } else if key.code == KeyCode::Backspace {
        b.token_input@ == (if a.token_input@.len() == 0 {
            a.token_input@
        } else {
            a.token_input@.drop_last()
        }) && b.settings_flow == a.settings_flow && b.settings_message == a.settings_message && b.pending_action
            == a.pending_action && b.settings_action_in_flight == a.settings_action_in_flight && b.onboarding
            == a.onboarding
    } else if typed(key) is Some {
        b.token_input@ == a.token_input@.push(typed(key)->0) && b.settings_flow == a.settings_flow
            && b.settings_message == a.settings_message && b.pending_action == a.pending_action
            && b.settings_action_in_flight == a.settings_action_in_flight && b.onboarding == a.onboarding
    } else {
        b == a
    }
}

/// `b`'s draft is `a`'s with only the provider cursor and flags changed.
pub open spec fn draft_keeps_resources(x: OnboardingState, y: OnboardingState) -> bool {
    &&& y.resource_cursor == x.resource_cursor
    &&& y.github == x.github
    &&& y.railway == x.railway
    &&& y.vercel == x.vercel
    &&& y.correlation_preview == x.correlation_preview
}

/// A key while choosing providers: Esc cancels, j/k move (within the
/// three providers), Space flips the provider under the cursor, Enter
/// queues discovery of the chosen providers (or asks for one).
pub open spec fn provider_step(a: App, b: App, key: KeyEvent) -> bool {
    let o = a.onboarding;
    let n = b.onboarding;
    if key.code == KeyCode::Esc {
        b.settings_flow == SettingsFlowState::Idle && n.is_fresh() && b.settings_message == a.settings_message
            && b.token_input == a.token_input && b.pending_action == a.pending_action && b.settings_action_in_flight
            == a.settings_action_in_flight
    } else if is_down(key) {
        n == OnboardingState { platform_cursor: if o.platform_cursor + 1 > 2 { 2 } else { (o.platform_cursor + 1) as usize }, ..o }
            && b.settings_flow == a.settings_flow && only_flow(a, b)
    } else if is_up(key) {
        n == OnboardingState { platform_cursor: if o.platform_cursor > 0 { (o.platform_cursor - 1) as usize } else { 0 }, ..o }
            && b.settings_flow == a.settings_flow && only_flow(a, b)
    } else if is_char(key, ' ') {
        let idx = if o.platform_cursor < 2 { o.platform_cursor as int } else { 2 };
        &&& n.platform_cursor == o.platform_cursor
        &&& draft_keeps_resources(o, n)
        &&& n.platform_selected@ == (if idx < o.platform_selected@.len() {
            o.platform_selected@.update(idx, !o.platform_selected@[idx])
        } else {
            o.platform_selected@
        })
        &&& b.settings_flow == a.settings_flow
        &&& only_flow(a, b)
    } else if key.code == KeyCode::Enter {
        if picked_platforms(o.platform_selected@).len() == 0 {
            says(b, "select at least one provider"@) && only_message(a, b)
        } else {
            queued(a, b, SettingsFlowState::DiscoveryScanning) && (b.pending_action->0 matches ActionRequest::Discover {
                platforms,
            } && platforms@ == picked_platforms(o.platform_selected@))
        }
    } else {
        b == a
    }
}

/// A key while picking resources: Esc cancels, j/k move (kept on the
/// list), Space flips the resource under the cursor, Enter queues a
/// preview of the correlations for the picked resources (or asks for one).
pub open spec fn resource_step(a: App, b: App, key: KeyEvent) -> bool {
    let o = a.onboarding;
    let n = b.onboarding;
    if key.code == KeyCode::Esc {
        b.settings_flow == SettingsFlowState::Idle && n.is_fresh() && b.settings_message == a.settings_message
            && b.token_input == a.token_input && b.pending_action == a.pending_action && b.settings_action_in_flight
            == a.settings_action_in_flight
    } else if is_down(key) {
        let up = if o.resource_cursor == usize::MAX { usize::MAX as int } else { o.resource_cursor + 1 };
        let max = capped(o.spec_selectable());
        n == OnboardingState {
            resource_cursor: if max == 0 { 0 } else if up >= max { (max - 1) as usize } else { up as usize },
            ..o
        } && b.settings_flow == a.settings_flow && only_flow(a, b)
    } else if is_up(key) {
        n == OnboardingState { resource_cursor: if o.resource_cursor > 0 { (o.resource_cursor - 1) as usize } else { 0 }, ..o }
            && b.settings_flow == a.settings_flow && only_flow(a, b)
    } else if is_char(key, ' ') {
        &&& n.platform_cursor == o.platform_cursor
        &&& n.platform_selected == o.platform_selected
        &&& n.resource_cursor == o.resource_cursor
        &&& n.correlation_preview == o.correlation_preview
        &&& crate::settings_flow::toggled_at(o, n, o.resource_cursor as int)
        &&& b.settings_flow == a.settings_flow
        &&& only_flow(a, b)
    } else if key.code == KeyCode::Enter {
        if capped(o.spec_selected()) == 0 {
            says(b, "select at least one resource"@) && only_message(a, b)
        } else {
            queued(a, b, SettingsFlowState::Applying) && (b.pending_action->0 matches ActionRequest::BuildCorrelationPreview {
                discovery,
            } && discovery.github@ == picked_resources(o.github@) && discovery.railway@ == picked_resources(o.railway@)
                && discovery.vercel@ == picked_vercel(o.vercel@) && discovery.warnings@.len() == 0)
        }
    } else {
        b == a
    }
}

/// A key while reviewing the correlation preview: Esc goes back to
/// picking resources, Enter queues saving the correlations.
pub open spec fn review_step(a: App, b: App, key: KeyEvent) -> bool {
    let o = a.onboarding;
    if key.code == KeyCode::Esc {
        b.settings_flow == SettingsFlowState::ResourceSelection && b.onboarding == a.onboarding && only_flow(a, b)
    } else if key.code == KeyCode::Enter {
        queued(a, b, SettingsFlowState::Applying) && (b.pending_action->0 matches ActionRequest::ApplyCorrelations {
            discovery,
        } && discovery.github@ == picked_resources(o.github@) && discovery.railway@ == picked_resources(o.railway@)
            && discovery.vercel@ == picked_vercel(o.vercel@) && discovery.warnings@.len() == 0)
    } else {
        b == a
    }
}

/// A key at rest on the settings tab: Esc resets the draft, Enter and o
/// start onboarding, t types a token (unless the token comes from the
/// environment), T types an override, x queues removing the token (unless
/// it comes from the environment), v queues validating it.
pub open spec fn rest_step(a: App, b: App, key: KeyEvent) -> bool {
    let env = a.spec_token_from_env();
    if key.code == KeyCode::Esc {
        b.settings_flow == SettingsFlowState::Idle && b.onboarding.is_fresh() && only_flow(a, b)
    } else if key.code == KeyCode::Enter || is_char(key, 'o') {
        b.settings_flow == SettingsFlowState::ProviderActions && b.onboarding.is_fresh() && only_flow(a, b)
    } else if is_char(key, 't') {
        if env {
            says(b, "env token is active; unset env var or press T to store override"@) && only_message(a, b)
        } else {
            b.settings_flow == SettingsFlowState::TokenEntry && b.token_input@.len() == 0 && b.settings_message
                == a.settings_message && b.pending_action == a.pending_action && b.settings_action_in_flight
                == a.settings_action_in_flight && b.onboarding == a.onboarding
        }
    } else if is_char(key, 'T') {
        &&& b.settings_flow == SettingsFlowState::TokenEntry
        &&& b.token_input@.len() == 0
        &&& (if env {
            says(b, "stored override can be saved; env token stays active until unset"@)
        } else {
            b.settings_message == a.settings_message
        })
        &&& b.pending_action == a.pending_action
        &&& b.settings_action_in_flight == a.settings_action_in_flight
        &&& b.onboarding == a.onboarding
    } else if is_char(key, 'x') {
        if env {
            says(b, "cannot remove env token; unset it in shell"@) && only_message(a, b)
        } else {
            queued(a, b, SettingsFlowState::Applying) && (b.pending_action->0 matches ActionRequest::RemoveToken {
                platform,
            } && platform == settings_platform(a))
        }
    } else if is_char(key, 'v') {
        queued(a, b, SettingsFlowState::Applying) && (b.pending_action->0 matches ActionRequest::ValidatePlatform {
            platform,
        } && platform == settings_platform(a))
    } else {
        b == a
    }
}

/// A key on the settings tab, by the step of the flow.
pub open spec fn settings_step(a: App, b: App, key: KeyEvent) -> bool {
    &&& settings_frame(a, b)
    &&& match a.settings_flow {
        SettingsFlowState::TokenEntry => token_entry_step(a, b, key),
        SettingsFlowState::ProviderActions => provider_step(a, b, key),
        SettingsFlowState::ResourceSelection => resource_step(a, b, key),
        SettingsFlowState::CorrelationReview => review_step(a, b, key),
        SettingsFlowState::ValidatingToken
        | SettingsFlowState::DiscoveryScanning
        | SettingsFlowState::Applying => b == a,
        SettingsFlowState::Idle | SettingsFlowState::ValidationResult => rest_step(a, b, key),
    }
}

fn handle_token_entry(app: &mut App, key: KeyEvent)
    requires
        old(app).settings_flow == SettingsFlowState::TokenEntry,
    ensures
        settings_frame(*old(app), *final(app)),
        token_entry_step(*old(app), *final(app), key),
{
    match key.code {
        KeyCode::Esc => {
            app.settings_flow = SettingsFlowState::Idle;
            app.token_input = String::new();
        },
        KeyCode::Enter => {
            let platform = app.selected_settings_platform();
            let token = trim(app.token_input.as_str());
            if token.as_str().unicode_len() == 0 {
                app.settings_message = Some(owned("token cannot be empty"));
            } else {
                app.queue_action(
                    ActionRequest::ValidateAndStoreToken { platform, token },
                    SettingsFlowState::ValidatingToken,
                );
            }
        },
        KeyCode::Backspace => {
            pop_char(&mut app.token_input);
        },
        KeyCode::Char(c) => {
            if !key.modifiers.control && !key.modifiers.alt {
                push_char(&mut app.token_input, c);
            }
        },
        _ => {},
    }
}

fn handle_provider_actions(app: &mut App, key: KeyEvent)
    requires
        old(app).settings_flow == SettingsFlowState::ProviderActions,
    ensures
        settings_frame(*old(app), *final(app)),
        provider_step(*old(app), *final(app), key),
{
    match key.code {
        KeyCode::Esc => {
            app.settings_flow = SettingsFlowState::Idle;
            app.onboarding.reset();
        },
        KeyCode::Char('j') | KeyCode::Down => {
            app.onboarding.platform_cursor = if app.onboarding.platform_cursor >= 2 {
                2
            } else {
                app.onboarding.platform_cursor + 1
            };
        },
        KeyCode::Char('k') | KeyCode::Up => {
            if app.onboarding.platform_cursor > 0 {
                app.onboarding.platform_cursor = app.onboarding.platform_cursor - 1;
            }
        },
        KeyCode::Char(' ') => {
            let idx: usize = if app.onboarding.platform_cursor < 2 { app.onboarding.platform_cursor } else { 2 };
            if idx < app.onboarding.platform_selected.len() {
                let v = app.onboarding.platform_selected[idx];
                app.onboarding.platform_selected.set(idx, !v);
            }
        },
        KeyCode::Enter => {
            let platforms = app.onboarding.selected_platforms();
            if platforms.len() == 0 {
                app.settings_message = Some(owned("select at least one provider"));
            } else {
                app.queue_action(ActionRequest::Discover { platforms }, SettingsFlowState::DiscoveryScanning);
            }
        },
        _ => {},
    }
}

fn handle_resource_selection(app: &mut App, key: KeyEvent)
    requires
        old(app).settings_flow == SettingsFlowState::ResourceSelection,
    ensures
        settings_frame(*old(app), *final(app)),
        resource_step(*old(app), *final(app), key),
{
    match key.code {
        KeyCode::Esc => {
            app.settings_flow = SettingsFlowState::Idle;
            app.onboarding.reset();
        },
        KeyCode::Char('j') | KeyCode::Down => {
            app.onboarding.resource_cursor = app.onboarding.resource_cursor.saturating_add(1);
            app.onboarding.clamp_resource_cursor();
        },
        KeyCode::Char('k') | KeyCode::Up => {
            app.onboarding.resource_cursor = app.onboarding.resource_cursor.saturating_sub(1);
        },
        KeyCode::Char(' ') => {
            let cursor = app.onboarding.resource_cursor;
            app.onboarding.toggle_resource(cursor);
        },
        KeyCode::Enter => {
            if app.onboarding.selected_count() == 0 {
                app.settings_message = Some(owned("select at least one resource"));
            } else {
                let discovery = app.onboarding.selected_discovery();
                app.queue_action(ActionRequest::BuildCorrelationPreview { discovery }, SettingsFlowState::Applying);
            }
        },
        _ => {},
    }
}

fn handle_correlation_review(app: &mut App, key: KeyEvent)
    requires
        old(app).settings_flow == SettingsFlowState::CorrelationReview,
    ensures
        settings_frame(*old(app), *final(app)),
        review_step(*old(app), *final(app), key),
{
    match key.code {
        KeyCode::Esc => {
            app.settings_flow = SettingsFlowState::ResourceSelection;
        },
        KeyCode::Enter => {
            let discovery = app.onboarding.selected_discovery();
            app.queue_action(ActionRequest::ApplyCorrelations { discovery }, SettingsFlowState::Applying);
        },
        _ => {},
    }
}

#[verifier::rlimit(60)]
fn handle_settings_rest(app: &mut App, key: KeyEvent)
    requires
        old(app).settings_flow == SettingsFlowState::Idle || old(app).settings_flow
            == SettingsFlowState::ValidationResult,
    ensures
        settings_frame(*old(app), *final(app)),
        rest_step(*old(app), *final(app), key),
{
    match key.code {
        KeyCode::Esc => {
            app.settings_flow = SettingsFlowState::Idle;
            app.onboarding.reset();
        },
        KeyCode::Enter | KeyCode::Char('o') => {
            app.settings_flow = SettingsFlowState::ProviderActions;
            app.onboarding.reset();
        },
        KeyCode::Char('t') => {
            if app.selected_token_from_env() {
                app.settings_message = Some(owned("env token is active; unset env var or press T to store override"));
            } else {
                app.settings_flow = SettingsFlowState::TokenEntry;
                app.token_input = String::new();
            }
        },
        KeyCode::Char('T') => {
            app.settings_flow = SettingsFlowState::TokenEntry;
            app.token_input = String::new();
            if app.selected_token_from_env() {
                app.settings_message = Some(owned("stored override can be saved; env token stays active until unset"));
            }
        },
        KeyCode::Char('x') => {
            if app.selected_token_from_env() {
                app.settings_message = Some(owned("cannot remove env token; unset it in shell"));
            } else {
                let platform = app.selected_settings_platform();
                app.queue_action(ActionRequest::RemoveToken { platform }, SettingsFlowState::Applying);
            }
        },
        KeyCode::Char('v') => {
            let platform = app.selected_settings_platform();
            app.queue_action(ActionRequest::ValidatePlatform { platform }, SettingsFlowState::Applying);
        },
        _ => {},
    }
}

/// Offer the key to the settings tab; `true` when it took it.
fn handle_settings_mode(app: &mut App, key: KeyEvent) -> (r: bool)
    ensures
        r == settings_handles(*old(app), key),
        settings_step(*old(app), *final(app), key),
{
    match app.settings_flow {
        SettingsFlowState::TokenEntry => {
            handle_token_entry(app, key);
            true
        },
        SettingsFlowState::ProviderActions => {
            handle_provider_actions(app, key);
            true
        },
        SettingsFlowState::ResourceSelection => {
            handle_resource_selection(app, key);
            true
        },
        SettingsFlowState::CorrelationReview => {
            handle_correlation_review(app, key);
            true
        },
        SettingsFlowState::ValidatingToken
        | SettingsFlowState::DiscoveryScanning
        | SettingsFlowState::Applying => true,
        SettingsFlowState::Idle | SettingsFlowState::ValidationResult => {
            let handled = match key.code {
                KeyCode::Esc | KeyCode::Enter => true,
                KeyCode::Char(c) => c == 't' || c == 'T' || c == 'x' || c == 'v' || c == 'o',
                _ => false,
            };
            handle_settings_rest(app, key);
            handled
        },
    }
}

// ---------------------------------------------------------------- details

/// Whether the open GitHub details pane takes the key.
pub open spec fn details_handles(a: App, key: KeyEvent) -> bool {
    &&& a.spec_details_active()
    &&& {
        ||| key.code == KeyCode::Esc
        ||| key.code == KeyCode::Right
        ||| key.code == KeyCode::Left
        ||| key.code == KeyCode::Enter
        ||| is_char(key, 'd')
        ||| is_down(key)
        ||| is_up(key)
        ||| key.code == KeyCode::PageDown
        ||| key.code == KeyCode::PageUp
        ||| (is_char(key, 'u') && key.modifiers.control)
    }
}

pub open spec fn pane_has_focus(a: App) -> bool {
    a.platform_details_mode is Some && a.platform_details_mode->0.focus == DetailsFocus::RightPanel
}

/// A key in the details pane: Esc closes it; Right and Enter open the
/// line under the cursor; Left goes back; d toggles the pane; j/k move
/// the tree cursor (or scroll the pane when it has the keyboard); PageDown
/// and PageUp scroll the pane by 20 lines, Ctrl-d and Ctrl-u by 10, and
/// give it the keyboard.
pub open spec fn details_step(a: App, b: App, key: KeyEvent) -> bool {
    let o = a.platform_details_mode;
    let n = b.platform_details_mode;
    if key.code == KeyCode::Char('d') && !key.modifiers.control {
        (a.platform_subtab != PlatformSubtab::GitHub ==> b == a) && (a.platform_subtab == PlatformSubtab::GitHub
            ==> crate::app::same_but_details(a, b) && toggle_rel(a, n))
    } else {
        &&& crate::app::same_but_details(a, b)
        &&& if key.code == KeyCode::Esc {
            n is None
        } else if key.code == KeyCode::Right || key.code == KeyCode::Enter {
            open_rel(a.data.events@, o, n)
        } else if key.code == KeyCode::Left {
            left_rel(a.data.events@, o, n)
        } else if is_down(key) {
            n == if pane_has_focus(a) { scrolled_by(o, 1) } else { moved_by(o, 1) }
        } else if is_up(key) {
            n == if pane_has_focus(a) { scrolled_by(o, -1) } else { moved_by(o, -1) }
        } else if key.code == KeyCode::PageDown {
            n == focused_right(scrolled_by(o, 20))
        } else if key.code == KeyCode::PageUp {
            n == focused_right(scrolled_by(o, -20))
        } else if is_char(key, 'd') {
            n == focused_right(scrolled_by(o, 10))
        } else {
            n == focused_right(scrolled_by(o, -10))
        }
    }
}

/// Offer the key to the details pane; `true` when it took it.
fn handle_platform_details_mode(app: &mut App, key: KeyEvent) -> (r: bool)
    ensures
        r == details_handles(*old(app), key),
        r ==> details_step(*old(app), *final(app), key),
        !r ==> *final(app) == *old(app),
{
    if !app.platform_details_active() {
        return false;
    }
    match key.code {
        KeyCode::Esc => {
            app.close_platform_details_mode();
            true
        },
        KeyCode::Right | KeyCode::Enter => {
            app.details_toggle_or_open_right();
            true
        },
        KeyCode::Left => {
            app.details_left_action();
            true
        },
        KeyCode::Char('j') | KeyCode::Down => {
            if app.details_current_focus() == Some(DetailsFocus::RightPanel) {
                app.details_scroll_right(1);
            } else {
                app.details_move_tree_cursor(1);
            }
            true
        },
        KeyCode::Char('k') | KeyCode::Up => {
            if app.details_current_focus() == Some(DetailsFocus::RightPanel) {
                app.details_scroll_right(-1);
            } else {
                app.details_move_tree_cursor(-1);
            }
            true
        },
        KeyCode::PageDown => {
            app.details_scroll_right(20);
            app.details_focus_right();
            true
        },
        KeyCode::PageUp => {
            app.details_scroll_right(-20);
            app.details_focus_right();
            true
        },
        KeyCode::Char('d') => {
            if !key.modifiers.control {
                app.toggle_platform_logs_panel();
            } else {
                app.details_scroll_right(10);
                app.details_focus_right();
            }
            true
        },
        KeyCode::Char('u') => {
            if key.modifiers.control {
                app.details_scroll_right(-10);
                app.details_focus_right();
                true
            } else {
                false
            }
        },
        _ => false,
    }
}

// ---------------------------------------------------------- platform tab

pub open spec fn platform_nav_key(key: KeyEvent) -> bool {
    ||| key.code == KeyCode::Left
    ||| key.code == KeyCode::Right
    ||| is_char(key, 'g')
    ||| is_char(key, 'w')
    ||| is_char(key, 'v')
    ||| is_char(key, 'd')
    ||| key.code == KeyCode::Enter
}

/// The dashboard on subtab `s`: a different subtab closes the details and
/// selects the first row.
pub open spec fn on_subtab(a: App, b: App, s: PlatformSubtab) -> bool {
    if a.platform_subtab == s {
        b == a
    } else {
        &&& b.platform_subtab == s
        &&& b.platform_details_mode is None
        &&& b.selected_row == 0
        &&& b.active_tab == a.active_tab
        &&& same_outside_nav(a, b)
    }
}

/// A Platform-tab key with the details pane closed: Left and Right cycle
/// the subtabs, g, w and v pick GitHub, Railway and Vercel, d and Enter
/// toggle the GitHub details pane.
pub open spec fn platform_nav_step(a: App, b: App, key: KeyEvent) -> bool {
    if key.code == KeyCode::Left {
        on_subtab(a, b, a.platform_subtab.spec_prev())
    } else if key.code == KeyCode::Right {
        on_subtab(a, b, a.platform_subtab.spec_next())
    } else if is_char(key, 'g') {
        on_subtab(a, b, PlatformSubtab::GitHub)
    } else if is_char(key, 'w') {
        on_subtab(a, b, PlatformSubtab::Railway)
    } else if is_char(key, 'v') {
        on_subtab(a, b, PlatformSubtab::Vercel)
    } else if a.platform_subtab == PlatformSubtab::GitHub {
        crate::app::same_but_details(a, b) && toggle_rel(a, b.platform_details_mode)
    } else {
        b == a
    }
}

fn handle_platform_nav(app: &mut App, key: KeyEvent) -> (r: bool)
    ensures
        r == platform_nav_key(key),
        r ==> platform_nav_step(*old(app), *final(app), key),
        !r ==> *final(app) == *old(app),
{
    match key.code {
        KeyCode::Left => {
            let s = app.platform_subtab.prev();
            app.set_platform_subtab(s);
            true
        },
        KeyCode::Right => {
            let s = app.platform_subtab.next();
            app.set_platform_subtab(s);
            true
        },
        KeyCode::Char('g') => {
            app.set_platform_subtab(PlatformSubtab::GitHub);
            true
        },
        KeyCode::Char('w') => {
            app.set_platform_subtab(PlatformSubtab::Railway);
            true
        },
        KeyCode::Char('v') => {
            app.set_platform_subtab(PlatformSubtab::Vercel);
            true
        },
        KeyCode::Char('d') | KeyCode::Enter => {
            if app.platform_subtab == PlatformSubtab::GitHub {
                app.toggle_platform_logs_panel();
            }
            true
        },
        _ => false,
    }
}

// ------------------------------------------------------------ other keys

/// The selected log record's message, when the Logs tab has one.
pub open spec fn selected_message(a: App) -> Option<Seq<char>> {
    let rows = admitted(a.log_buffer@, a.log_filter);
    if rows.len() == 0 {
        None
    } else {
        Some(rows[pick(a.selected_row, rows.len())].message@)
    }
}

/// `b` is `a` with one more record logged at `level` by the key handler
/// with message `m`.
pub open spec fn logged(a: App, b: App, level: Level, m: Seq<char>) -> bool {
    let e = b.log_buffer@.last();
    &&& b == App { log_buffer: b.log_buffer, ..a }
    &&& b.log_buffer@ == kept(a.log_buffer@.push(e))
    &&& e.level == level
    &&& e.target@ == "pulsos_cli::tui::keys"@
    &&& e.message@ == m
}

/// A key handled the same on every tab: q and Ctrl-c quit; j/k move the
/// selection within the rows; 1-5 pick a tab and Tab/BackTab cycle them
/// (first row; leaving the Platform tab closes its details); on Logs, f
/// cycles the level filter and c copies the selected message; on Unified,
/// s cycles the sort; r refreshes; / starts a search.
pub open spec fn general_step(a: App, b: App, key: KeyEvent, act: KeyAction) -> bool {
    let copy_key = is_char(key, 'c') && a.active_tab == Tab::Logs && !key.modifiers.control && !key.modifiers.alt;
    &&& (!copy_key ==> act is Nothing)
    &&& if is_char(key, 'q') || (is_char(key, 'c') && key.modifiers.control) {
        b == App { should_quit: true, ..a }
    } else if is_down(key) {
        let c = a.spec_row_count();
        b == App {
            selected_row: if c > 0 && a.selected_row < c - 1 { (a.selected_row + 1) as usize } else { a.selected_row },
            ..a
        }
    } else if is_up(key) {
        b == App { selected_row: if a.selected_row > 0 { (a.selected_row - 1) as usize } else { 0 }, ..a }
    } else if is_char(key, '1') {
        b == App { active_tab: Tab::Unified, selected_row: 0, platform_details_mode: None, ..a }
    } else if is_char(key, '2') {
        b == App { active_tab: Tab::Platform, selected_row: 0, ..a }
    } else if is_char(key, '3') {
        b == App { active_tab: Tab::Health, selected_row: 0, platform_details_mode: None, ..a }
    } else if is_char(key, '4') {
        b == App { active_tab: Tab::Settings, selected_row: 0, platform_details_mode: None, ..a }
    } else if is_char(key, '5') {
        b == App { active_tab: Tab::Logs, selected_row: 0, platform_details_mode: None, ..a }
    } else if key.code == KeyCode::Tab || key.code == KeyCode::BackTab {
        let t = if key.code == KeyCode::Tab { a.active_tab.spec_next() } else { a.active_tab.spec_prev() };
        b == App {
            active_tab: t,
            selected_row: 0,
            platform_details_mode: if t != Tab::Platform { None } else { a.platform_details_mode },
            ..a
        }
    } else if is_char(key, 'f') && a.active_tab == Tab::Logs {
        b == App { log_filter: a.log_filter.spec_next(), selected_row: 0, ..a }
    } else if copy_key {
        match selected_message(a) {
            Some(m) => b == a && (act matches KeyAction::CopyToClipboard(t) && t@ == m),
            None => act is Nothing && logged(a, b, Level::WARN, "copy failed: no log entry selected"@),
        }
    } else if is_char(key, 's') && a.active_tab == Tab::Unified {
        b == App { unified_sort: a.unified_sort.spec_next(), selected_row: 0, ..a }
    } else if is_char(key, 'r') {
        b == App { force_refresh: true, ..a }
    } else if is_char(key, '/') {
        b == App { input_mode: InputMode::Search, search_query: b.search_query, ..a } && b.search_query@.len() == 0
    } else {
        b == a
    }
}

fn log_key_event(app: &mut App, level: Level, message: String)
    ensures
        logged(*old(app), *final(app), level, message@),
{
    let entry = LogEntry { timestamp: now_millis(), level, target: owned("pulsos_cli::tui::keys"), message };
    app.log_buffer.push(entry);
    proof {
        crate::log_buffer::ring_keeps_latest(old(app).log_buffer@, entry);
    }
}

fn switch_tab(app: &mut App, tab: Tab, close_details: bool)
    ensures
        *final(app) == (App {
            active_tab: tab,
            selected_row: 0,
            platform_details_mode: if close_details { None } else { old(app).platform_details_mode },
            ..*old(app)
        }),
{
    app.active_tab = tab;
    app.selected_row = 0;
    if close_details {
        app.close_platform_details_mode();
    }
    app.clamp_selection();
}

fn select_next_row(app: &mut App)
    ensures
        ({
            let c = old(app).spec_row_count();
            *final(app) == (App {
                selected_row: if c > 0 && old(app).selected_row < c - 1 {
                    (old(app).selected_row + 1) as usize
                } else {
                    old(app).selected_row
                },
                ..*old(app)
            })
        }),
{
    let count = app.row_count();
    if count > 0 && app.selected_row < count - 1 {
        app.selected_row = app.selected_row + 1;
    }
}

fn copy_selected(app: &mut App) -> (act: KeyAction)
    ensures
        match selected_message(*old(app)) {
            Some(m) => *final(app) == *old(app) && (act matches KeyAction::CopyToClipboard(t) && t@ == m),
            None => act is Nothing && logged(*old(app), *final(app), Level::WARN, "copy failed: no log entry selected"@),
        },
{
    match app.selected_log_entry() {
        Some(entry) => KeyAction::CopyToClipboard(entry.message),
        None => {
            log_key_event(app, Level::WARN, owned("copy failed: no log entry selected"));
            KeyAction::Nothing
        },
    }
}

#[verifier::rlimit(60)]
fn handle_general(app: &mut App, key: KeyEvent) -> (act: KeyAction)
    ensures
        general_step(*old(app), *final(app), key, act),
{
    match key.code {
        KeyCode::Char('q') => {
            app.should_quit = true;
            KeyAction::Nothing
        },
        KeyCode::Char('c') if key.modifiers.control => {
            app.should_quit = true;
            KeyAction::Nothing
        },
        KeyCode::Char('j') | KeyCode::Down => {
            select_next_row(app);
            KeyAction::Nothing
        },
        KeyCode::Char('k') | KeyCode::Up => {
            if app.selected_row > 0 {
                app.selected_row = app.selected_row - 1;
            }
            KeyAction::Nothing
        },
        KeyCode::Char('1') => {
            switch_tab(app, Tab::Unified, true);
            KeyAction::Nothing
        },
        KeyCode::Char('2') => {
            switch_tab(app, Tab::Platform, false);
            KeyAction::Nothing
        },
        KeyCode::Char('3') => {
            switch_tab(app, Tab::Health, true);
            KeyAction::Nothing
        },
        KeyCode::Char('4') => {
            switch_tab(app, Tab::Settings, true);
            KeyAction::Nothing
        },
        KeyCode::Char('5') => {
            switch_tab(app, Tab::Logs, true);
            KeyAction::Nothing
        },
        KeyCode::Tab => {
            let t = app.active_tab.next();
            switch_tab(app, t, t != Tab::Platform);
            KeyAction::Nothing
        },
        KeyCode::BackTab => {
            let t = app.active_tab.prev();
            switch_tab(app, t, t != Tab::Platform);
            KeyAction::Nothing
        },
        KeyCode::Char('f') if app.active_tab == Tab::Logs => {
            app.log_filter = app.log_filter.next();
            app.selected_row = 0;
            KeyAction::Nothing
        },
        KeyCode::Char('c') if app.active_tab == Tab::Logs && !key.modifiers.control && !key.modifiers.alt => {
            copy_selected(app)
        },
        KeyCode::Char('s') if app.active_tab == Tab::Unified => {
            app.unified_sort = app.unified_sort.next();
            app.selected_row = 0;
            KeyAction::Nothing
        },
        KeyCode::Char('r') => {
            app.force_refresh = true;
            KeyAction::Nothing
        },
        KeyCode::Char('/') => {
            app.input_mode = InputMode::Search;
            app.search_query = String::new();
            KeyAction::Nothing
        },
        _ => KeyAction::Nothing,
    }
}

// ------------------------------------------------------------------ keys

/// A key in normal mode: the settings tab, then the open details pane,
/// then the Platform tab's own keys get the first say; every other key
/// does what it does on every tab.
pub open spec fn normal_step(a: App, b: App, key: KeyEvent, act: KeyAction) -> bool {
    if a.active_tab == Tab::Settings && settings_handles(a, key) {
        settings_step(a, b, key) && act is Nothing
    } else if a.active_tab == Tab::Platform && details_handles(a, key) {
        details_step(a, b, key) && act is Nothing
    } else if a.active_tab == Tab::Platform && platform_nav_key(key) {
        platform_nav_step(a, b, key) && act is Nothing
    } else {
        general_step(a, b, key, act)
    }
}

fn handle_normal_mode(app: &mut App, key: KeyEvent) -> (act: KeyAction)
    ensures
        normal_step(*old(app), *final(app), key, act),
{
    if app.active_tab == Tab::Settings {
        if handle_settings_mode(app, key) {
            return KeyAction::Nothing;
        }
    }
    if app.active_tab == Tab::Platform {
        if handle_platform_details_mode(app, key) {
            return KeyAction::Nothing;
        }
        if handle_platform_nav(app, key) {
            return KeyAction::Nothing;
        }
    }
    handle_general(app, key)
}

/// Apply a key press to the dashboard.
pub fn handle_key(app: &mut App, key: KeyEvent) -> (act: KeyAction)
    ensures
        old(app).input_mode == InputMode::Normal ==> normal_step(*old(app), *final(app), key, act),
        old(app).input_mode == InputMode::Search ==> search_step(*old(app), *final(app), key) && act is Nothing,
{
    match app.input_mode {
        InputMode::Normal => handle_normal_mode(app, key),
        InputMode::Search => {
            handle_search_mode(app, key);
            KeyAction::Nothing
        },
    }
}

impl App {
    /// Log how copying the selected message went: `Ok` as a notice,
    /// `Err(reason)` as a warning.
    pub fn record_copy(&mut self, result: Result<(), String>)
        ensures
            match result {
                Ok(()) => logged(*old(self), *final(self), Level::INFO, "copied selected log message to clipboard"@),
                Err(e) => logged(*old(self), *final(self), Level::WARN, "copy failed: "@ + e@),
            },
    {
        match result {
            Ok(()) => log_key_event(self, Level::INFO, owned("copied selected log message to clipboard")),
            Err(e) => {
                let mut m = owned("copy failed: ");
                push_str(&mut m, e.as_str());
                log_key_event(self, Level::WARN, m);
            },
        }
    }
}

/// The selection is on a row, or at 0 when there is none.
pub open spec fn selection_in_rows(a: App) -> bool {
    a.selected_row < a.spec_row_count() || (a.spec_row_count() == 0 && a.selected_row == 0)
}

/// On the Unified, Health and Logs tabs, moving the selection up or down
/// never takes it off the rows.
pub proof fn row_keys_keep_selection_in_rows(a: App, b: App, key: KeyEvent, act: KeyAction)
    requires
        a.active_tab == Tab::Unified || a.active_tab == Tab::Health || a.active_tab == Tab::Logs,
        is_down(key) || is_up(key),
        normal_step(a, b, key, act),
        selection_in_rows(a),
    ensures
        selection_in_rows(b),
        b.active_tab == a.active_tab,
{
}

/// Clamping puts the selection on a row (or at 0 when there is none).
pub proof fn clamp_lands_in_rows(a: App, b: App)
    requires
        b.selected_row == (if a.spec_row_count() == 0 {
            0
        } else if a.selected_row >= a.spec_row_count() {
            (a.spec_row_count() - 1) as usize
        } else {
            a.selected_row
        }),
        crate::app::same_but_row(a, b),
    ensures
        selection_in_rows(b),
{
}

/// While a settings request is in flight (a token being validated,
/// resources being scanned for, a selection being applied), the Settings
/// tab takes every key, even `q`, Esc or Enter, and nothing changes: no
/// action is queued, nothing quits, and the flow stays where it is.
pub proof fn busy_settings_take_every_key(a: App, b: App, key: KeyEvent, act: KeyAction)
    requires
        a.active_tab == Tab::Settings,
        a.settings_flow == SettingsFlowState::ValidatingToken || a.settings_flow == SettingsFlowState::DiscoveryScanning
            || a.settings_flow == SettingsFlowState::Applying,
        normal_step(a, b, key, act),
    ensures
        b == a,
        act is Nothing,
{
}

/// In search mode, typing a character and then Backspace gives back the
/// query as it was.
pub proof fn typing_then_backspace_restores_query(a: App, b: App, c: App, ch: char)
    requires
        search_step(a, b, KeyEvent { code: KeyCode::Char(ch), modifiers: KeyModifiers { control: false, alt: false, shift: false } }),
        search_step(b, c, KeyEvent { code: KeyCode::Backspace, modifiers: KeyModifiers { control: false, alt: false, shift: false } }),
    ensures
        c.search_query@ == a.search_query@,
        c.input_mode == a.input_mode,
{
    assert(a.search_query@.push(ch).drop_last() =~= a.search_query@);
}

/// Tab then BackTab, where neither is taken by the settings flow or the
/// details pane, comes back to the same tab, on its first row.
pub proof fn tab_then_backtab_returns(a: App, b: App, c: App, m: KeyModifiers, act1: KeyAction, act2: KeyAction)
    requires
        general_step(a, b, KeyEvent { code: KeyCode::Tab, modifiers: m }, act1),
        general_step(b, c, KeyEvent { code: KeyCode::BackTab, modifiers: m }, act2),
    ensures
        c.active_tab == a.active_tab,
        c.selected_row == 0,
{
    crate::tabs::tab_cycle(a.active_tab, 0);
    assert(a.active_tab.spec_next().spec_prev() == a.active_tab) by {
        match a.active_tab {
            Tab::Unified => {},
            Tab::Platform => {},
            Tab::Health => {},
            Tab::Settings => {},
            Tab::Logs => {},
        }
    }
}

} // verus!

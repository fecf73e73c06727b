//! The application state machine.
//!
//! Three top-level states (menu, working, logs) with a prompt overlay for
//! entering or editing a log entry. The prompt layer is given first refusal
//! on every key; only when it is inactive does a key reach the outer state
//! machine. Transitions that start or end a work session reset the elapsed
//! counter and, when a webhook destination is configured, demand a
//! notification from the caller through the returned [`Action`].
//!
//! Session logs persist across clock-out/clock-in cycles, as a deliberate
//! policy: a later session may add to the same day's record.

use vstd::prelude::*;

use crate::logs::LogsView;
use crate::logs::SessionLogs;
use crate::timefmt::compact_format;
use crate::timefmt::compact_spec;
use crate::timefmt::verbose_format;
use crate::timefmt::verbose_spec;

verus! {

/// The top-level screen.
#[derive(Clone, Copy, Debug, PartialEq, Eq, Structural)]
pub enum AppState {
    Menu,
    Working,
    Logs,
}

/// The prompt overlay: inactive, entering a new entry, or editing the
/// selected one. While `Edit` is active, the selection made when it was
/// entered stays in place, since every key is consumed by the prompt.
#[derive(Clone, Copy, Debug, PartialEq, Eq, Structural)]
pub enum PromptState {
    NoPrompt,
    Input,
    Edit,
}

/// A decoded key. The caller turns raw keyboard events into these; releases
/// and text-editing keys never reach the machine.
#[derive(Clone, Copy, Debug, PartialEq, Eq, Structural)]
pub enum Key {
    Clock,
    Quit,
    AddLog,
    ViewLogs,
    ViewTime,
    EditLog,
    DeleteLog,
    NavUp,
    NavDown,
    Confirm,
    Cancel,
    Other,
}

/// What the caller must do after a key: nothing, leave the program, send a
/// clock-in or clock-out notification (the latter carries the elapsed
/// seconds of the session that just ended), or seed the prompt buffer with
/// the text to edit.
#[derive(Debug)]
pub enum Action {
    Nothing,
    Quit,
    ClockIn,
    ClockOut(usize),
    StartEdit(String),
}

/// Spec-level picture of an [`Action`].
#[verifier::ext_equal]
pub enum ActionView {
    Nothing,
    Quit,
    ClockIn,
    ClockOut(int),
    StartEdit(Seq<char>),
}

impl View for Action {
    type V = ActionView;

    open spec fn view(&self) -> ActionView {
        match self {
            Action::Nothing => ActionView::Nothing,
            Action::Quit => ActionView::Quit,
            Action::ClockIn => ActionView::ClockIn,
            Action::ClockOut(t) => ActionView::ClockOut(*t as int),
            Action::StartEdit(s) => ActionView::StartEdit(s@),
        }
    }
}

/// Spec-level picture of the whole application.
#[verifier::ext_equal]
pub struct AppView {
    pub state: AppState,
    pub time: int,
    pub logs: LogsView,
    pub prompt: PromptState,
    pub username: Seq<char>,
    pub webhook_url: Seq<char>,
    pub bot_name: Seq<char>,
}

impl AppView {
    /// Well-formedness: the log store is well formed, and an active edit
    /// prompt implies a selection to write back to.
    pub open spec fn wf(self) -> bool {
        &&& self.logs.wf()
        &&& 0 <= self.time <= usize::MAX
        &&& (self.prompt is Edit ==> self.logs.selected is Some)
    }

    /// The view right after construction.
    pub open spec fn init(username: Seq<char>, webhook_url: Seq<char>) -> AppView {
        AppView {
            state: AppState::Menu,
            time: 0,
            logs: LogsView { entries: Seq::empty(), selected: None },
            prompt: PromptState::NoPrompt,
            username: username,
            webhook_url: webhook_url,
            bot_name: "WorkWatch"@,
        }
    }
}

/// The action on clocking in: a notification exactly when a webhook
/// destination is configured.
pub open spec fn clock_in_action(v: AppView) -> ActionView {
    if v.webhook_url.len() == 0 {
        ActionView::Nothing
    } else {
        ActionView::ClockIn
    }
}

/// The action on clocking out: a notification carrying the elapsed seconds,
/// exactly when a webhook destination is configured.
pub open spec fn clock_out_action(v: AppView) -> ActionView {
    if v.webhook_url.len() == 0 {
        ActionView::Nothing
    } else {
        ActionView::ClockOut(v.time)
    }
}

/// One key of the machine: the new view and the demanded action. The prompt
/// layer is checked first; `buffer` is the prompt buffer's content at the
/// moment the key arrived, meaningful only while the prompt is active.
pub open spec fn step(v: AppView, key: Key, buffer: Seq<char>) -> (AppView, ActionView) {
    match v.prompt {
        PromptState::Input => match key {
            Key::Confirm => (
                AppView { logs: v.logs.append(buffer), prompt: PromptState::NoPrompt, ..v },
                ActionView::Nothing,
            ),
            Key::Cancel => (AppView { prompt: PromptState::NoPrompt, ..v }, ActionView::Nothing),
            _ => (v, ActionView::Nothing),
        },
        PromptState::Edit => match key {
            Key::Confirm => (
                AppView {
                    logs: v.logs.overwrite_selected(buffer),
                    prompt: PromptState::NoPrompt,
                    ..v
                },
                ActionView::Nothing,
            ),
            Key::Cancel => (AppView { prompt: PromptState::NoPrompt, ..v }, ActionView::Nothing),
            _ => (v, ActionView::Nothing),
        },
        PromptState::NoPrompt => match v.state {
            AppState::Menu => match key {
                Key::Clock => (
                    AppView { state: AppState::Working, time: 0, ..v },
                    clock_in_action(v),
                ),
                Key::Quit => (v, ActionView::Quit),
                _ => (v, ActionView::Nothing),
            },
            AppState::Working => match key {
                Key::Clock => (
                    AppView { state: AppState::Menu, time: 0, ..v },
                    clock_out_action(v),
                ),
                Key::AddLog => (AppView { prompt: PromptState::Input, ..v }, ActionView::Nothing),
                Key::ViewLogs => (AppView { state: AppState::Logs, ..v }, ActionView::Nothing),
                _ => (v, ActionView::Nothing),
            },
            AppState::Logs => match key {
                Key::ViewTime => (AppView { state: AppState::Working, ..v }, ActionView::Nothing),
                Key::AddLog => (AppView { prompt: PromptState::Input, ..v }, ActionView::Nothing),
                Key::EditLog => if v.logs.selected is Some {
                    (
                        AppView { prompt: PromptState::Edit, ..v },
                        ActionView::StartEdit(v.logs.entries[v.logs.selected->0]),
                    )
                } else {
                    (v, ActionView::Nothing)
                },
                Key::DeleteLog => (
                    AppView { logs: v.logs.delete_selected(), ..v },
                    ActionView::Nothing,
                ),
                Key::Clock => (
                    AppView { state: AppState::Menu, time: 0, ..v },
                    clock_out_action(v),
                ),
                Key::NavUp => (AppView { logs: v.logs.select_up(), ..v }, ActionView::Nothing),
                Key::NavDown => (AppView { logs: v.logs.select_down(), ..v }, ActionView::Nothing),
                _ => (v, ActionView::Nothing),
            },
        },
    }
}

/// One timer tick: while working, the elapsed counter advances by one and
/// saturates at the representable maximum; elsewhere nothing moves.
pub open spec fn tick_spec(v: AppView) -> AppView {
    if v.state is Working {
        AppView {
            time: if v.time == usize::MAX {
                v.time
            } else {
                v.time + 1
            },
            ..v
        }
    } else {
        v
    }
}

/// The application: screen, elapsed seconds, session logs, prompt overlay
/// and the configured identity and webhook destination.
pub struct WorkWatcherApp {
    state: AppState,
    time: usize,
    logs: SessionLogs,
    prompt_state: PromptState,
    username: String,
    webhook_url: String,
    bot_name: String,
}

impl View for WorkWatcherApp {
    type V = AppView;

    closed spec fn view(&self) -> AppView {
        AppView {
            state: self.state,
            time: self.time as int,
            logs: self.logs@,
            prompt: self.prompt_state,
            username: self.username@,
            webhook_url: self.webhook_url@,
            bot_name: self.bot_name@,
        }
    }
}

impl WorkWatcherApp {
    /// A fresh application on the menu screen with a zero counter, no logs
    /// and no prompt. An empty `webhook_url` disables notifications.
    pub fn new(username: String, webhook_url: String) -> (r: Self)
        ensures
            r@ =~= AppView::init(username@, webhook_url@),
            r@.wf(),
    {
        WorkWatcherApp {
            state: AppState::Menu,
            time: 0,
            logs: SessionLogs::new(),
            prompt_state: PromptState::NoPrompt,
            username,
            webhook_url,
            bot_name: String::from_str("WorkWatch"),
        }
    }

    /// Feed one decoded key through the machine: the prompt layer first,
    /// then the screen the application is on. `buffer` is the prompt
    /// buffer's current content; on a confirmed prompt it becomes the new or
    /// replacing log entry.
    pub fn on_key(&mut self, key: Key, buffer: &str) -> (a: Action)
        requires
            old(self)@.wf(),
        ensures
            final(self)@.wf(),
            final(self)@ =~= step(old(self)@, key, buffer@).0,
            a@ =~= step(old(self)@, key, buffer@).1,
    {
        match self.prompt_state {
            PromptState::Input => {
                match key {
                    Key::Confirm => {
                        self.logs.append(String::from_str(buffer));
                        self.prompt_state = PromptState::NoPrompt;
                    },
                    Key::Cancel => {
                        self.prompt_state = PromptState::NoPrompt;
                    },
                    _ => {},
                }
                Action::Nothing
            },
            PromptState::Edit => {
                match key {
                    Key::Confirm => {
                        self.logs.edit_selected(String::from_str(buffer));
                        self.prompt_state = PromptState::NoPrompt;
                    },
                    Key::Cancel => {
                        self.prompt_state = PromptState::NoPrompt;
                    },
                    _ => {},
                }
                Action::Nothing
            },
            PromptState::NoPrompt => match self.state {
                AppState::Menu => match key {
                    Key::Clock => {
                        self.state = AppState::Working;
                        let a = self.notify_clock_in();
                        self.time = 0;
                        a
                    },
                    Key::Quit => Action::Quit,
                    _ => Action::Nothing,
                },
                AppState::Working => match key {
                    Key::Clock => {
                        self.state = AppState::Menu;
                        let a = self.notify_clock_out();
                        self.time = 0;
                        a
                    },
                    Key::AddLog => {
                        self.prompt_state = PromptState::Input;
                        Action::Nothing
                    },
                    Key::ViewLogs => {
                        self.state = AppState::Logs;
                        Action::Nothing
                    },
                    _ => Action::Nothing,
                },
                AppState::Logs => match key {
                    Key::ViewTime => {
                        self.state = AppState::Working;
                        Action::Nothing
                    },
                    Key::AddLog => {
                        self.prompt_state = PromptState::Input;
                        Action::Nothing
                    },
                    Key::EditLog => {
                        match self.logs.selected_index() {
                            Some(i) => {
                                let text = self.logs.entry_at(i).clone();
                                self.prompt_state = PromptState::Edit;
                                Action::StartEdit(text)
                            },
                            None => Action::Nothing,
                        }
                    },
                    Key::DeleteLog => {
                        self.logs.delete_selected();
                        Action::Nothing
                    },
                    Key::Clock => {
                        self.state = AppState::Menu;
                        let a = self.notify_clock_out();
                        self.time = 0;
                        a
                    },
                    Key::NavUp => {
                        self.logs.select_up();
                        Action::Nothing
                    },
                    Key::NavDown => {
                        self.logs.select_down();
                        Action::Nothing
                    },
                    _ => Action::Nothing,
                },
            },
        }
    }

    /// One timer tick; the caller invokes this when the poll for a key timed
    /// out.
    pub fn tick(&mut self)
        requires
            old(self)@.wf(),
        ensures
            final(self)@.wf(),
            final(self)@ =~= tick_spec(old(self)@),
    {
        if let AppState::Working = self.state {
            if self.time < usize::MAX {
                self.time = self.time + 1;
            }
        }
    }

    fn notify_clock_in(&self) -> (a: Action)
        ensures
            a@ =~= clock_in_action(self@),
    {
        if self.webhook_url.as_str().is_empty() {
            Action::Nothing
        } else {
            Action::ClockIn
        }
    }

    fn notify_clock_out(&self) -> (a: Action)
        ensures
            a@ =~= clock_out_action(self@),
    {
        if self.webhook_url.as_str().is_empty() {
            Action::Nothing
        } else {
            Action::ClockOut(self.time)
        }
    }

    /// The screen the application is on.
    pub fn state(&self) -> (s: AppState)
        ensures
            s == self@.state,
    {
        self.state
    }

    /// The elapsed seconds of the running session.
    pub fn time(&self) -> (t: usize)
        ensures
            t as int == self@.time,
    {
        self.time
    }

    /// The prompt overlay's state.
    pub fn prompt(&self) -> (p: PromptState)
        ensures
            p == self@.prompt,
    {
        self.prompt_state
    }

    /// The configured display name.
    pub fn username(&self) -> (r: &String)
        ensures
            r@ == self@.username,
    {
        &self.username
    }

    /// The configured webhook destination; empty means disabled.
    pub fn webhook_url(&self) -> (r: &String)
        ensures
            r@ == self@.webhook_url,
    {
        &self.webhook_url
    }

    /// The name the notifications are posted under.
    pub fn bot_name(&self) -> (r: &String)
        ensures
            r@ == self@.bot_name,
    {
        &self.bot_name
    }

    /// The session log store.
    pub fn logs(&self) -> (r: &SessionLogs)
        ensures
            r@ =~= self@.logs,
    {
        &self.logs
    }

    /// The elapsed time of the running session, compactly formatted.
    pub fn get_compact_time(&self) -> (r: String)
        ensures
            r@ == compact_spec(self@.time as nat),
    {
        compact_format(self.time)
    }

    /// The elapsed time of the running session, verbosely formatted.
    pub fn get_verbose_time(&self) -> (r: String)
        ensures
            r@ == verbose_spec(self@.time as nat),
    {
        verbose_format(self.time)
    }
}

/// Clocking in or out resets the elapsed counter to zero whatever its prior
/// value: from any screen with no prompt active, the clock key leaves the
/// counter at zero.
pub proof fn lemma_clock_resets_timer(v: AppView, buffer: Seq<char>)
    requires
        v.wf(),
        v.prompt is NoPrompt,
    ensures
        step(v, Key::Clock, buffer).0.time == 0,
{
}

/// Cancelling an active prompt, whether it was entering or editing, leaves
/// the log entries and the selection exactly as they were before.
pub proof fn lemma_cancel_preserves_logs(v: AppView, buffer: Seq<char>)
    requires
        v.wf(),
        v.prompt is Input || v.prompt is Edit,
    ensures
        step(v, Key::Cancel, buffer).0.logs == v.logs,
        step(v, Key::Cancel, buffer).0.prompt is NoPrompt,
{
}

/// With an empty webhook destination, no key ever demands a dispatch: the
/// returned action is never a clock-in or clock-out notification.
pub proof fn lemma_no_dispatch_unconfigured(v: AppView, key: Key, buffer: Seq<char>)
    requires
        v.wf(),
        v.webhook_url.len() == 0,
    ensures
        !(step(v, key, buffer).1 is ClockIn),
        !(step(v, key, buffer).1 is ClockOut),
{
}

} // verus!

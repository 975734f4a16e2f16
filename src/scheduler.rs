use vstd::prelude::*;
use crate::app::{App, AppView, CurrentScreen, FetchRequest};
use crate::option_list::ListView;
use crate::keymaps::{
    confirms_exit, exit_screen_keymaps, exit_screen_step, log_details_keymaps, log_details_step,
    main_screen_keymaps, main_screen_step, setting_config_keymaps, setting_config_step, Key,
};

verus! {

/// The fixed interval between two loader runs, in milliseconds.
pub const TICK_RATE_MS: u64 = 250;

/// What the input source reported about a key.
#[derive(PartialEq, Eq, Structural, Clone, Copy, Debug)]
pub enum KeyKind {
    Press,
    Repeat,
    Release,
}

/// The handling of `k` by the handler of the current screen.
pub open spec fn screen_step(v: AppView, k: Key) -> AppView {
    match v.current_screen {
        CurrentScreen::Main => main_screen_step(v, k),
        CurrentScreen::Exiting => exit_screen_step(v, k),
        CurrentScreen::LogDetails(_) => log_details_step(v, k),
        CurrentScreen::SettingConfig => setting_config_step(v, k),
    }
}

/// Whether `k` ends the application in state `v`.
pub open spec fn ends_session(v: AppView, k: Key) -> bool {
    v.current_screen == CurrentScreen::Exiting && confirms_exit(k)
}

/// Hands `key` to the handler of the current screen; tells whether the user confirmed
/// the exit.
pub fn dispatch_key(key: Key, app: &mut App) -> (exit: bool)
    requires
        old(app)@.wf(),
    ensures
        final(app)@ == screen_step(old(app)@, key),
        exit == ends_session(old(app)@, key),
        final(app)@.wf(),
{
    match app.current_screen {
        CurrentScreen::Main => {
            main_screen_keymaps(key, app);
            false
        },
        CurrentScreen::Exiting => exit_screen_keymaps(key, app),
        CurrentScreen::LogDetails(_) => {
            log_details_keymaps(key, app);
            false
        },
        CurrentScreen::SettingConfig => {
            setting_config_keymaps(key, app);
            false
        },
    }
}

/// How long to wait for input when `elapsed_ms` of the current tick have passed: the
/// rest of the tick, or nothing once it is over.
pub fn poll_timeout(elapsed_ms: u64) -> (r: u64)
    ensures
        r == (if elapsed_ms < TICK_RATE_MS {
            TICK_RATE_MS - elapsed_ms
        } else {
            0
        }),
{
    if elapsed_ms < TICK_RATE_MS {
        TICK_RATE_MS - elapsed_ms
    } else {
        0
    }
}

/// Whether the tick is over after `elapsed_ms`, so that the loader runs.
pub fn tick_due(elapsed_ms: u64) -> (r: bool)
    ensures
        r == (elapsed_ms >= TICK_RATE_MS),
{
    elapsed_ms >= TICK_RATE_MS
}

/// The loop's redraw bookkeeping.
pub struct Scheduler {
    /// Whether the frame on screen is stale.
    pub dirty: bool,
}

impl Scheduler {
    /// A scheduler whose first iteration draws.
    pub fn new() -> (r: Scheduler)
        ensures
            r.dirty,
    {
        Scheduler { dirty: true }
    }

    /// Takes a key event from the input source. Releases are dropped and change nothing;
    /// anything else goes to the current screen's handler and makes the frame stale.
    /// Tells whether the user confirmed the exit.
    pub fn on_key(&mut self, app: &mut App, key: Key, kind: KeyKind) -> (exit: bool)
        requires
            old(app)@.wf(),
        ensures
            kind == KeyKind::Release ==> final(app)@ == old(app)@ && final(self).dirty
                == old(self).dirty && !exit,
            kind != KeyKind::Release ==> final(app)@ == screen_step(old(app)@, key)
                && final(self).dirty && exit == ends_session(old(app)@, key),
            final(app)@.wf(),
    {
        if kind == KeyKind::Release {
            return false;
        }
        let exit = dispatch_key(key, app);
        self.dirty = true;
        exit
    }

    /// Runs the loader for a tick that is over and makes the frame stale; tells which
    /// fetch the caller is to make.
    pub fn on_tick(&mut self, app: &mut App) -> (r: Option<FetchRequest>)
        requires
            old(app)@.wf(),
        ensures
            final(app)@ == old(app)@.invalidated(),
            r == final(app)@.wanted(),
            final(self).dirty,
            final(app)@.wf(),
    {
        let r = app.on_tick();
        self.dirty = true;
        r
    }

    /// Whether to draw now; the frame counts as fresh afterwards.
    pub fn take_redraw(&mut self) -> (draw: bool)
        ensures
            draw == old(self).dirty,
            !final(self).dirty,
    {
        let draw = self.dirty;
        self.dirty = false;
        draw
    }
}

/// Opening the configuration from the main screen leaves, by the end of the next tick,
/// an empty event log, and the fetch that tick asks for is decided on that emptied state.
pub proof fn lemma_configuring_drops_log(v: AppView)
    requires
        v.wf(),
        v.current_screen == CurrentScreen::Main,
    ensures
        ({
            let t = screen_step(v, Key::Char('c')).invalidated();
            &&& t.service_events == ListView::empty()
            &&& t.wanted() == (if t.profiles.items.len() == 0 {
                Some(FetchRequest::Profiles)
            } else {
                None
            })
        }),
{
    assert(v.service_events.items.len() == 0 ==> v.service_events.items =~= Seq::empty());
}

/// While the configuration screen is open, a tick always leaves the event log empty.
pub proof fn lemma_tick_while_configuring_drops_log(v: AppView)
    requires
        v.current_screen == CurrentScreen::SettingConfig,
    ensures
        v.invalidated().service_events.items.len() == 0,
{
}

} // verus!

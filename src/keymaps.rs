use vstd::prelude::*;
use crate::app::{App, AppView, CurrentScreen, ScrollBox, SettingConfig};
use crate::option_list::{ListView, OptionList};

verus! {

/// A key, as the handlers tell keys apart.
#[derive(PartialEq, Eq, Structural, Clone, Copy, Debug)]
pub enum Key {
    Char(char),
    Up,
    Down,
    Enter,
    Esc,
    Tab,
    /// Any other key; no handler acts on it.
    Other,
}

/// The main screen's handling of `k`.
pub open spec fn main_screen_step(v: AppView, k: Key) -> AppView {
    match k {
        Key::Char('c') => AppView {
            current_screen: CurrentScreen::SettingConfig,
            setting_config: Some(SettingConfig::Profile),
            ..v
        },
        Key::Char('q') => AppView { current_screen: CurrentScreen::Exiting, ..v },
        Key::Char('e') => AppView { viewing_logs: !v.viewing_logs, ..v },
        Key::Char('r') => if v.viewing_logs {
            v.without_events()
        } else {
            v
        },
        Key::Down => if v.viewing_logs {
            AppView {
                service_events: v.service_events.advanced(),
                event_box: v.event_box.scrolled_down(v.service_events),
                ..v
            }
        } else {
            v
        },
        Key::Up => if v.viewing_logs {
            AppView {
                service_events: v.service_events.retreated(),
                event_box: v.event_box.scrolled_up(v.service_events),
                ..v
            }
        } else {
            v
        },
        Key::Enter => if v.viewing_logs && v.service_events.selected is Some {
            AppView {
                current_screen: CurrentScreen::LogDetails(v.service_events.selected->0 as usize),
                ..v
            }
        } else {
            v
        },
        _ => v,
    }
}

/// Whether `k` confirms the exit.
pub open spec fn confirms_exit(k: Key) -> bool {
    k == Key::Char('y')
}

/// The exit screen's handling of `k`.
pub open spec fn exit_screen_step(v: AppView, k: Key) -> AppView {
    match k {
        Key::Char('n') | Key::Char('q') | Key::Esc => AppView {
            current_screen: CurrentScreen::Main,
            ..v
        },
        _ => v,
    }
}

/// The log-detail screen's handling of `k`.
pub open spec fn log_details_step(v: AppView, k: Key) -> AppView {
    match k {
        Key::Char('q') | Key::Esc => AppView { current_screen: CurrentScreen::Main, ..v },
        _ => v,
    }
}

/// "Confirm" in the configuration screen: the selection of the active stage's list is
/// committed and everything that depends on it is emptied. Without a selection nothing
/// changes.
pub open spec fn confirmed(v: AppView) -> AppView {
    match v.setting_config {
        Some(SettingConfig::Profile) => match v.profiles.current() {
            Some(p) => AppView {
                profile: p,
                setting_config: Some(SettingConfig::Cluster),
                cluster: Seq::empty(),
                clusters: ListView::empty(),
                cluster_box: ScrollBox::cleared(),
                service: Seq::empty(),
                services: ListView::empty(),
                service_box: ScrollBox::cleared(),
                ..v.without_events()
            },
            None => v,
        },
        Some(SettingConfig::Cluster) => match v.clusters.current() {
            Some(c) => AppView {
                cluster: c,
                setting_config: Some(SettingConfig::Service),
                service: Seq::empty(),
                services: ListView::empty(),
                service_box: ScrollBox::cleared(),
                ..v.without_events()
            },
            None => v,
        },
        Some(SettingConfig::Service) => match v.services.current() {
            Some(s) => AppView {
                service: s,
                current_screen: CurrentScreen::Main,
                setting_config: None,
                ..v.without_events()
            },
            None => v,
        },
        None => v,
    }
}

/// The active stage's list moved one entry down, with its viewport.
pub open spec fn stage_moved_down(v: AppView) -> AppView {
    match v.setting_config {
        Some(SettingConfig::Profile) => AppView {
            profiles: v.profiles.advanced(),
            profile_box: v.profile_box.scrolled_down(v.profiles),
            ..v
        },
        Some(SettingConfig::Cluster) => AppView {
            clusters: v.clusters.advanced(),
            cluster_box: v.cluster_box.scrolled_down(v.clusters),
            ..v
        },
        Some(SettingConfig::Service) => AppView {
            services: v.services.advanced(),
            service_box: v.service_box.scrolled_down(v.services),
            ..v
        },
        None => v,
    }
}

/// The active stage's list moved one entry up, with its viewport.
pub open spec fn stage_moved_up(v: AppView) -> AppView {
    match v.setting_config {
        Some(SettingConfig::Profile) => AppView {
            profiles: v.profiles.retreated(),
            profile_box: v.profile_box.scrolled_up(v.profiles),
            ..v
        },
        Some(SettingConfig::Cluster) => AppView {
            clusters: v.clusters.retreated(),
            cluster_box: v.cluster_box.scrolled_up(v.clusters),
            ..v
        },
        Some(SettingConfig::Service) => AppView {
            services: v.services.retreated(),
            service_box: v.service_box.scrolled_up(v.services),
            ..v
        },
        None => v,
    }
}

/// The configuration screen's handling of `k`.
pub open spec fn setting_config_step(v: AppView, k: Key) -> AppView {
    match k {
        Key::Esc | Key::Char('q') => AppView {
            current_screen: CurrentScreen::Main,
            setting_config: None,
            ..v
        },
        Key::Tab => v.toggled(),
        Key::Enter => confirmed(v),
        Key::Down => stage_moved_down(v),
        Key::Up => stage_moved_up(v),
        _ => v,
    }
}

/// Moves `list` one entry down and its viewport with it.
fn move_down(list: &mut OptionList, scroll: &mut ScrollBox)
    requires
        old(list)@.wf(),
        old(scroll).fits(old(list)@),
    ensures
        final(list)@ == old(list)@.advanced(),
        *final(scroll) == old(scroll).scrolled_down(old(list)@),
        final(list)@.wf(),
        final(scroll).fits(final(list)@),
{
    if list.next() {
        scroll.vertical_scroll = scroll.vertical_scroll + 1;
    }
}

/// Moves `list` one entry up and its viewport with it.
fn move_up(list: &mut OptionList, scroll: &mut ScrollBox)
    requires
        old(list)@.wf(),
        old(scroll).fits(old(list)@),
    ensures
        final(list)@ == old(list)@.retreated(),
        *final(scroll) == old(scroll).scrolled_up(old(list)@),
        final(list)@.wf(),
        final(scroll).fits(final(list)@),
{
    if list.previous() && scroll.vertical_scroll > 0 {
        scroll.vertical_scroll = scroll.vertical_scroll - 1;
    }
}

/// Keys of the main screen: open the configuration, quit, focus the log, refresh it,
/// move in it, and open the selected line.
pub fn main_screen_keymaps(key: Key, app: &mut App)
    requires
        old(app)@.wf(),
        old(app)@.current_screen == CurrentScreen::Main,
    ensures
        final(app)@ == main_screen_step(old(app)@, key),
        final(app)@.wf(),
{
    match key {
        Key::Char('c') => {
            app.current_screen = CurrentScreen::SettingConfig;
            app.setting_config = Some(SettingConfig::Profile);
        },
        Key::Char('q') => {
            app.current_screen = CurrentScreen::Exiting;
        },
        Key::Char('e') => {
            app.viewing_logs = !app.viewing_logs;
        },
        Key::Char('r') => {
            if app.viewing_logs {
                app.clear_events();
            }
        },
        Key::Down => {
            if app.viewing_logs {
                move_down(&mut app.service_events, &mut app.event_box);
            }
        },
        Key::Up => {
            if app.viewing_logs {
                move_up(&mut app.service_events, &mut app.event_box);
            }
        },
        Key::Enter => {
            if app.viewing_logs {
                if let Some(i) = app.service_events.selected_index() {
                    app.current_screen = CurrentScreen::LogDetails(i);
                }
            }
        },
        _ => {},
    }
}

/// Keys of the exit screen: tells whether the exit is confirmed; declining returns to
/// the main screen.
pub fn exit_screen_keymaps(key: Key, app: &mut App) -> (exit: bool)
    requires
        old(app)@.wf(),
        old(app)@.current_screen == CurrentScreen::Exiting,
    ensures
        exit == confirms_exit(key),
        final(app)@ == exit_screen_step(old(app)@, key),
        final(app)@.wf(),
{
    match key {
        Key::Char('y') => true,
        Key::Char('n') | Key::Char('q') | Key::Esc => {
            app.current_screen = CurrentScreen::Main;
            false
        },
        _ => false,
    }
}

/// Keys of the log-detail screen: closing returns to the main screen.
pub fn log_details_keymaps(key: Key, app: &mut App)
    requires
        old(app)@.wf(),
        old(app)@.current_screen is LogDetails,
    ensures
        final(app)@ == log_details_step(old(app)@, key),
        final(app)@.wf(),
{
    match key {
        Key::Char('q') | Key::Esc => {
            app.current_screen = CurrentScreen::Main;
        },
        _ => {},
    }
}

/// "Confirm" in the configuration screen.
fn confirm_stage(app: &mut App)
    requires
        old(app)@.wf(),
        old(app)@.current_screen == CurrentScreen::SettingConfig,
    ensures
        final(app)@ == confirmed(old(app)@),
        final(app)@.wf(),
{
    match app.setting_config {
        Some(SettingConfig::Profile) => {
            if let Some(p) = app.profiles.selected() {
                let p = p.clone();
                app.profile = p;
                app.setting_config = Some(SettingConfig::Cluster);
                app.cluster = String::new();
                app.clusters = OptionList::new();
                app.cluster_box = ScrollBox::new();
                app.service = String::new();
                app.services = OptionList::new();
                app.service_box = ScrollBox::new();
                app.clear_events();
            }
        },
        Some(SettingConfig::Cluster) => {
            if let Some(c) = app.clusters.selected() {
                let c = c.clone();
                app.cluster = c;
                app.setting_config = Some(SettingConfig::Service);
                app.service = String::new();
                app.services = OptionList::new();
                app.service_box = ScrollBox::new();
                app.clear_events();
            }
        },
        Some(SettingConfig::Service) => {
            if let Some(s) = app.services.selected() {
                let s = s.clone();
                app.service = s;
                app.current_screen = CurrentScreen::Main;
                app.setting_config = None;
                app.clear_events();
            }
        },
        None => {},
    }
}

/// Keys of the configuration screen: cancel, switch stage, confirm the selection, and
/// move in the active stage's list.
pub fn setting_config_keymaps(key: Key, app: &mut App)
    requires
        old(app)@.wf(),
        old(app)@.current_screen == CurrentScreen::SettingConfig,
    ensures
        final(app)@ == setting_config_step(old(app)@, key),
        final(app)@.wf(),
{
    match key {
        Key::Esc | Key::Char('q') => {
            app.current_screen = CurrentScreen::Main;
            app.setting_config = None;
        },
        Key::Tab => {
            app.toggle_setting();
        },
        Key::Enter => {
            confirm_stage(app);
        },
        Key::Down => {
            match app.setting_config {
                Some(SettingConfig::Profile) => move_down(&mut app.profiles, &mut app.profile_box),
                Some(SettingConfig::Cluster) => move_down(&mut app.clusters, &mut app.cluster_box),
                Some(SettingConfig::Service) => move_down(&mut app.services, &mut app.service_box),
                None => {},
            }
        },
        Key::Up => {
            match app.setting_config {
                Some(SettingConfig::Profile) => move_up(&mut app.profiles, &mut app.profile_box),
                Some(SettingConfig::Cluster) => move_up(&mut app.clusters, &mut app.cluster_box),
                Some(SettingConfig::Service) => move_up(&mut app.services, &mut app.service_box),
                None => {},
            }
        },
        _ => {},
    }
}

/// Committing a profile empties the committed cluster and service, the cluster and
/// service lists, and the event log, whatever they held before, and moves on to the
/// cluster stage.
pub proof fn lemma_profile_commit_resets(v: AppView)
    requires
        v.setting_config == Some(SettingConfig::Profile),
        v.profiles.current() is Some,
    ensures
        ({
            let w = setting_config_step(v, Key::Enter);
            &&& w.profile == v.profiles.current()->0
            &&& w.cluster.len() == 0
            &&& w.service.len() == 0
            &&& w.clusters.items.len() == 0
            &&& w.services.items.len() == 0
            &&& w.service_events.items.len() == 0
            &&& w.setting_config == Some(SettingConfig::Cluster)
        }),
{
}

} // verus!

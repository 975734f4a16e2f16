use lazylogger::keymaps::{
    exit_screen_keymaps, log_details_keymaps, main_screen_keymaps, setting_config_keymaps, Key,
};
use lazylogger::scheduler::dispatch_key;
use lazylogger::{App, CurrentScreen, FetchRequest, SettingConfig};

fn strings(items: &[&str]) -> Vec<String> {
    items.iter().map(|s| s.to_string()).collect()
}

/// Runs one tick and, when it asks for a fetch, hands back `names` for it.
fn tick_with(app: &mut App, names: &[&str]) -> Option<FetchRequest> {
    let req = app.on_tick();
    if let Some(r) = req {
        app.finish_fetch(r, Some(strings(names)));
    }
    req
}

/// An application with `dev` / `web` / `api` committed, back on the main screen.
fn committed_app() -> App {
    let mut app = App::new();
    main_screen_keymaps(Key::Char('c'), &mut app);
    assert_eq!(tick_with(&mut app, &["prod", "dev"]), Some(FetchRequest::Profiles));
    setting_config_keymaps(Key::Enter, &mut app);
    assert_eq!(tick_with(&mut app, &["web"]), Some(FetchRequest::Clusters));
    setting_config_keymaps(Key::Enter, &mut app);
    assert_eq!(tick_with(&mut app, &["api", "worker"]), Some(FetchRequest::Services));
    setting_config_keymaps(Key::Enter, &mut app);
    app
}

#[test]
fn profile_commit_scenario() {
    let mut app = App::new();
    main_screen_keymaps(Key::Char('c'), &mut app);
    assert_eq!(app.current_screen, CurrentScreen::SettingConfig);
    assert_eq!(app.setting_config, Some(SettingConfig::Profile));
    assert_eq!(app.on_tick(), Some(FetchRequest::Profiles));
    app.finish_fetch(FetchRequest::Profiles, Some(strings(&["dev", "prod"])));
    assert_eq!(app.profiles.items, strings(&["dev", "prod"]));
    assert_eq!(app.profiles.selected_index(), Some(0));
    assert_eq!(app.profiles.selected().map(|s| s.as_str()), Some("dev"));
    setting_config_keymaps(Key::Enter, &mut app);
    assert_eq!(app.profile, "dev");
    assert_eq!(app.setting_config, Some(SettingConfig::Cluster));
    assert!(app.clusters.is_empty());
    assert!(app.services.is_empty());
    assert!(app.service_events.is_empty());
    assert_eq!(app.cluster, "");
    assert_eq!(app.service, "");
}

#[test]
fn events_land_on_the_last_line() {
    let mut app = committed_app();
    assert_eq!(app.current_screen, CurrentScreen::Main);
    assert_eq!((app.profile.as_str(), app.cluster.as_str(), app.service.as_str()), ("dev", "web", "api"));
    assert!(app.service_events.is_empty());
    assert_eq!(app.on_tick(), Some(FetchRequest::Events));
    app.finish_fetch(FetchRequest::Events, Some(strings(&["[1] one", "[2] two", "[3] three"])));
    assert_eq!(app.service_events.selected_index(), Some(2));
    assert_eq!(app.service_events.items, strings(&["[1] one", "[2] two", "[3] three"]));
    assert_eq!(app.event_box.vertical_scroll, 3);
    assert_eq!(app.event_box.content_length, 3);
    assert_eq!(app.on_tick(), None);
}

#[test]
fn refresh_triggers_one_refetch() {
    let mut app = committed_app();
    tick_with(&mut app, &["a", "b"]);
    assert_eq!(app.service_events.len(), 2);
    main_screen_keymaps(Key::Char('e'), &mut app);
    assert!(app.viewing_logs);
    main_screen_keymaps(Key::Char('r'), &mut app);
    assert!(app.service_events.is_empty());
    assert_eq!(app.on_tick(), Some(FetchRequest::Events));
    assert_eq!((app.profile.as_str(), app.cluster.as_str(), app.service.as_str()), ("dev", "web", "api"));
    app.finish_fetch(FetchRequest::Events, Some(strings(&["c"])));
    assert_eq!(app.on_tick(), None);
}

#[test]
fn refresh_without_log_focus_keeps_the_log() {
    let mut app = committed_app();
    tick_with(&mut app, &["a", "b"]);
    main_screen_keymaps(Key::Char('r'), &mut app);
    assert_eq!(app.service_events.len(), 2);
}

#[test]
fn confirm_without_service_selection_changes_nothing() {
    let mut app = App::new();
    main_screen_keymaps(Key::Char('c'), &mut app);
    tick_with(&mut app, &["dev"]);
    setting_config_keymaps(Key::Enter, &mut app);
    tick_with(&mut app, &["web"]);
    setting_config_keymaps(Key::Enter, &mut app);
    assert_eq!(app.setting_config, Some(SettingConfig::Service));
    app.finish_fetch(FetchRequest::Services, Some(Vec::new()));
    assert!(app.services.is_empty());
    setting_config_keymaps(Key::Enter, &mut app);
    assert_eq!(app.setting_config, Some(SettingConfig::Service));
    assert_eq!(app.current_screen, CurrentScreen::SettingConfig);
    assert_eq!(app.service, "");
    assert_eq!(app.cluster, "web");
}

#[test]
fn recommitting_profile_resets_downstream() {
    let mut app = committed_app();
    tick_with(&mut app, &["line"]);
    main_screen_keymaps(Key::Char('c'), &mut app);
    setting_config_keymaps(Key::Down, &mut app);
    assert_eq!(app.profiles.selected().map(|s| s.as_str()), Some("prod"));
    setting_config_keymaps(Key::Enter, &mut app);
    assert_eq!(app.profile, "prod");
    assert_eq!(app.cluster, "");
    assert_eq!(app.service, "");
    assert!(app.clusters.is_empty());
    assert!(app.services.is_empty());
    assert!(app.service_events.is_empty());
    assert_eq!(app.setting_config, Some(SettingConfig::Cluster));
}

#[test]
fn opening_configuration_clears_log_on_next_tick() {
    let mut app = committed_app();
    tick_with(&mut app, &["x", "y"]);
    main_screen_keymaps(Key::Char('c'), &mut app);
    assert_eq!(app.service_events.len(), 2);
    let req = app.on_tick();
    assert!(app.service_events.is_empty());
    assert_eq!(app.event_box.vertical_scroll, 0);
    assert_eq!(req, None);
}

#[test]
fn three_switches_return_to_profile() {
    let mut app = App::new();
    main_screen_keymaps(Key::Char('c'), &mut app);
    setting_config_keymaps(Key::Tab, &mut app);
    assert_eq!(app.setting_config, Some(SettingConfig::Cluster));
    setting_config_keymaps(Key::Tab, &mut app);
    assert_eq!(app.setting_config, Some(SettingConfig::Service));
    setting_config_keymaps(Key::Tab, &mut app);
    assert_eq!(app.setting_config, Some(SettingConfig::Profile));
    app.toggle_setting();
    assert_eq!(app.setting_config, Some(SettingConfig::Cluster));
}

#[test]
fn cancel_keeps_committed_choices() {
    let mut app = committed_app();
    main_screen_keymaps(Key::Char('c'), &mut app);
    setting_config_keymaps(Key::Esc, &mut app);
    assert_eq!(app.current_screen, CurrentScreen::Main);
    assert_eq!(app.setting_config, None);
    assert_eq!(app.service, "api");
    main_screen_keymaps(Key::Char('c'), &mut app);
    setting_config_keymaps(Key::Char('q'), &mut app);
    assert_eq!(app.current_screen, CurrentScreen::Main);
}

#[test]
fn fetch_for_cluster_waits_for_profile() {
    let mut app = App::new();
    main_screen_keymaps(Key::Char('c'), &mut app);
    setting_config_keymaps(Key::Tab, &mut app);
    assert_eq!(app.on_tick(), None);
    app.finish_fetch(FetchRequest::Clusters, Some(strings(&["web"])));
    assert!(app.clusters.is_empty());
}

#[test]
fn failed_fetch_is_retried_next_tick() {
    let mut app = App::new();
    main_screen_keymaps(Key::Char('c'), &mut app);
    assert_eq!(app.on_tick(), Some(FetchRequest::Profiles));
    app.finish_fetch(FetchRequest::Profiles, None);
    assert!(app.profiles.is_empty());
    assert_eq!(app.on_tick(), Some(FetchRequest::Profiles));
}

#[test]
fn fetched_names_are_sorted() {
    let mut app = App::new();
    main_screen_keymaps(Key::Char('c'), &mut app);
    tick_with(&mut app, &["zeta", "alpha", "mid"]);
    assert_eq!(app.profiles.items, strings(&["alpha", "mid", "zeta"]));
    assert_eq!(app.profile_box.content_length, 3);
    assert_eq!(app.profile_box.vertical_scroll, 0);
}

#[test]
fn stage_navigation_moves_scroll_only_on_change() {
    let mut app = App::new();
    main_screen_keymaps(Key::Char('c'), &mut app);
    tick_with(&mut app, &["a", "b"]);
    setting_config_keymaps(Key::Down, &mut app);
    assert_eq!(app.profiles.selected_index(), Some(1));
    assert_eq!(app.profile_box.vertical_scroll, 1);
    setting_config_keymaps(Key::Down, &mut app);
    assert_eq!(app.profiles.selected_index(), Some(1));
    assert_eq!(app.profile_box.vertical_scroll, 1);
    setting_config_keymaps(Key::Up, &mut app);
    setting_config_keymaps(Key::Up, &mut app);
    assert_eq!(app.profiles.selected_index(), Some(0));
    assert_eq!(app.profile_box.vertical_scroll, 0);
}

#[test]
fn log_navigation_and_detail_view() {
    let mut app = committed_app();
    tick_with(&mut app, &["l0", "l1", "l2"]);
    main_screen_keymaps(Key::Up, &mut app);
    assert_eq!(app.service_events.selected_index(), Some(2));
    main_screen_keymaps(Key::Enter, &mut app);
    assert_eq!(app.current_screen, CurrentScreen::Main);
    main_screen_keymaps(Key::Char('e'), &mut app);
    main_screen_keymaps(Key::Up, &mut app);
    assert_eq!(app.service_events.selected_index(), Some(1));
    assert_eq!(app.event_box.vertical_scroll, 2);
    main_screen_keymaps(Key::Down, &mut app);
    main_screen_keymaps(Key::Down, &mut app);
    assert_eq!(app.service_events.selected_index(), Some(2));
    assert_eq!(app.event_box.vertical_scroll, 3);
    main_screen_keymaps(Key::Enter, &mut app);
    assert_eq!(app.current_screen, CurrentScreen::LogDetails(2));
    log_details_keymaps(Key::Char('x'), &mut app);
    assert_eq!(app.current_screen, CurrentScreen::LogDetails(2));
    log_details_keymaps(Key::Esc, &mut app);
    assert_eq!(app.current_screen, CurrentScreen::Main);
}

#[test]
fn exit_screen_confirms_or_declines() {
    let mut app = App::new();
    main_screen_keymaps(Key::Char('q'), &mut app);
    assert_eq!(app.current_screen, CurrentScreen::Exiting);
    assert!(!exit_screen_keymaps(Key::Char('x'), &mut app));
    assert_eq!(app.current_screen, CurrentScreen::Exiting);
    assert!(!exit_screen_keymaps(Key::Char('n'), &mut app));
    assert_eq!(app.current_screen, CurrentScreen::Main);
    main_screen_keymaps(Key::Char('q'), &mut app);
    assert!(!exit_screen_keymaps(Key::Esc, &mut app));
    assert_eq!(app.current_screen, CurrentScreen::Main);
    main_screen_keymaps(Key::Char('q'), &mut app);
    assert!(exit_screen_keymaps(Key::Char('y'), &mut app));
}

#[test]
fn dispatch_follows_current_screen() {
    let mut app = App::new();
    assert!(!dispatch_key(Key::Char('q'), &mut app));
    assert_eq!(app.current_screen, CurrentScreen::Exiting);
    assert!(!dispatch_key(Key::Char('q'), &mut app));
    assert_eq!(app.current_screen, CurrentScreen::Main);
    assert!(!dispatch_key(Key::Char('c'), &mut app));
    assert_eq!(app.current_screen, CurrentScreen::SettingConfig);
    assert!(!dispatch_key(Key::Tab, &mut app));
    assert_eq!(app.setting_config, Some(SettingConfig::Cluster));
    assert!(!dispatch_key(Key::Esc, &mut app));
    assert!(!dispatch_key(Key::Char('q'), &mut app));
    assert!(dispatch_key(Key::Char('y'), &mut app));
}

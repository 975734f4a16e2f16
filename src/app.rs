use vstd::prelude::*;
use crate::names::{lemma_sorted_names_len, sort_names, sorted_names};
use crate::option_list::{names_of, ListView, OptionList};

verus! {

/// The screen being shown.
#[derive(PartialEq, Eq, Structural, Clone, Copy, Debug)]
pub enum CurrentScreen {
    Main,
    SettingConfig,
    Exiting,
    /// The detail view of the log line at this position.
    LogDetails(usize),
}

/// The configuration stage being edited while the configuration screen is open.
#[derive(PartialEq, Eq, Structural, Clone, Copy, Debug)]
pub enum SettingConfig {
    Profile,
    Cluster,
    Service,
}

impl SettingConfig {
    /// The stage that "switch stage" moves to.
    pub open spec fn following(self) -> SettingConfig {
        match self {
            SettingConfig::Profile => SettingConfig::Cluster,
            SettingConfig::Cluster => SettingConfig::Service,
            SettingConfig::Service => SettingConfig::Profile,
        }
    }
}

/// The viewport of a list: the scroll offset and the content length it was sized for.
#[derive(PartialEq, Eq, Structural, Clone, Copy, Debug)]
pub struct ScrollBox {
    pub vertical_scroll: usize,
    pub content_length: usize,
}

pub type ProfileBox = ScrollBox;

pub type ClusterBox = ScrollBox;

pub type ServiceBox = ScrollBox;

pub type EventLogBox = ScrollBox;

impl ScrollBox {
    pub open spec fn cleared() -> ScrollBox {
        ScrollBox { vertical_scroll: 0, content_length: 0 }
    }

    /// A viewport sized for `len` entries and scrolled to `offset`.
    pub open spec fn sized(offset: int, len: int) -> ScrollBox {
        ScrollBox { vertical_scroll: offset as usize, content_length: len as usize }
    }

    /// The viewport agrees with the list: it is sized for it, its offset lies in
    /// `[0, length]`, and it runs at most one entry past the selection.
    pub open spec fn fits(self, l: ListView) -> bool {
        &&& self.content_length == l.items.len()
        &&& self.vertical_scroll <= l.items.len()
        &&& l.selected matches Some(i) ==> self.vertical_scroll <= i + 1
        &&& l.selected is None ==> self.vertical_scroll == 0
    }

    /// The viewport after the list moved down from `l`: one further when the selection moved.
    pub open spec fn scrolled_down(self, l: ListView) -> ScrollBox {
        if l.advanced().selected != l.selected {
            ScrollBox { vertical_scroll: (self.vertical_scroll + 1) as usize, ..self }
        } else {
            self
        }
    }

    /// The viewport after the list moved up from `l`: one back, not below zero, when the
    /// selection moved.
    pub open spec fn scrolled_up(self, l: ListView) -> ScrollBox {
        if l.retreated().selected != l.selected && self.vertical_scroll > 0 {
            ScrollBox { vertical_scroll: (self.vertical_scroll - 1) as usize, ..self }
        } else {
            self
        }
    }

    pub fn new() -> (r: ScrollBox)
        ensures
            r == ScrollBox::cleared(),
    {
        ScrollBox { vertical_scroll: 0, content_length: 0 }
    }
}

/// A fetch that the loader asks the caller to make for the committed choices.
#[derive(PartialEq, Eq, Structural, Clone, Copy, Debug)]
pub enum FetchRequest {
    /// The locally available credential profiles.
    Profiles,
    /// The clusters reachable under the committed profile.
    Clusters,
    /// The services of the committed cluster.
    Services,
    /// The recent log lines of the committed service.
    Events,
}

/// The whole application state.
pub struct App {
    pub profile: String,
    pub profiles: OptionList,
    pub cluster: String,
    pub clusters: OptionList,
    pub service: String,
    pub services: OptionList,
    pub service_events: OptionList,
    pub current_screen: CurrentScreen,
    pub setting_config: Option<SettingConfig>,
    pub profile_box: ProfileBox,
    pub cluster_box: ClusterBox,
    pub service_box: ServiceBox,
    pub event_box: EventLogBox,
    pub viewing_logs: bool,
}

/// The application state as values.
pub struct AppView {
    pub profile: Seq<char>,
    pub profiles: ListView,
    pub cluster: Seq<char>,
    pub clusters: ListView,
    pub service: Seq<char>,
    pub services: ListView,
    pub service_events: ListView,
    pub current_screen: CurrentScreen,
    pub setting_config: Option<SettingConfig>,
    pub profile_box: ScrollBox,
    pub cluster_box: ScrollBox,
    pub service_box: ScrollBox,
    pub event_box: ScrollBox,
    pub viewing_logs: bool,
}

impl View for App {
    type V = AppView;

    open spec fn view(&self) -> AppView {
        AppView {
            profile: self.profile@,
            profiles: self.profiles@,
            cluster: self.cluster@,
            clusters: self.clusters@,
            service: self.service@,
            services: self.services@,
            service_events: self.service_events@,
            current_screen: self.current_screen,
            setting_config: self.setting_config,
            profile_box: self.profile_box,
            cluster_box: self.cluster_box,
            service_box: self.service_box,
            event_box: self.event_box,
            viewing_logs: self.viewing_logs,
        }
    }
}

/// The names a fetch produced, if it succeeded.
pub open spec fn fetched_names(result: Option<Vec<String>>) -> Option<Seq<Seq<char>>> {
    match result {
        Some(v) => Some(names_of(v@)),
        None => None,
    }
}

/// A list of log lines positioned at the newest (last) line.
pub open spec fn tailing(items: Seq<Seq<char>>) -> ListView {
    ListView { items, selected: if items.len() > 0 { Some(items.len() - 1) } else { None } }
}

impl AppView {
    pub open spec fn initial() -> AppView {
        AppView {
            profile: Seq::empty(),
            profiles: ListView::empty(),
            cluster: Seq::empty(),
            clusters: ListView::empty(),
            service: Seq::empty(),
            services: ListView::empty(),
            service_events: ListView::empty(),
            current_screen: CurrentScreen::Main,
            setting_config: None,
            profile_box: ScrollBox::cleared(),
            cluster_box: ScrollBox::cleared(),
            service_box: ScrollBox::cleared(),
            event_box: ScrollBox::cleared(),
            viewing_logs: false,
        }
    }

    /// Whether profile, cluster and service are all committed.
    pub open spec fn fully_committed(self) -> bool {
        self.profile.len() > 0 && self.cluster.len() > 0 && self.service.len() > 0
    }

    /// The state's invariant: each list agrees with its viewport; the configuration stage
    /// is set exactly while the configuration screen is open; a detail view points at a
    /// log line; and nothing is held for a choice whose upstream choice is not committed.
    pub open spec fn wf(self) -> bool {
        &&& self.profiles.wf()
        &&& self.clusters.wf()
        &&& self.services.wf()
        &&& self.service_events.wf()
        &&& self.profile_box.fits(self.profiles)
        &&& self.cluster_box.fits(self.clusters)
        &&& self.service_box.fits(self.services)
        &&& self.event_box.fits(self.service_events)
        &&& (self.current_screen == CurrentScreen::SettingConfig) == (self.setting_config is Some)
        &&& self.current_screen matches CurrentScreen::LogDetails(i) ==> i
            < self.service_events.items.len()
        &&& self.cluster.len() > 0 ==> self.profile.len() > 0
        &&& self.service.len() > 0 ==> self.cluster.len() > 0
        &&& self.clusters.items.len() > 0 ==> self.profile.len() > 0
        &&& self.services.items.len() > 0 ==> self.cluster.len() > 0
        &&& self.service_events.items.len() > 0 ==> self.fully_committed()
    }

    /// The state with the event log emptied.
    pub open spec fn without_events(self) -> AppView {
        AppView { service_events: ListView::empty(), event_box: ScrollBox::cleared(), ..self }
    }

    /// The loader's invalidation: a log shown while configuring is dropped.
    pub open spec fn invalidated(self) -> AppView {
        if self.current_screen == CurrentScreen::SettingConfig
            && self.service_events.items.len() > 0 {
            self.without_events()
        } else {
            self
        }
    }

    /// The fetch the loader wants in this state, if any.
    pub open spec fn wanted(self) -> Option<FetchRequest> {
        if self.current_screen == CurrentScreen::Main && self.fully_committed()
            && self.service_events.items.len() == 0 {
            Some(FetchRequest::Events)
        } else {
            match self.setting_config {
                Some(SettingConfig::Profile) => if self.profiles.items.len() == 0 {
                    Some(FetchRequest::Profiles)
                } else {
                    None
                },
                Some(SettingConfig::Cluster) => if self.profile.len() > 0
                    && self.clusters.items.len() == 0 {
                    Some(FetchRequest::Clusters)
                } else {
                    None
                },
                Some(SettingConfig::Service) => if self.profile.len() > 0 && self.cluster.len() > 0
                    && self.services.items.len() == 0 {
                    Some(FetchRequest::Services)
                } else {
                    None
                },
                None => None,
            }
        }
    }

    /// The state once the names fetched for `req` are installed.
    pub open spec fn installed(self, req: FetchRequest, names: Seq<Seq<char>>) -> AppView {
        let n = names.len() as int;
        match req {
            FetchRequest::Profiles => AppView {
                profiles: ListView::installed(sorted_names(names)),
                profile_box: ScrollBox::sized(0, n),
                ..self
            },
            FetchRequest::Clusters => AppView {
                clusters: ListView::installed(sorted_names(names)),
                cluster_box: ScrollBox::sized(0, n),
                ..self
            },
            FetchRequest::Services => AppView {
                services: ListView::installed(sorted_names(names)),
                service_box: ScrollBox::sized(0, n),
                ..self
            },
            FetchRequest::Events => AppView {
                service_events: tailing(names),
                event_box: ScrollBox::sized(n, n),
                ..self
            },
        }
    }

    /// The state after the result of a fetch for `req` comes back: installed when the
    /// fetch succeeded and is still wanted, else the state unchanged.
    pub open spec fn finished(self, req: FetchRequest, result: Option<Seq<Seq<char>>>) -> AppView {
        match result {
            Some(names) => if self.wanted() == Some(req) {
                self.installed(req, names)
            } else {
                self
            },
            None => self,
        }
    }

    /// The state after "switch stage".
    pub open spec fn toggled(self) -> AppView {
        AppView {
            setting_config: Some(
                match self.setting_config {
                    Some(s) => s.following(),
                    None => SettingConfig::Profile,
                },
            ),
            ..self
        }
    }
}

impl Default for App {
    fn default() -> (r: Self)
        ensures
            r@ == AppView::initial(),
    {
        Self::new()
    }
}

impl App {
    pub fn new() -> (r: App)
        ensures
            r@ == AppView::initial(),
            r@.wf(),
    {
        let r = App {
            profile: String::new(),
            profiles: OptionList::new(),
            cluster: String::new(),
            clusters: OptionList::new(),
            service: String::new(),
            services: OptionList::new(),
            service_events: OptionList::new(),
            current_screen: CurrentScreen::Main,
            setting_config: None,
            profile_box: ScrollBox::new(),
            cluster_box: ScrollBox::new(),
            service_box: ScrollBox::new(),
            event_box: ScrollBox::new(),
            viewing_logs: false,
        };
        assert(r@ == AppView::initial());
        r
    }

    /// Cycles the configuration stage: profile, cluster, service, profile.
    pub fn toggle_setting(&mut self)
        requires
            old(self)@.wf(),
            old(self)@.current_screen == CurrentScreen::SettingConfig,
        ensures
            final(self)@ == old(self)@.toggled(),
            final(self)@.wf(),
    {
        let next = match self.setting_config {
            Some(SettingConfig::Profile) => SettingConfig::Cluster,
            Some(SettingConfig::Cluster) => SettingConfig::Service,
            Some(SettingConfig::Service) => SettingConfig::Profile,
            None => SettingConfig::Profile,
        };
        self.setting_config = Some(next);
    }

    /// Empties the event log and its viewport.
    pub fn clear_events(&mut self)
        ensures
            final(self)@ == old(self)@.without_events(),
    {
        self.service_events = OptionList::new();
        self.event_box = ScrollBox::new();
    }

    /// The fetch the loader wants in the current state, if any.
    pub fn wanted_fetch(&self) -> (r: Option<FetchRequest>)
        ensures
            r == self@.wanted(),
    {
        let committed = !self.profile.as_str().is_empty() && !self.cluster.as_str().is_empty()
            && !self.service.as_str().is_empty();
        if self.current_screen == CurrentScreen::Main && committed && self.service_events.is_empty() {
            return Some(FetchRequest::Events);
        }
        match self.setting_config {
            Some(SettingConfig::Profile) => {
                if self.profiles.is_empty() {
                    Some(FetchRequest::Profiles)
                } else {
                    None
                }
            },
            Some(SettingConfig::Cluster) => {
                if !self.profile.as_str().is_empty() && self.clusters.is_empty() {
                    Some(FetchRequest::Clusters)
                } else {
                    None
                }
            },
            Some(SettingConfig::Service) => {
                if !self.profile.as_str().is_empty() && !self.cluster.as_str().is_empty()
                    && self.services.is_empty() {
                    Some(FetchRequest::Services)
                } else {
                    None
                }
            },
            None => None,
        }
    }

    /// One tick of the loader: first drops a log shown while configuring, then tells
    /// which fetch, if any, the caller is to make now.
    pub fn on_tick(&mut self) -> (r: Option<FetchRequest>)
        requires
            old(self)@.wf(),
        ensures
            final(self)@ == old(self)@.invalidated(),
            r == final(self)@.wanted(),
            final(self)@.wf(),
    {
        if self.current_screen == CurrentScreen::SettingConfig && !self.service_events.is_empty() {
            self.clear_events();
        }
        self.wanted_fetch()
    }

    /// Hands back the result of the fetch for `req` (`None` when it failed). A successful
    /// result that is still wanted is installed: names sorted with the first selected,
    /// log lines as they came with the newest selected. Anything else changes nothing, so
    /// a failed fetch is tried again on the next tick.
    pub fn finish_fetch(&mut self, req: FetchRequest, result: Option<Vec<String>>)
        requires
            old(self)@.wf(),
        ensures
            final(self)@ == old(self)@.finished(req, fetched_names(result)),
            final(self)@.wf(),
    {
        let wanted = self.wanted_fetch();
        if wanted != Some(req) {
            return;
        }
        match result {
            None => {},
            Some(items) => {
                let n = items.len();
                proof {
                    lemma_sorted_names_len(names_of(items@));
                }
                match req {
                    FetchRequest::Profiles => {
                        self.profiles = OptionList::from_items(sort_names(items));
                        self.profile_box = ScrollBox { vertical_scroll: 0, content_length: n };
                    },
                    FetchRequest::Clusters => {
                        self.clusters = OptionList::from_items(sort_names(items));
                        self.cluster_box = ScrollBox { vertical_scroll: 0, content_length: n };
                    },
                    FetchRequest::Services => {
                        self.services = OptionList::from_items(sort_names(items));
                        self.service_box = ScrollBox { vertical_scroll: 0, content_length: n };
                    },
                    FetchRequest::Events => {
                        let selection = if n > 0 {
                            Some(n - 1)
                        } else {
                            None
                        };
                        self.service_events = OptionList { items, selection };
                        self.event_box = ScrollBox { vertical_scroll: n, content_length: n };
                    },
                }
            },
        }
    }
}

/// Three switches of the configuration stage come back to the stage they started from,
/// with nothing else changed.
pub proof fn lemma_three_switches_return(v: AppView)
    requires
        v.setting_config is Some,
    ensures
        v.toggled().toggled().toggled() == v,
        SettingConfig::Profile.following().following().following() == SettingConfig::Profile,
{
}

} // verus!

//! The state and decisions of a terminal browser for container clusters: a
//! credential profile, a cluster and a service are chosen in turn from
//! selectable lists, after which the service's recent log lines are tailed.
//!
//! The library holds the selectable lists, the screen and configuration-stage
//! state machine, the loader that decides on each tick what to fetch and what
//! to invalidate, and the scheduler's per-iteration decisions. Fetching,
//! terminal input and drawing are done by the caller.
pub mod app;
pub mod batches;
pub mod credentials;
pub mod keymaps;
pub mod log_lines;
pub mod names;
pub mod option_list;
pub mod scheduler;

pub use app::{
    App, AppView, ClusterBox, CurrentScreen, EventLogBox, FetchRequest, ProfileBox, ScrollBox,
    ServiceBox, SettingConfig,
};
pub use option_list::{ListView, OptionList};

//! Watching a UPS: classifying raw status text into a small set of states,
//! tracking transitions between them, handing the latest transition to any
//! number of consumers, and deciding which notices to send and when to retry.

pub mod args;
pub mod events;
pub mod hub;
pub mod notify;
pub mod state;
pub mod status;
pub mod watch;

pub use args::{CommandArgs, ListArgs, NotifyArgs, SubCommand, Top, WsServerOpts};
pub use events::{EventView, NoticeParam, StatusEvent};
pub use hub::{EventHub, HubView, Subscription};
pub use notify::{Delivery, DeliveryStep, DeliveryView, GotifyNotifier, Notifier};
pub use state::{TrackerView, UpsState};
pub use status::{StatusView, UpsStatus};
pub use watch::{poll_tick, ConfigError, UpsStatusSpecs};

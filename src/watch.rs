use vstd::prelude::*;
use crate::events::EventView;
use crate::hub::EventHub;
use crate::state::{TrackerView, UpsState};

verus! {

/// The settings of the poll loop: which UPS variable to read, how often,
/// and how to classify what it holds.
#[derive(Debug, Clone)]
pub struct UpsStatusSpecs {
    pub online_status_spec: String,
    pub discharge_status_spec: String,
    pub charge_status_spec: String,
    pub ups_name: String,
    pub ups_variable: String,
    pub nut_polling_secs: u64,
    pub verbose_online_status: bool,
}

/// A setting that the poll loop cannot run with.
#[derive(Debug, Clone, Copy, PartialEq, Eq, Structural)]
pub enum ConfigError {
    /// The poll interval is zero seconds.
    ZeroPollInterval,
}

impl UpsStatusSpecs {
    /// The poll interval in seconds, which must be positive.
    pub fn poll_interval_secs(&self) -> (r: Result<u64, ConfigError>)
        ensures
            self.nut_polling_secs > 0 ==> r == Ok::<u64, ConfigError>(self.nut_polling_secs),
            self.nut_polling_secs == 0 ==> r == Err::<u64, ConfigError>(
                ConfigError::ZeroPollInterval,
            ),
    {
        if self.nut_polling_secs == 0 {
            Err(ConfigError::ZeroPollInterval)
        } else {
            Ok(self.nut_polling_secs)
        }
    }

    /// A tracker that classifies by these specs and has observed nothing yet.
    pub fn tracker(&self) -> (r: UpsState)
        ensures
            r@ == TrackerView::initial(
                self.online_status_spec@,
                self.charge_status_spec@,
                self.discharge_status_spec@,
                self.verbose_online_status,
            ),
    {
        UpsState::new(
            self.online_status_spec.as_str(),
            self.charge_status_spec.as_str(),
            self.discharge_status_spec.as_str(),
            self.verbose_online_status,
        )
    }
}

/// One tick of the poll loop, given what the device query returned.
///
/// A failed query is handed back untouched, with the tracker and the hub
/// left as they were: the loop cannot go on without its data. A reading is
/// fed to the tracker, and the resulting event is published.
pub fn poll_tick<E>(state: &mut UpsState, hub: &mut EventHub, reading: Result<String, E>) -> (r:
    Result<(), E>)
    requires
        old(hub)@.version < u64::MAX,
    ensures
        match reading {
            Ok(raw) => {
                &&& r is Ok
                &&& final(state)@ == old(state)@.read(raw@)
                &&& final(hub)@ == old(hub)@.published(
                    EventView { status: final(state)@.status, changed: final(state)@.changed },
                )
            },
            Err(e) => {
                &&& r == Err::<(), E>(e)
                &&& final(state)@ == old(state)@
                &&& final(hub)@ == old(hub)@
            },
        },
{
    match reading {
        Ok(raw) => {
            let event = state.update(raw);
            hub.publish(event);
            Ok(())
        },
        Err(e) => Err(e),
    }
}

} // verus!

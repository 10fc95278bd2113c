use vstd::prelude::*;
use crate::status::{StatusView, UpsStatus};

verus! {

/// The fields of an alert notice, as (name, value) pairs.
pub type NoticeParam = Vec<(String, String)>;

/// The mathematical value of a [`StatusEvent`].
pub ghost struct EventView {
    pub status: StatusView,
    pub changed: bool,
}

/// One poll's outcome: the classified status, and whether it differs from
/// the status of the poll before it.
#[derive(Debug, Clone)]
pub struct StatusEvent {
    pub ups_status: UpsStatus,
    pub changed: bool,
}

impl View for StatusEvent {
    type V = EventView;

    open spec fn view(&self) -> EventView {
        EventView { status: self.ups_status@, changed: self.changed }
    }
}

impl StatusEvent {
    /// A copy of this event, equal to it.
    pub fn duplicate(&self) -> (r: StatusEvent)
        ensures
            r@ == self@,
    {
        StatusEvent { ups_status: self.ups_status.duplicate(), changed: self.changed }
    }
}

} // verus!

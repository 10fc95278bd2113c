use vstd::prelude::*;
use crate::events::{EventView, StatusEvent};
use crate::status::{StatusView, UpsStatus};

verus! {

/// The status that raw device text stands for under the given specs.
///
/// The specs are tried in a fixed order, each by exact comparison: the
/// online spec, then the charge spec (charging only when the verbose flag is
/// set, plain online otherwise), then the discharge spec. Text that matches
/// none of them is unknown and is carried along.
pub open spec fn classify_view(
    raw: Seq<char>,
    online: Seq<char>,
    charge: Seq<char>,
    discharge: Seq<char>,
    verbose: bool,
) -> StatusView {
    if raw == online {
        StatusView::Online
    } else if raw == charge {
        if verbose {
            StatusView::Charging
        } else {
            StatusView::Online
        }
    } else if raw == discharge {
        StatusView::OnBattery
    } else {
        StatusView::Unknown(raw)
    }
}

/// The mathematical value of a [`UpsState`].
pub ghost struct TrackerView {
    pub online: Seq<char>,
    pub charge: Seq<char>,
    pub discharge: Seq<char>,
    pub verbose: bool,
    pub status: StatusView,
    pub changed: bool,
}

impl TrackerView {
    /// A tracker that has observed nothing yet.
    pub open spec fn initial(
        online: Seq<char>,
        charge: Seq<char>,
        discharge: Seq<char>,
        verbose: bool,
    ) -> TrackerView {
        TrackerView { online, charge, discharge, verbose, status: StatusView::Startup, changed: false }
    }

    /// The status that raw text stands for under this tracker's specs.
    pub open spec fn classify(self, raw: Seq<char>) -> StatusView {
        classify_view(raw, self.online, self.charge, self.discharge, self.verbose)
    }

    /// This tracker after reading raw text: the new status is stored, and the
    /// change flag says whether it differs from the one held before.
    pub open spec fn read(self, raw: Seq<char>) -> TrackerView {
        TrackerView {
            status: self.classify(raw),
            changed: self.classify(raw) != self.status,
            ..self
        }
    }
}

/// Tracks the last observed status of a UPS and whether the latest reading
/// changed it.
#[derive(Debug, Clone)]
pub struct UpsState {
    pub online_status_spec: String,
    pub charge_status_spec: String,
    pub discharge_status_spec: String,
    pub status: UpsStatus,
    pub verbose_online_status: bool,
    state_changed: bool,
}

impl View for UpsState {
    type V = TrackerView;

    closed spec fn view(&self) -> TrackerView {
        TrackerView {
            online: self.online_status_spec@,
            charge: self.charge_status_spec@,
            discharge: self.discharge_status_spec@,
            verbose: self.verbose_online_status,
            status: self.status@,
            changed: self.state_changed,
        }
    }
}

impl UpsState {
    /// A tracker with the given specs that has observed nothing yet.
    pub fn new(
        online_status_spec: &str,
        charge_status_spec: &str,
        discharge_status_spec: &str,
        verbose_online_status: bool,
    ) -> (r: UpsState)
        ensures
            r@ == TrackerView::initial(
                online_status_spec@,
                charge_status_spec@,
                discharge_status_spec@,
                verbose_online_status,
            ),
    {
        UpsState {
            online_status_spec: String::from_str(online_status_spec),
            charge_status_spec: String::from_str(charge_status_spec),
            discharge_status_spec: String::from_str(discharge_status_spec),
            status: UpsStatus::Startup,
            verbose_online_status,
            state_changed: false,
        }
    }

    /// The status that raw device text stands for under this tracker's specs.
    pub fn classify(&self, raw: String) -> (r: UpsStatus)
        ensures
            r@ == self@.classify(raw@),
    {
        if raw == self.online_status_spec {
            UpsStatus::Online
        } else if raw == self.charge_status_spec {
            if self.verbose_online_status {
                UpsStatus::Charging
            } else {
                UpsStatus::Online
            }
        } else if raw == self.discharge_status_spec {
            UpsStatus::OnBattery
        } else {
            UpsStatus::Unknown(raw)
        }
    }

    /// Reads raw device text: stores the status it stands for and records
    /// whether that differs from the status held before.
    pub fn update_status_from_str(&mut self, s: String)
        ensures
            final(self)@ == old(self)@.read(s@),
    {
        let next_status = self.classify(s);
        if next_status != self.status {
            self.state_changed = true;
            self.status = next_status;
        } else {
            self.state_changed = false;
        }
    }

    /// Whether the latest reading changed the status.
    pub fn is_state_changed(&self) -> (r: bool)
        ensures
            r == self@.changed,
    {
        self.state_changed
    }

    /// Reads raw device text and reports the resulting status and whether
    /// it changed.
    pub fn update(&mut self, raw: String) -> (r: StatusEvent)
        ensures
            final(self)@ == old(self)@.read(raw@),
            r@ == (EventView { status: final(self)@.status, changed: final(self)@.changed }),
    {
        self.update_status_from_str(raw);
        StatusEvent { ups_status: self.status.duplicate(), changed: self.state_changed }
    }
}

/// Classification is total and never yields the startup sentinel: every text
/// stands for online, charging, on battery, or unknown carrying that very
/// text. It is a function of the text and the specs alone.
pub proof fn classify_is_total(
    raw: Seq<char>,
    online: Seq<char>,
    charge: Seq<char>,
    discharge: Seq<char>,
    verbose: bool,
)
    ensures
        classify_view(raw, online, charge, discharge, verbose) != StatusView::Startup,
        ({
            let s = classify_view(raw, online, charge, discharge, verbose);
            s is Online || s is Charging || s is OnBattery || s == StatusView::Unknown(raw)
        }),
{
}

/// Without the verbose flag, text equal to the online spec is online, never
/// charging.
pub proof fn online_text_is_online(
    raw: Seq<char>,
    online: Seq<char>,
    charge: Seq<char>,
    discharge: Seq<char>,
    verbose: bool,
)
    requires
        raw == online,
        !verbose,
    ensures
        classify_view(raw, online, charge, discharge, verbose) == StatusView::Online,
        classify_view(raw, online, charge, discharge, verbose) != StatusView::Charging,
{
}

/// With the verbose flag, text equal to the charge spec is charging, unless
/// the online spec, which is tried first, claims it.
pub proof fn charge_text_is_charging_when_verbose(
    raw: Seq<char>,
    online: Seq<char>,
    charge: Seq<char>,
    discharge: Seq<char>,
    verbose: bool,
)
    requires
        raw == charge,
        raw != online,
        verbose,
    ensures
        classify_view(raw, online, charge, discharge, verbose) == StatusView::Charging,
{
}

/// The first reading after construction always counts as a change: nothing
/// classifies as the startup sentinel.
pub proof fn first_reading_is_a_change(
    online: Seq<char>,
    charge: Seq<char>,
    discharge: Seq<char>,
    verbose: bool,
    raw: Seq<char>,
)
    ensures
        TrackerView::initial(online, charge, discharge, verbose).read(raw).changed,
{
}

/// Two readings in a row that classify alike: the second is no change.
pub proof fn equivalent_readings_are_no_change(t: TrackerView, a: Seq<char>, b: Seq<char>)
    requires
        t.classify(a) == t.classify(b),
    ensures
        !t.read(a).read(b).changed,
        t.read(a).read(b).status == t.classify(a),
{
}

} // verus!

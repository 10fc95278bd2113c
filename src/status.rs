use vstd::prelude::*;
use vstd::std_specs::cmp::PartialEqSpec;

verus! {

/// The mathematical value of a [`UpsStatus`]: the same variants, with the
/// unknown device text as a sequence of characters.
pub ghost enum StatusView {
    Online,
    Charging,
    OnBattery,
    Startup,
    Unknown(Seq<char>),
}

/// The semantic state of the watched UPS.
///
/// `Startup` stands for "nothing observed yet"; `Unknown` carries device text
/// that matched none of the configured status specs.
#[derive(Debug, Clone)]
pub enum UpsStatus {
    Online,
    Charging,
    OnBattery,
    Startup,
    Unknown(String),
}

impl View for UpsStatus {
    type V = StatusView;

    open spec fn view(&self) -> StatusView {
        match self {
            UpsStatus::Online => StatusView::Online,
            UpsStatus::Charging => StatusView::Charging,
            UpsStatus::OnBattery => StatusView::OnBattery,
            UpsStatus::Startup => StatusView::Startup,
            UpsStatus::Unknown(code) => StatusView::Unknown(code@),
        }
    }
}

impl PartialEq for UpsStatus {
    fn eq(&self, other: &UpsStatus) -> (r: bool) {
        match (self, other) {
            (UpsStatus::Online, UpsStatus::Online) => true,
            (UpsStatus::Charging, UpsStatus::Charging) => true,
            (UpsStatus::OnBattery, UpsStatus::OnBattery) => true,
            (UpsStatus::Startup, UpsStatus::Startup) => true,
            (UpsStatus::Unknown(a), UpsStatus::Unknown(b)) => *a == *b,
            _ => false,
        }
    }
}

impl vstd::std_specs::cmp::PartialEqSpecImpl for UpsStatus {
    open spec fn obeys_eq_spec() -> bool {
        true
    }

    open spec fn eq_spec(&self, other: &UpsStatus) -> bool {
        self@ == other@
    }
}

impl Eq for UpsStatus {
}

/// The human-readable text of a status.
pub open spec fn describe_spec(s: StatusView) -> Seq<char> {
    match s {
        StatusView::Online => "Online"@,
        StatusView::Charging => "Charging"@,
        StatusView::OnBattery => "On Battery"@,
        StatusView::Startup => "Monitoring Started"@,
        StatusView::Unknown(code) => "Unknown UPS Status, "@ + code,
    }
}

impl UpsStatus {
    /// A copy of this status, equal to it.
    pub fn duplicate(&self) -> (r: UpsStatus)
        ensures
            r@ == self@,
    {
        match self {
            UpsStatus::Online => UpsStatus::Online,
            UpsStatus::Charging => UpsStatus::Charging,
            UpsStatus::OnBattery => UpsStatus::OnBattery,
            UpsStatus::Startup => UpsStatus::Startup,
            UpsStatus::Unknown(code) => UpsStatus::Unknown(code.clone()),
        }
    }

    /// The text shown to a person for this status.
    pub fn describe(&self) -> (r: String)
        ensures
            r@ == describe_spec(self@),
    {
        match self {
            UpsStatus::Online => String::from_str("Online"),
            UpsStatus::Charging => String::from_str("Charging"),
            UpsStatus::OnBattery => String::from_str("On Battery"),
            UpsStatus::Startup => String::from_str("Monitoring Started"),
            UpsStatus::Unknown(code) => String::from_str("Unknown UPS Status, ").concat(code.as_str()),
        }
    }
}

/// A status from a stock NUT `ups.status` code: `OL` is on line power, `OB`
/// on battery, and anything else is unknown.
impl From<String> for UpsStatus {
    fn from(code: String) -> (r: UpsStatus) {
        if code == String::from_str("OL") {
            UpsStatus::Online
        } else if code == String::from_str("OB") {
            UpsStatus::OnBattery
        } else {
            UpsStatus::Unknown(code)
        }
    }
}

impl vstd::std_specs::convert::FromSpecImpl<String> for UpsStatus {
    open spec fn obeys_from_spec() -> bool {
        true
    }

    open spec fn from_spec(code: String) -> UpsStatus {
        if code@ == "OL"@ {
            UpsStatus::Online
        } else if code@ == "OB"@ {
            UpsStatus::OnBattery
        } else {
            UpsStatus::Unknown(code)
        }
    }
}

/// Two unknown statuses are equal exactly when their texts are, and no
/// unknown status equals online.
pub proof fn unknown_equality(a: String, b: String)
    ensures
        UpsStatus::Unknown(a).eq_spec(&UpsStatus::Unknown(b)) <==> a@ == b@,
        !UpsStatus::Unknown(a).eq_spec(&UpsStatus::Online),
{
}

} // verus!

use vstd::prelude::*;
use crate::events::{NoticeParam, StatusEvent};
use crate::status::{StatusView, UpsStatus};

verus! {

/// Seconds to wait before sending a notice again after a failed attempt.
pub const RETRY_DELAY_SECS: u64 = 4;

/// The message of the notice sent when the UPS reaches a status; the startup
/// sentinel gets none.
pub open spec fn notice_message(s: StatusView) -> Option<Seq<char>> {
    match s {
        StatusView::Online => Some("UPS ONLINE"@),
        StatusView::Charging => Some("UPS ONLINE - Charging"@),
        StatusView::OnBattery => Some("UPS ONBATT - Discharging"@),
        StatusView::Startup => None,
        StatusView::Unknown(code) => Some("UPS Unknown Status Code - "@ + code),
    }
}

/// Whether `fields` is the notice for `message`: the message itself, then a
/// priority of 10.
pub open spec fn is_notice(fields: Seq<(String, String)>, message: Seq<char>) -> bool {
    &&& fields.len() == 2
    &&& fields[0].0@ == "message"@
    &&& fields[0].1@ == message
    &&& fields[1].0@ == "priority"@
    &&& fields[1].1@ == "10"@
}

/// Something that can make one attempt at delivering a notice, such as a
/// push service over the network, or a stand-in for one.
pub trait Notifier: Sized {
    /// A notifier for the endpoint at `url`, authorised by `token`.
    fn new(url: String, token: String) -> Self;

    /// One attempt at delivering the notice; whether it was delivered.
    fn send(&self, notice_params: &NoticeParam) -> bool;
}

/// The endpoint and credential of a Gotify push server.
pub struct GotifyNotifier {
    gotify_url: String,
    gotify_token: String,
}

impl GotifyNotifier {
    /// A notifier for the server at `url`, authorised by `token`.
    pub fn new(url: String, token: String) -> (r: GotifyNotifier)
        ensures
            r.url()@ == url@,
            r.token()@ == token@,
    {
        GotifyNotifier { gotify_url: url, gotify_token: token }
    }

    /// The server's URL.
    pub closed spec fn url(&self) -> String {
        self.gotify_url
    }

    /// The credential sent with each notice.
    pub closed spec fn token(&self) -> String {
        self.gotify_token
    }

    /// The server's URL.
    pub fn gotify_url(&self) -> (r: &str)
        ensures
            r@ == self.url()@,
    {
        self.gotify_url.as_str()
    }

    /// The credential sent with each notice.
    pub fn gotify_token(&self) -> (r: &str)
        ensures
            r@ == self.token()@,
    {
        self.gotify_token.as_str()
    }

    /// The fields of a notice carrying `message`.
    pub fn make_message_param(message: String) -> (r: NoticeParam)
        ensures
            is_notice(r@, message@),
    {
        let mut fields: NoticeParam = Vec::new();
        fields.push((String::from_str("message"), message));
        fields.push((String::from_str("priority"), String::from_str("10")));
        fields
    }

    /// The notice to send for an event: one for each change to a status
    /// other than the startup sentinel, none otherwise.
    pub fn notice_for(event: &StatusEvent) -> (r: Option<NoticeParam>)
        ensures
            r is Some <==> event.changed && notice_message(event.ups_status@) is Some,
            r matches Some(fields) ==> is_notice(
                fields@,
                notice_message(event.ups_status@)->Some_0,
            ),
    {
        if !event.changed {
            return None;
        }
        let message = match &event.ups_status {
            UpsStatus::Online => String::from_str("UPS ONLINE"),
            UpsStatus::Charging => String::from_str("UPS ONLINE - Charging"),
            UpsStatus::OnBattery => String::from_str("UPS ONBATT - Discharging"),
            UpsStatus::Startup => {
                return None;
            },
            UpsStatus::Unknown(code) => String::from_str("UPS Unknown Status Code - ").concat(
                code.as_str(),
            ),
        };
        Some(GotifyNotifier::make_message_param(message))
    }
}

/// What a dispatcher does after an attempt to deliver a notice.
#[derive(Debug, Clone, Copy, PartialEq, Eq, Structural)]
pub enum DeliveryStep {
    /// The notice arrived; go on with the next event.
    Delivered,
    /// The attempt failed; send the same notice again after this many seconds.
    RetryAfter(u64),
}

/// The mathematical value of a [`Delivery`].
pub ghost struct DeliveryView {
    pub retries: nat,
    pub delivered: bool,
}

impl DeliveryView {
    /// A delivery before its first attempt.
    pub open spec fn initial() -> DeliveryView {
        DeliveryView { retries: 0, delivered: false }
    }

    /// What comes after an attempt that did or did not get through.
    pub open spec fn step(self, sent: bool) -> DeliveryStep {
        if self.delivered || sent {
            DeliveryStep::Delivered
        } else {
            DeliveryStep::RetryAfter(RETRY_DELAY_SECS)
        }
    }

    /// This delivery after an attempt: a failure counts one more retry (the
    /// count stops at the largest `u64`), a success ends it.
    pub open spec fn after(self, sent: bool) -> DeliveryView {
        if self.delivered {
            self
        } else if sent {
            DeliveryView { delivered: true, ..self }
        } else if self.retries < u64::MAX {
            DeliveryView { retries: self.retries + 1, ..self }
        } else {
            self
        }
    }

    /// This delivery after each attempt in turn.
    pub open spec fn after_all(self, outcomes: Seq<bool>) -> DeliveryView
        decreases outcomes.len(),
    {
        if outcomes.len() == 0 {
            self
        } else {
            self.after_all(outcomes.drop_last()).after(outcomes.last())
        }
    }
}

/// The retry bookkeeping for one notice: delivery is retried after every
/// failure, with a fixed delay and no limit, until it succeeds.
pub struct Delivery {
    retries: u64,
    delivered: bool,
}

impl View for Delivery {
    type V = DeliveryView;

    closed spec fn view(&self) -> DeliveryView {
        DeliveryView { retries: self.retries as nat, delivered: self.delivered }
    }
}

impl Delivery {
    /// A delivery before its first attempt.
    pub fn new() -> (r: Delivery)
        ensures
            r@ == DeliveryView::initial(),
    {
        Delivery { retries: 0, delivered: false }
    }

    /// How many attempts have failed so far.
    pub fn retries(&self) -> (r: u64)
        ensures
            r == self@.retries,
    {
        self.retries
    }

    /// Whether the notice has arrived.
    pub fn is_delivered(&self) -> (r: bool)
        ensures
            r == self@.delivered,
    {
        self.delivered
    }

    /// Records the outcome of an attempt and says what to do next.
    pub fn record(&mut self, sent: bool) -> (r: DeliveryStep)
        ensures
            final(self)@ == old(self)@.after(sent),
            r == old(self)@.step(sent),
    {
        if self.delivered {
            DeliveryStep::Delivered
        } else if sent {
            self.delivered = true;
            DeliveryStep::Delivered
        } else {
            self.retries = self.retries.saturating_add(1);
            DeliveryStep::RetryAfter(RETRY_DELAY_SECS)
        }
    }
}

/// Makes one attempt at delivering `notice` through `notifier` and records
/// it; what comes next holds whatever the attempt's outcome was.
pub fn attempt<N: Notifier>(notifier: &N, notice: &NoticeParam, delivery: &mut Delivery) -> (r:
    DeliveryStep)
    ensures
        exists|sent: bool|
            final(delivery)@ == old(delivery)@.after(sent) && r == old(delivery)@.step(sent),
{
    let sent = notifier.send(notice);
    delivery.record(sent)
}

/// Every failed attempt before delivery asks for a retry after the fixed
/// delay, so a notifier that always fails is retried without end.
pub proof fn failure_means_retry(d: DeliveryView)
    requires
        !d.delivered,
    ensures
        d.step(false) == DeliveryStep::RetryAfter(RETRY_DELAY_SECS),
        !d.after(false).delivered,
{
}

/// Failures before delivery are counted one by one, and a delivery stays
/// undelivered for as long as attempts fail.
pub proof fn failures_are_counted(k: nat)
    requires
        k < u64::MAX,
    ensures
        DeliveryView::initial().after_all(Seq::new(k, |i: int| false)) == (DeliveryView {
            retries: k,
            delivered: false,
        }),
    decreases k,
{
    if k > 0 {
        let fails = Seq::new(k, |i: int| false);
        failures_are_counted((k - 1) as nat);
        assert(fails.drop_last() =~= Seq::new((k - 1) as nat, |i: int| false));
    }
}

/// A notice whose first `k` attempts fail and whose next one succeeds is
/// delivered after exactly `k` retries, each after the fixed delay.
pub proof fn delivered_after_failures(k: nat)
    requires
        k < u64::MAX,
    ensures
        ({
            let outcomes = Seq::new(k, |i: int| false).push(true);
            &&& DeliveryView::initial().after_all(outcomes) == (DeliveryView {
                retries: k,
                delivered: true,
            })
            &&& forall|i: int|
                0 <= i < k ==> DeliveryView::initial().after_all(outcomes.take(i)).step(
                    outcomes[i],
                ) == DeliveryStep::RetryAfter(RETRY_DELAY_SECS)
            &&& DeliveryView::initial().after_all(outcomes.take(k as int)).step(outcomes[k as int])
                == DeliveryStep::Delivered
        }),
{
    let fails = Seq::new(k, |i: int| false);
    let outcomes = fails.push(true);
    failures_are_counted(k);
    assert(outcomes.drop_last() =~= fails);
    assert forall|i: int| 0 <= i < k implies DeliveryView::initial().after_all(
        outcomes.take(i),
    ).step(outcomes[i]) == DeliveryStep::RetryAfter(RETRY_DELAY_SECS) by {
        failures_are_counted(i as nat);
        assert(outcomes.take(i) =~= Seq::new(i as nat, |j: int| false));
    }
    assert(outcomes.take(k as int) =~= fails);
}

} // verus!

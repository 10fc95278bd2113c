use ups_notify::{
    poll_tick, ConfigError, EventHub, StatusEvent, UpsState, UpsStatus, UpsStatusSpecs,
};

fn event(status: UpsStatus, changed: bool) -> StatusEvent {
    StatusEvent { ups_status: status, changed }
}

#[test]
fn new_subscriber_sees_the_current_value() {
    let hub = EventHub::new(event(UpsStatus::Startup, true));
    let mut sub = hub.subscribe();
    assert!(sub.has_changed(&hub));
    let seen = sub.take_change(&hub).expect("the current value counts as new");
    assert_eq!(seen.ups_status, UpsStatus::Startup);
    assert!(!sub.has_changed(&hub));
    assert!(sub.take_change(&hub).is_none());
}

#[test]
fn latest_publish_wins() {
    let mut hub = EventHub::new(event(UpsStatus::Startup, true));
    let mut sub = hub.subscribe();
    sub.take_change(&hub);

    hub.publish(event(UpsStatus::Online, true));
    hub.publish(event(UpsStatus::OnBattery, true));
    hub.publish(event(UpsStatus::Unknown("XYZ".to_string()), true));

    let seen = sub.take_change(&hub).expect("a newer value");
    assert_eq!(seen.ups_status, UpsStatus::Unknown("XYZ".to_string()));
    assert!(sub.take_change(&hub).is_none());
    assert_eq!(hub.version(), 4);
}

#[test]
fn subscribers_are_independent() {
    let mut hub = EventHub::new(event(UpsStatus::Startup, true));
    let mut fast = hub.subscribe();
    let mut slow = hub.subscribe();
    fast.take_change(&hub);

    hub.publish(event(UpsStatus::Online, true));
    assert_eq!(fast.take_change(&hub).unwrap().ups_status, UpsStatus::Online);
    hub.publish(event(UpsStatus::OnBattery, true));
    assert_eq!(fast.take_change(&hub).unwrap().ups_status, UpsStatus::OnBattery);

    assert_eq!(slow.take_change(&hub).unwrap().ups_status, UpsStatus::OnBattery);
    assert_eq!(hub.current().ups_status, UpsStatus::OnBattery);
}

#[test]
fn poll_tick_publishes_each_reading() {
    let mut state = UpsState::new("OL", "OL CHRG", "OB", false);
    let mut hub = EventHub::new(event(UpsStatus::Startup, true));
    let mut sub = hub.subscribe();
    sub.take_change(&hub);

    let r: Result<(), String> = poll_tick(&mut state, &mut hub, Ok("OB".to_string()));
    assert!(r.is_ok());
    let seen = sub.take_change(&hub).unwrap();
    assert_eq!(seen.ups_status, UpsStatus::OnBattery);
    assert!(seen.changed);

    let r: Result<(), String> = poll_tick(&mut state, &mut hub, Ok("OB".to_string()));
    assert!(r.is_ok());
    assert!(!sub.take_change(&hub).unwrap().changed);
}

#[test]
fn poll_tick_hands_back_a_failed_query() {
    let mut state = UpsState::new("OL", "OL CHRG", "OB", false);
    let mut hub = EventHub::new(event(UpsStatus::Startup, true));
    let r = poll_tick(&mut state, &mut hub, Err("connection refused".to_string()));
    assert_eq!(r, Err("connection refused".to_string()));
    assert_eq!(hub.version(), 1);
    assert_eq!(state.status, UpsStatus::Startup);
}

fn specs(secs: u64) -> UpsStatusSpecs {
    UpsStatusSpecs {
        online_status_spec: "OL".to_string(),
        discharge_status_spec: "OB DISCHRG".to_string(),
        charge_status_spec: "OL CHRG".to_string(),
        ups_name: "ups".to_string(),
        ups_variable: "ups.status".to_string(),
        nut_polling_secs: secs,
        verbose_online_status: true,
    }
}

#[test]
fn zero_poll_interval_is_refused() {
    assert_eq!(specs(0).poll_interval_secs(), Err(ConfigError::ZeroPollInterval));
    assert_eq!(specs(60).poll_interval_secs(), Ok(60));
}

#[test]
fn specs_build_a_fresh_tracker() {
    let mut state = specs(60).tracker();
    assert_eq!(state.status, UpsStatus::Startup);
    state.update_status_from_str("OL CHRG".to_string());
    assert_eq!(state.status, UpsStatus::Charging);
    state.update_status_from_str("OB DISCHRG".to_string());
    assert_eq!(state.status, UpsStatus::OnBattery);
}

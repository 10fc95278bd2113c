use ups_notify::{UpsState, UpsStatus};

fn tester(verbose: bool) -> UpsState {
    let online = "ONLINE";
    let charge = "CHARGE";
    let onbatt = "ONBATTERY";
    UpsState::new(online, charge, onbatt, verbose)
}

#[test]
fn can_create_ups_state() {
    let state = tester(false);

    assert_eq!(state.status, UpsStatus::Startup);
    assert_eq!(state.is_state_changed(), false);
}

#[test]
fn can_update_status_from_str() {
    let online = "ONLINE".to_string();
    let mut state = tester(false);

    state.update_status_from_str(online);

    assert_eq!(state.status, UpsStatus::Online);
    assert_eq!(state.is_state_changed(), true);
}

#[test]
fn state_changed_resets_after_no_change() {
    let online = "ONLINE".to_string();
    let mut state = tester(false);

    state.update_status_from_str(online.clone());
    state.update_status_from_str(online);

    assert_eq!(state.status, UpsStatus::Online);
    assert_eq!(state.is_state_changed(), false);
}

#[test]
fn state_change_for_verbose_online_to_charging() {
    let online = "ONLINE".to_string();
    let charge = "CHARGE".to_string();
    let mut state = tester(true);

    state.update_status_from_str(online);
    state.update_status_from_str(charge);

    assert_eq!(state.status, UpsStatus::Charging);
    assert_eq!(state.is_state_changed(), true);
}

#[test]
fn state_change_for_no_verbose_online() {
    let online = "ONLINE".to_string();
    let charge = "CHARGE".to_string();
    let mut state = tester(false);

    state.update_status_from_str(online);
    state.update_status_from_str(charge);

    assert_eq!(state.status, UpsStatus::Online);
    assert_eq!(state.is_state_changed(), false);
}

#[test]
fn unknown_state_text_from_ups() {
    let unknown = "UNKNOWN STATE".to_string();
    let mut state = tester(false);

    state.update_status_from_str(unknown.clone());

    assert_eq!(state.status, UpsStatus::Unknown(unknown));
    assert_eq!(state.is_state_changed(), true);
}

// A tracker with one spec for line power and one for battery, and no
// separate charging state: the line-power text serves as both the online
// and the charge spec.
fn two_spec_state(online: &str, onbatt: &str) -> UpsState {
    UpsState::new(online, online, onbatt, false)
}

#[test]
fn ups_state_can_create_ups_state() {
    let state = two_spec_state(&"charging".to_string(), &"discharging".to_string());

    assert_eq!(state.status, UpsStatus::Startup);
    assert_eq!(state.is_state_changed(), false);
}

#[test]
fn ups_state_can_update_status_from_str() {
    let online = "ONLINE".to_string();
    let onbatt: String = "ONBATTERY".to_string();
    let mut state = two_spec_state(&online.clone(), &onbatt.clone());

    state.update_status_from_str(online);

    assert_eq!(state.status, UpsStatus::Online);
    assert_eq!(state.is_state_changed(), true);
}

#[test]
fn ups_state_state_changed_resets_after_no_change() {
    let online = "ONLINE".to_string();
    let onbatt = "ONBATTERY".to_string();
    let mut state = two_spec_state(&online.clone(), &onbatt.clone());

    state.update_status_from_str(online.clone());
    state.update_status_from_str(online.clone());

    assert_eq!(state.status, UpsStatus::Online);
    assert_eq!(state.is_state_changed(), false);
}

#[test]
fn ups_state_unknown_state_text_from_ups() {
    let online = "ONLINE".to_string();
    let onbatt = "ONBATTERY".to_string();
    let unknown = "UNKNOWN STATE".to_string();

    let mut state = two_spec_state(&online.clone(), &onbatt.clone());

    state.update_status_from_str(unknown.clone());

    assert_eq!(state.status, UpsStatus::Unknown(unknown));
    assert_eq!(state.is_state_changed(), true);
}

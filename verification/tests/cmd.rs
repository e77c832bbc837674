//! The command surface and its pure helpers.

use nu_zenoh::cmd::{
    delivery_mode, short_zid, Config, DeliveryMode, Pub, Querier, Scout, State, Sub, Zid,
    MAX_ZID_LEN,
};

#[test]
fn short_zid_truncates_long_identifiers() {
    assert_eq!(short_zid("0123456789abcdef"), "01234567".to_string());
    assert_eq!(short_zid("0123456789abcdef").len(), MAX_ZID_LEN);
}

#[test]
fn short_zid_keeps_short_identifiers_whole() {
    assert_eq!(short_zid("a1b2"), "a1b2".to_string());
    assert_eq!(short_zid(""), "".to_string());
    assert_eq!(short_zid("12345678"), "12345678".to_string());
}

#[test]
fn delivery_mode_follows_the_window() {
    assert_eq!(delivery_mode(None), DeliveryMode::LiveStream);
    assert_eq!(delivery_mode(Some(2500)), DeliveryMode::AggregateFor(2500));
    assert_eq!(delivery_mode(Some(0)), DeliveryMode::AggregateFor(0));
}

#[test]
fn commands_are_built_over_the_registry_handle() {
    let state = State;
    let _config = Config::new(state);
    let _sub = Sub::new(state);
    let _pub = Pub::new(state);
    let _querier = Querier::new(state);
    let _scout = Scout::new(state);
    let _zid = Zid::new(state);
}

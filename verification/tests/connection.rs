use std::time::Duration;

use serde_json::Value;
use streamdeck_homeassistant::hass::{
    Action, Context, EntityState, Event, LoopState, Notice, Pending, ServiceCall, Step,
};
use streamdeck_homeassistant::PersistentHassConnection;

fn entity(id: &str, state: &str) -> EntityState {
    EntityState {
        entity_id: id.to_string(),
        last_changed: "2024-01-01T00:00:00+00:00".to_string(),
        state: state.to_string(),
        attributes: Value::Null,
        last_updated: "2024-01-01T00:00:00+00:00".to_string(),
        context: None,
    }
}

fn connect(seconds: u64) -> PersistentHassConnection {
    PersistentHassConnection::new(
        "ws://homeassistant.local:8123/api/websocket".to_string(),
        "token".to_string(),
        Duration::from_secs(seconds),
        Ok(()),
    )
    .unwrap()
}

fn entity_payload(id: &str) -> Value {
    let mut object = serde_json::Map::new();
    object.insert("entity_id".to_string(), Value::String(id.to_string()));
    Value::Object(object)
}

#[test]
fn new_starts_running_with_an_empty_cache() {
    let hass = connect(5);
    assert_eq!(hass.url(), "ws://homeassistant.local:8123/api/websocket");
    assert_eq!(hass.token(), "token");
    assert_eq!(hass.update_interval(), Duration::from_secs(5));
    assert_eq!(hass.loop_state(), LoopState::Running(Pending::Refresh));
    assert_eq!(hass.pending_action(), Action::Refresh);
    assert_eq!(hass.get_state("switch.lamp"), None);
}

#[test]
fn new_fails_when_the_session_could_not_be_opened() {
    let result = PersistentHassConnection::new(
        "ws://nowhere".to_string(),
        "token".to_string(),
        Duration::from_secs(5),
        Err("Authentication failed: invalid token".to_string()),
    );
    assert_eq!(result.err(), Some("Authentication failed: invalid token".to_string()));
}

#[test]
fn happy_path_refresh_makes_the_state_readable() {
    let mut hass = connect(5);
    let step = hass.keep_alive(Event::Refreshed(Ok(vec![entity("switch.lamp", "on")])));
    assert_eq!(step, Step { action: Action::Sleep(Duration::from_secs(5)), notice: None });
    let state = hass.get_state("switch.lamp").unwrap();
    assert_eq!(state.state, "on");
    assert_eq!(state.entity_id, "switch.lamp");
    assert_eq!(hass.keep_alive(Event::Woke), Step { action: Action::Refresh, notice: None });
}

#[test]
fn get_state_returns_a_full_copy_of_the_record() {
    let mut attributes = serde_json::Map::new();
    attributes.insert("friendly_name".to_string(), Value::String("Lamp".to_string()));
    attributes.insert("brightness".to_string(), Value::from(128));
    let record = EntityState {
        entity_id: "light.lamp".to_string(),
        last_changed: "2024-02-03T04:05:06+00:00".to_string(),
        state: "on".to_string(),
        attributes: Value::Object(attributes),
        last_updated: "2024-02-03T04:05:07+00:00".to_string(),
        context: Some(Context {
            id: "01HZX".to_string(),
            parent_id: None,
            user_id: Some("user".to_string()),
        }),
    };
    let mut hass = connect(5);
    assert_eq!(hass.fetch_states(Ok(vec![record.clone()])), Ok(()));
    assert_eq!(hass.get_state("light.lamp"), Some(record));
}

#[test]
fn unknown_entity_is_nothing_and_no_error() {
    let mut hass = connect(5);
    assert_eq!(hass.get_state("nonexistent.entity"), None);
    hass.keep_alive(Event::Refreshed(Ok(vec![entity("switch.lamp", "on")])));
    hass.keep_alive(Event::Woke);
    hass.keep_alive(Event::Refreshed(Err("down".to_string())));
    hass.keep_alive(Event::Reconnected(Err("still down".to_string())));
    assert_eq!(hass.get_state("nonexistent.entity"), None);
    assert_eq!(hass.get_state(""), None);
    assert_eq!(hass.get_state("switch.lam"), None);
}

#[test]
fn refreshing_twice_with_the_same_states_is_refreshing_once() {
    let batch = || {
        vec![
            entity("switch.lamp", "on"),
            entity("light.desk", "off"),
            entity("switch.lamp", "off"),
        ]
    };
    let mut once = connect(5);
    once.fetch_states(Ok(vec![entity("sensor.old", "7")])).unwrap();
    once.fetch_states(Ok(batch())).unwrap();
    let mut twice = connect(5);
    twice.fetch_states(Ok(vec![entity("sensor.old", "7")])).unwrap();
    twice.fetch_states(Ok(batch())).unwrap();
    twice.fetch_states(Ok(batch())).unwrap();
    for id in ["switch.lamp", "light.desk", "sensor.old", "sensor.other"] {
        assert_eq!(once.get_state(id), twice.get_state(id));
    }
    assert_eq!(twice.get_state("switch.lamp"), Some(entity("switch.lamp", "off")));
}

#[test]
fn the_last_record_of_an_entity_in_a_batch_wins() {
    let mut hass = connect(5);
    hass.fetch_states(Ok(vec![
        entity("switch.lamp", "on"),
        entity("switch.lamp", "unavailable"),
        entity("light.desk", "off"),
    ]))
    .unwrap();
    assert_eq!(hass.get_state("switch.lamp").unwrap().state, "unavailable");
    assert_eq!(hass.get_state("light.desk").unwrap().state, "off");
}

#[test]
fn refresh_overwrites_and_never_removes() {
    let mut hass = connect(5);
    hass.fetch_states(Ok(vec![entity("switch.lamp", "on"), entity("light.desk", "off")]))
        .unwrap();
    hass.fetch_states(Ok(vec![entity("switch.lamp", "off")])).unwrap();
    assert_eq!(hass.get_state("switch.lamp").unwrap().state, "off");
    assert_eq!(hass.get_state("light.desk").unwrap().state, "off");
    hass.fetch_states(Ok(vec![])).unwrap();
    assert_eq!(hass.get_state("switch.lamp").unwrap().state, "off");
    assert_eq!(hass.get_state("light.desk"), Some(entity("light.desk", "off")));
}

#[test]
fn failed_refresh_keeps_every_entry() {
    let mut hass = connect(5);
    hass.fetch_states(Ok(vec![entity("switch.lamp", "on"), entity("light.desk", "off")]))
        .unwrap();
    assert_eq!(hass.fetch_states(Err("timeout".to_string())), Err("timeout".to_string()));
    assert_eq!(hass.get_state("switch.lamp"), Some(entity("switch.lamp", "on")));
    assert_eq!(hass.get_state("light.desk"), Some(entity("light.desk", "off")));
    let step = hass.keep_alive(Event::Refreshed(Err("Connection closed unexpectedly".to_string())));
    assert_eq!(step.action, Action::Reconnect);
    hass.keep_alive(Event::Reconnected(Err("refused".to_string())));
    assert_eq!(hass.get_state("switch.lamp"), Some(entity("switch.lamp", "on")));
    assert_eq!(hass.get_state("light.desk"), Some(entity("light.desk", "off")));
}

#[test]
fn fetch_states_leaves_the_loop_where_it_stands() {
    let mut hass = connect(5);
    hass.keep_alive(Event::Refreshed(Ok(vec![])));
    assert_eq!(hass.loop_state(), LoopState::Running(Pending::Sleep));
    hass.fetch_states(Ok(vec![entity("switch.lamp", "on")])).unwrap();
    assert_eq!(hass.loop_state(), LoopState::Running(Pending::Sleep));
    assert_eq!(hass.get_state("switch.lamp").unwrap().state, "on");
}

#[test]
fn reconnection_follows_a_failed_refresh_and_updates_resume() {
    let mut hass = connect(5);
    hass.keep_alive(Event::Refreshed(Ok(vec![entity("switch.lamp", "on")])));
    hass.keep_alive(Event::Woke);

    let step = hass.keep_alive(Event::Refreshed(Err("Connection closed unexpectedly".to_string())));
    assert_eq!(
        step,
        Step {
            action: Action::Reconnect,
            notice: Some(Notice::FetchFailed("Connection closed unexpectedly".to_string())),
        }
    );
    assert_eq!(hass.loop_state(), LoopState::Running(Pending::Reconnect));

    let step = hass.keep_alive(Event::Reconnected(Ok(())));
    assert_eq!(
        step,
        Step {
            action: Action::Sleep(Duration::from_secs(5)),
            notice: Some(Notice::ClientReplaced),
        }
    );

    assert_eq!(hass.keep_alive(Event::Woke), Step { action: Action::Refresh, notice: None });
    let step = hass.keep_alive(Event::Refreshed(Ok(vec![entity("switch.lamp", "off")])));
    assert_eq!(step, Step { action: Action::Sleep(Duration::from_secs(5)), notice: None });
    assert_eq!(hass.get_state("switch.lamp").unwrap().state, "off");
}

#[test]
fn failed_reconnection_is_reported_and_retried_next_cycle() {
    let mut hass = connect(2);
    hass.keep_alive(Event::Refreshed(Err("broken pipe".to_string())));
    let step = hass.keep_alive(Event::Reconnected(Err("connection refused".to_string())));
    assert_eq!(
        step,
        Step {
            action: Action::Sleep(Duration::from_secs(2)),
            notice: Some(Notice::ReplaceFailed("connection refused".to_string())),
        }
    );
    assert_eq!(hass.keep_alive(Event::Woke).action, Action::Refresh);
    let step = hass.keep_alive(Event::Refreshed(Err("broken pipe".to_string())));
    assert_eq!(step.action, Action::Reconnect);
    assert_eq!(hass.loop_state(), LoopState::Running(Pending::Reconnect));
}

#[test]
fn shutdown_ends_the_loop_for_good() {
    let mut hass = connect(5);
    hass.fetch_states(Ok(vec![entity("switch.lamp", "on")])).unwrap();
    let step = hass.keep_alive(Event::ShutdownRequested);
    assert_eq!(step, Step { action: Action::Stop, notice: Some(Notice::ClosingConnection) });
    assert_eq!(hass.loop_state(), LoopState::ShuttingDown);
    for event in [
        Event::Woke,
        Event::Refreshed(Ok(vec![entity("switch.lamp", "off")])),
        Event::Refreshed(Err("x".to_string())),
        Event::Reconnected(Ok(())),
        Event::ShutdownRequested,
    ] {
        assert_eq!(hass.keep_alive(event), Step { action: Action::Stop, notice: None });
        assert_eq!(hass.loop_state(), LoopState::ShuttingDown);
    }
    assert_eq!(hass.get_state("switch.lamp").unwrap().state, "on");
}

#[test]
fn shutdown_is_only_seen_while_a_refresh_is_awaited() {
    let mut hass = connect(5);
    hass.keep_alive(Event::Refreshed(Ok(vec![])));
    let step = hass.keep_alive(Event::ShutdownRequested);
    assert_eq!(step, Step { action: Action::Sleep(Duration::from_secs(5)), notice: None });
    assert_eq!(hass.loop_state(), LoopState::Running(Pending::Sleep));
    hass.keep_alive(Event::Woke);
    hass.keep_alive(Event::Refreshed(Err("x".to_string())));
    let step = hass.keep_alive(Event::ShutdownRequested);
    assert_eq!(step, Step { action: Action::Reconnect, notice: None });
}

#[test]
fn events_that_are_not_awaited_change_nothing() {
    let mut hass = connect(5);
    assert_eq!(hass.keep_alive(Event::Woke), Step { action: Action::Refresh, notice: None });
    assert_eq!(
        hass.keep_alive(Event::Reconnected(Err("x".to_string()))),
        Step { action: Action::Refresh, notice: None }
    );
    hass.keep_alive(Event::Refreshed(Ok(vec![])));
    let step = hass.keep_alive(Event::Refreshed(Ok(vec![entity("switch.lamp", "on")])));
    assert_eq!(step, Step { action: Action::Sleep(Duration::from_secs(5)), notice: None });
    assert_eq!(hass.get_state("switch.lamp"), None);
}

#[test]
fn call_service_prepares_the_call_as_given() {
    let hass = connect(5);
    let call = hass.call_service("switch", "turn_off", Some(entity_payload("switch.lamp")));
    assert_eq!(
        call,
        Ok(ServiceCall {
            domain: "switch".to_string(),
            service: "turn_off".to_string(),
            data: Some(entity_payload("switch.lamp")),
        })
    );
    let call = hass.call_service("homeassistant", "restart", None).unwrap();
    assert_eq!(call.data, None);
}

#[test]
fn call_service_refuses_empty_names() {
    let hass = connect(5);
    assert_eq!(
        hass.call_service("", "turn_off", None),
        Err("domain must not be empty".to_string())
    );
    assert_eq!(
        hass.call_service("switch", "", Some(Value::Null)),
        Err("service must not be empty".to_string())
    );
    assert_eq!(hass.call_service("", "", None), Err("domain must not be empty".to_string()));
}

#[test]
fn call_service_does_not_touch_loop_or_cache() {
    let mut hass = connect(5);
    hass.keep_alive(Event::Refreshed(Ok(vec![entity("switch.lamp", "on")])));
    hass.call_service("switch", "turn_off", Some(entity_payload("switch.lamp"))).unwrap();
    assert_eq!(hass.loop_state(), LoopState::Running(Pending::Sleep));
    assert_eq!(hass.pending_action(), Action::Sleep(Duration::from_secs(5)));
    assert_eq!(hass.get_state("switch.lamp").unwrap().state, "on");
}

#[test]
fn a_zero_interval_is_handed_on_as_it_is() {
    let mut hass = connect(0);
    let step = hass.keep_alive(Event::Refreshed(Ok(vec![])));
    assert_eq!(step.action, Action::Sleep(Duration::ZERO));
}

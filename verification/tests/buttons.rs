use std::time::Duration;

use serde_json::Value;
use streamdeck_homeassistant::hass::EntityState;
use streamdeck_homeassistant::plugins::rgb::color_request;
use streamdeck_homeassistant::plugins::{toggle_request, toggle_state, PluginContext, ServiceRequest};
use streamdeck_homeassistant::PersistentHassConnection;

fn entity(id: &str, state: &str) -> EntityState {
    EntityState {
        entity_id: id.to_string(),
        last_changed: String::new(),
        state: state.to_string(),
        attributes: Value::Null,
        last_updated: String::new(),
        context: None,
    }
}

fn hub(states: Vec<EntityState>) -> PersistentHassConnection {
    let mut hass = PersistentHassConnection::new(
        "ws://hub".to_string(),
        "token".to_string(),
        Duration::from_secs(5),
        Ok(()),
    )
    .unwrap();
    hass.fetch_states(Ok(states)).unwrap();
    hass
}

#[test]
fn toggle_is_active_when_the_entity_is_on() {
    let hass = hub(vec![
        entity("switch.lamp", "on"),
        entity("switch.fan", "off"),
        entity("switch.odd", "ON"),
        entity("switch.gone", "unavailable"),
    ]);
    let context = PluginContext { config: None, hass: Some(&hass) };
    assert_eq!(toggle_state(&context, "switch.lamp"), Ok(true));
    assert_eq!(toggle_state(&context, "switch.fan"), Ok(false));
    assert_eq!(toggle_state(&context, "switch.odd"), Ok(false));
    assert_eq!(toggle_state(&context, "switch.gone"), Ok(false));
}

#[test]
fn toggle_state_needs_connection_and_cached_state() {
    let hass = hub(vec![entity("switch.lamp", "on")]);
    let without = PluginContext { config: None, hass: None };
    assert_eq!(
        toggle_state(&without, "switch.lamp"),
        Err("Failed to get PersistentHassConnection".to_string())
    );
    let with = PluginContext { config: None, hass: Some(&hass) };
    assert_eq!(toggle_state(&with, "switch.unknown"), Err("Failed to get state".to_string()));
}

#[test]
fn toggle_request_turns_on_or_off() {
    let hass = hub(vec![]);
    let context = PluginContext { config: None, hass: Some(&hass) };
    assert_eq!(
        toggle_request(&context, "switch", "switch.lamp", false),
        Ok(ServiceRequest {
            domain: "switch".to_string(),
            service: "turn_off".to_string(),
            entity_id: "switch.lamp".to_string(),
            color: None,
        })
    );
    assert_eq!(
        toggle_request(&context, "light", "light.desk", true),
        Ok(ServiceRequest {
            domain: "light".to_string(),
            service: "turn_on".to_string(),
            entity_id: "light.desk".to_string(),
            color: None,
        })
    );
}

#[test]
fn requests_need_the_connection() {
    let without = PluginContext { config: None, hass: None };
    assert_eq!(
        toggle_request(&without, "switch", "switch.lamp", true),
        Err("Failed to get PersistentHassConnection".to_string())
    );
    assert_eq!(
        color_request(&without, "light.desk", (255, 0, 0)),
        Err("Failed to get PersistentHassConnection".to_string())
    );
}

#[test]
fn color_request_turns_the_light_on_in_the_colour() {
    let hass = hub(vec![]);
    let context = PluginContext { config: None, hass: Some(&hass) };
    assert_eq!(
        color_request(&context, "light.desk", (255, 165, 0)),
        Ok(ServiceRequest {
            domain: "light".to_string(),
            service: "turn_on".to_string(),
            entity_id: "light.desk".to_string(),
            color: Some((255, 165, 0)),
        })
    );
}

#[test]
fn a_request_passes_the_checks_of_call_service() {
    let hass = hub(vec![]);
    let context = PluginContext { config: None, hass: Some(&hass) };
    let request = toggle_request(&context, "switch", "switch.lamp", false).unwrap();
    let call = hass.call_service(&request.domain, &request.service, None).unwrap();
    assert_eq!(call.domain, "switch");
    assert_eq!(call.service, "turn_off");
}

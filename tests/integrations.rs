use deck_server::integrations::airplay::{
    atvremote_args, command_for_action, credentials_header, find_device, url_path_for_action,
    AirplayAction, Device, Protocol,
};
use deck_server::integrations::homebridge::{
    set_plan, switch_value, toggle_plan, DevicePlan, HomebridgeAuth, HomebridgeDeviceResponse, HomebridgeValues,
};
use deck_server::integrations::http::IntegrationConfig as HttpConfig;
use deck_server::integrations::hue::{LightOnRequest, LightResource};
use deck_server::integrations::{IntegrationConfiguration, IntegrationsConfigurationEnum};

fn tv(credentials: Option<&str>, protocol: Option<Protocol>) -> Device {
    Device {
        name: "tv".to_string(),
        identifier: "AA:BB".to_string(),
        credentials: credentials.map(|c| c.to_string()),
        protocol,
    }
}

#[test]
fn protocol_names() {
    assert_eq!(Protocol::Companion.as_str(), "companion");
    assert_eq!(Protocol::AirPlay.as_str(), "airplay");
    assert_eq!(Protocol::RAOP.as_str(), "raop");
}

#[test]
fn airplay_paths_and_commands() {
    let d = tv(None, None);
    let cmd = AirplayAction::Command { device: "tv".to_string(), command: "play".to_string() };
    assert_eq!(url_path_for_action(&d, &cmd), "command/AA:BB/play");
    let open = AirplayAction::OpenApp { device: "tv".to_string(), identifier: "com.x".to_string() };
    assert_eq!(url_path_for_action(&d, &open), "apps/AA:BB/open/com.x");
    assert_eq!(command_for_action(&open), ("tv".to_string(), "launch_app=com.x".to_string()));
    assert_eq!(command_for_action(&cmd), ("tv".to_string(), "play".to_string()));
}

#[test]
fn airplay_arguments() {
    let plain = atvremote_args(&tv(None, None), "play");
    assert_eq!(plain, vec!["-i", "AA:BB", "--protocol", "airplay", "play"]);
    let secured = atvremote_args(&tv(Some("secret"), Some(Protocol::Companion)), "play");
    assert_eq!(
        secured,
        vec!["-i", "AA:BB", "--protocol", "companion", "--companion-credentials", "secret", "play"]
    );
    assert_eq!(credentials_header(&tv(None, None)), None);
    assert_eq!(
        credentials_header(&tv(Some("secret"), Some(Protocol::RAOP))),
        Some(("raop-credentials".to_string(), "secret".to_string()))
    );
}

#[test]
fn airplay_device_lookup() {
    let mut second = tv(None, Some(Protocol::RAOP));
    second.identifier = "CC".to_string();
    let devices = vec![tv(None, None), second];
    assert_eq!(find_device(&devices, "tv").unwrap().identifier, "CC");
    assert!(find_device(&devices, "radio").is_none());
}

#[test]
fn homebridge_values() {
    let v = |on| HomebridgeValues { on, brightness: None, color_temperature: None };
    assert_eq!(v(Some(1)).on_state(), Some(true));
    assert_eq!(v(Some(0)).on_state(), Some(false));
    assert_eq!(v(Some(2)).on_state(), None);
    assert_eq!(v(None).on_state(), None);
    assert_eq!(switch_value(true), 1);
    assert_eq!(switch_value(false), 0);
    let r = HomebridgeDeviceResponse {
        uuid: "u".to_string(),
        utype: "Lightbulb".to_string(),
        unique_id: "abc".to_string(),
        human_type: "Light".to_string(),
        service_name: "Lamp".to_string(),
        values: v(Some(1)),
    };
    assert_eq!(r.endpoint(), "api/accessories/abc");
}

#[test]
fn homebridge_token_window() {
    let mut auth = HomebridgeAuth {
        username: "u".to_string(),
        password: "p".to_string(),
        token: Some("t".to_string()),
        expires_at: Some(10_000),
    };
    assert!(auth.has_token_expired(1_000));
    assert!(!auth.has_token_expired(2_800));
    assert!(auth.has_valid_token(1_000));
    auth.expires_at = Some(100);
    assert!(!auth.has_token_expired(0));
    auth.expires_at = None;
    assert!(!auth.has_valid_token(0));
    auth.token = None;
    auth.expires_at = Some(10_000);
    assert!(!auth.has_valid_token(1_000));
}

#[test]
fn hue_resources() {
    assert_eq!(LightResource::from_type("grouped_light"), LightResource::GroupedLight);
    assert_eq!(LightResource::from_type("light"), LightResource::Light);
    assert_eq!(LightResource::from_type("other"), LightResource::Light);
    assert_eq!(LightResource::Light.endpoint(), "light");
    assert_eq!(LightResource::GroupedLight.endpoint(), "grouped_light");
    assert!(LightOnRequest::new(true).on.on);
    assert!(!LightOnRequest::new(false).on.on);
}

#[test]
fn integration_names() {
    let named = IntegrationsConfigurationEnum::Http(IntegrationConfiguration {
        name: Some("web".to_string()),
        options: HttpConfig {},
    });
    assert_eq!(named.integration_name(), "web");
    assert_eq!(named.kind_name(), "http");
    let unnamed = IntegrationsConfigurationEnum::Http(IntegrationConfiguration {
        name: None,
        options: HttpConfig {},
    });
    assert_eq!(unnamed.integration_name(), "http");
}

#[test]
fn homebridge_plans() {
    assert_eq!(toggle_plan(true, true), DevicePlan::Switch(false));
    assert_eq!(toggle_plan(false, true), DevicePlan::Dim);
    assert_eq!(toggle_plan(false, false), DevicePlan::Switch(true));
    assert_eq!(set_plan(true, None), DevicePlan::Dim);
    assert_eq!(set_plan(true, Some(false)), DevicePlan::Switch(false));
    assert_eq!(set_plan(false, Some(true)), DevicePlan::Switch(true));
    assert_eq!(set_plan(false, None), DevicePlan::Switch(false));
}

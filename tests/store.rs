use deck_server::layout::{build_layout, icon_requests, layout_message, prefetch_requests, WsActions};
use deck_server::manager::{
    connect_new, layout_profile, on_frame, resolve_press, Frame, FrameAction, PressError,
};
use deck_server::profiles::{
    get_actions_for_button_press, get_profile_by_name, Action, LookupError, Profile,
    ProfileButton, ProfileButtonPressed, SetButtonUI,
};
use deck_server::sessions::Registry;

fn light_options() -> serde_json::Value {
    let mut map = serde_json::Map::new();
    map.insert("light".to_string(), serde_json::Value::String("Lamp".to_string()));
    serde_json::Value::Object(map)
}

fn default_profile() -> Profile {
    Profile {
        name: "default".to_string(),
        buttons: vec![ProfileButton {
            states: Some(vec![SetButtonUI { image: Some("icon.png".to_string()), color: None }]),
            actions: vec![Action { action: "hue:toggle".to_string(), options: light_options() }],
        }],
    }
}

fn mixed_profile() -> Profile {
    Profile {
        name: "mixed".to_string(),
        buttons: vec![
            ProfileButton {
                states: Some(vec![SetButtonUI {
                    image: Some("a.png".to_string()),
                    color: Some("FF0000".to_string()),
                }]),
                actions: vec![],
            },
            ProfileButton { states: None, actions: vec![] },
            ProfileButton {
                states: Some(vec![SetButtonUI { image: None, color: Some("00FF00".to_string()) }]),
                actions: vec![],
            },
        ],
    }
}

#[test]
fn press_without_profile_uses_active_profile() {
    let profiles = vec![default_profile()];
    let mut reg = Registry::new();
    reg.connect(5, "default".to_string());
    let pressed = ProfileButtonPressed { profile: None, button: 0 };
    let actions = resolve_press(&reg, &profiles, 5, pressed).unwrap();
    assert!(std::ptr::eq(actions, &profiles[0].buttons[0].actions));
    assert_eq!(actions.len(), 1);
    assert_eq!(actions[0].action, "hue:toggle");
    assert_eq!(actions[0].options, light_options());
}

#[test]
fn press_errors() {
    let profiles = vec![default_profile()];
    let mut reg = Registry::new();
    reg.connect(5, "default".to_string());
    let r = resolve_press(&reg, &profiles, 6, ProfileButtonPressed { profile: None, button: 0 });
    assert_eq!(r.err(), Some(PressError::SessionNotFound));
    let r = resolve_press(&reg, &profiles, 5, ProfileButtonPressed { profile: None, button: 1 });
    assert_eq!(r.err(), Some(PressError::Lookup(LookupError::UnknownButton)));
    let pressed = ProfileButtonPressed { profile: Some("gone".to_string()), button: 0 };
    let r = resolve_press(&reg, &profiles, 5, pressed);
    assert_eq!(r.err(), Some(PressError::Lookup(LookupError::UnknownProfile)));
}

#[test]
fn lookup_by_name() {
    let profiles = vec![default_profile(), mixed_profile()];
    assert_eq!(get_profile_by_name(&profiles, "mixed".to_string()).unwrap().buttons.len(), 3);
    assert!(get_profile_by_name(&profiles, "none".to_string()).is_none());
    let none = ProfileButtonPressed { profile: None, button: 0 };
    assert_eq!(get_actions_for_button_press(&profiles, none).err(), Some(LookupError::UnknownProfile));
    let ok = ProfileButtonPressed { profile: Some("default".to_string()), button: 0 };
    assert_eq!(get_actions_for_button_press(&profiles, ok).unwrap().len(), 1);
}

#[test]
fn layout_has_one_entry_per_button() {
    let p = mixed_profile();
    let requests = icon_requests(&p);
    assert_eq!(requests.len(), 3);
    assert_eq!(requests[0], Some(("a.png".to_string(), Some("FF0000".to_string()))));
    assert_eq!(requests[1], None);
    assert_eq!(requests[2], None);
    let layout = build_layout(&p, vec![Some("QUJD".to_string()), None, None]);
    assert_eq!(layout.len(), 3);
    assert_eq!(layout[0].image, Some("QUJD".to_string()));
    assert_eq!(layout[0].color, Some("FF0000".to_string()));
    assert_eq!(layout[1].image, None);
    assert_eq!(layout[1].color, None);
    assert_eq!(layout[2].color, Some("00FF00".to_string()));
    match layout_message(&p, vec![None, None, None]) {
        WsActions::SetButtons { buttons } => assert_eq!(buttons.len(), 3),
        _ => panic!("expected a full layout"),
    }
}

#[test]
fn message_type_names() {
    let m = WsActions::ButtonPressed { profile: None, button: 1 };
    assert_eq!(m.type_string(), "Button Pressed");
    assert_eq!(WsActions::SetButtons { buttons: vec![] }.type_string(), "Set Buttons");
    let b = SetButtonUI { image: None, color: None };
    assert_eq!(WsActions::SetButton { index: 0, button: b }.type_string(), "Set Button");
}

#[test]
fn registry_connect_and_disconnect() {
    let mut reg = Registry::new();
    let a = connect_new(&mut reg, "default".to_string()).unwrap();
    let b = connect_new(&mut reg, "default".to_string()).unwrap();
    assert_ne!(a, b);
    assert_eq!(reg.active_profile(a), Some("default".to_string()));
    assert!(reg.set_profile(b, "other".to_string()));
    assert!(!reg.set_profile(99, "other".to_string()));
    let mut ids = reg.ids();
    ids.sort();
    let mut expected = vec![a, b];
    expected.sort();
    assert_eq!(ids, expected);
    reg.disconnect(a);
    assert_eq!(reg.active_profile(a), None);
    assert_eq!(reg.active_profile(b), Some("other".to_string()));
    assert_eq!(reg.ids(), vec![b]);
    assert!(reg.contains(b));
    assert!(!reg.contains(a));
}

#[test]
fn layout_profile_falls_back_to_default() {
    let profiles = vec![default_profile(), mixed_profile()];
    let mut reg = Registry::new();
    reg.connect(1, "mixed".to_string());
    reg.connect(2, "removed".to_string());
    assert_eq!(layout_profile(&reg, &profiles, 1, "default".to_string()).unwrap().name, "mixed");
    assert_eq!(layout_profile(&reg, &profiles, 2, "default".to_string()).unwrap().name, "default");
    assert!(layout_profile(&reg, &profiles, 3, "default".to_string()).is_none());
}

#[test]
fn prefetch_lists_every_icon_state() {
    let mut second = mixed_profile();
    second.buttons[1].states = Some(vec![
        SetButtonUI { image: Some("b.png".to_string()), color: None },
        SetButtonUI { image: None, color: None },
        SetButtonUI { image: Some("c.png".to_string()), color: Some("0000FF".to_string()) },
    ]);
    let profiles = vec![default_profile(), second];
    let r = prefetch_requests(&profiles);
    assert_eq!(
        r,
        vec![
            ("icon.png".to_string(), None),
            ("a.png".to_string(), Some("FF0000".to_string())),
            ("b.png".to_string(), None),
            ("c.png".to_string(), Some("0000FF".to_string())),
        ]
    );
    assert!(prefetch_requests(&vec![]).is_empty());
}

#[test]
fn ingress_frames() {
    assert!(matches!(on_frame(Frame::Control), FrameAction::Ignore));
    assert!(matches!(on_frame(Frame::Other), FrameAction::Drop));
    assert!(matches!(on_frame(Frame::Closed), FrameAction::Disconnect));
    match on_frame(Frame::Text("{\"button\":0}".to_string())) {
        FrameAction::Handle(t) => assert_eq!(t, "{\"button\":0}"),
        _ => panic!("expected the text to be handled"),
    }
}

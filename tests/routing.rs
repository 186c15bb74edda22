use deck_server::actions::split_action_name;
use deck_server::profiles::{Action, Profile, ProfileButton, SetButtonUI};
use deck_server::router::{
    apply_profile_set, plan_action, reply_text, request_outcome, DispatchTable, Plan, ReplyWait,
    RequestError, RequestRun, RouterError, Step,
};
use deck_server::sessions::Registry;

fn options(pairs: &[(&str, &str)]) -> serde_json::Value {
    let mut map = serde_json::Map::new();
    for (k, v) in pairs {
        map.insert(k.to_string(), serde_json::Value::String(v.to_string()));
    }
    serde_json::Value::Object(map)
}

fn action(name: &str, pairs: &[(&str, &str)]) -> Action {
    Action { action: name.to_string(), options: options(pairs) }
}

fn profile(name: &str, buttons: usize) -> Profile {
    let mut bs = Vec::new();
    for i in 0..buttons {
        bs.push(ProfileButton {
            states: Some(vec![SetButtonUI { image: Some(format!("icon{}.png", i)), color: None }]),
            actions: vec![action("hue:toggle", &[("light", "Lamp")])],
        });
    }
    Profile { name: name.to_string(), buttons: bs }
}

fn table(names: &[&str]) -> DispatchTable {
    let mut t = DispatchTable::new();
    for n in names {
        t.add_integration(n.to_string());
    }
    t
}

#[test]
fn split_at_first_separator() {
    assert_eq!(split_action_name("hue:toggle"), Some(("hue".to_string(), "toggle".to_string())));
    assert_eq!(split_action_name("x:y"), Some(("x".to_string(), "y".to_string())));
    assert_eq!(split_action_name("a:b:c"), Some(("a".to_string(), "b:c".to_string())));
    assert_eq!(split_action_name(":"), Some((String::new(), String::new())));
}

#[test]
fn split_without_separator() {
    assert_eq!(split_action_name("huetoggle"), None);
    assert_eq!(split_action_name(""), None);
}

#[test]
fn malformed_name_is_never_dispatched() {
    let t = table(&["hue"]);
    let profiles = vec![profile("default", 1)];
    let mut reg = Registry::new();
    let mut run = RequestRun::new(None, vec![action("huetoggle", &[])]);
    match run.step(&t, &profiles, &mut reg) {
        Step::Finished(Err(RouterError::MalformedAction(n))) => assert_eq!(n, "huetoggle"),
        _ => panic!("expected a malformed action"),
    }
}

#[test]
fn unknown_integration_scenario() {
    let t = table(&["hue2"]);
    let profiles = vec![profile("default", 1)];
    let mut reg = Registry::new();
    let mut run = RequestRun::new(None, vec![action("hue:toggle", &[("light", "Lamp")])]);
    let result = match run.step(&t, &profiles, &mut reg) {
        Step::Finished(r) => r,
        _ => panic!("expected the request to finish"),
    };
    match &result {
        Err(RouterError::UnknownIntegration(n)) => assert_eq!(n, "hue"),
        _ => panic!("expected an unknown integration"),
    }
    let reply = reply_text(&result);
    assert!(reply.contains("unknown integration"));
    assert_eq!(reply, "error executing request: unknown integration hue");
}

#[test]
fn unknown_integration_named_hue2() {
    let t = table(&["hue"]);
    match plan_action(&t, "hue2:toggle", None, None) {
        Plan::Fail(RouterError::UnknownIntegration(n)) => assert_eq!(n, "hue2"),
        _ => panic!("expected an unknown integration"),
    }
}

#[test]
fn dispatch_injects_action_name() {
    let t = table(&["http", "hue"]);
    let profiles = vec![profile("default", 1)];
    let mut reg = Registry::new();
    let mut run = RequestRun::new(None, vec![action("hue:toggle", &[("light", "Lamp")])]);
    match run.step(&t, &profiles, &mut reg) {
        Step::Dispatch { slot, action, options } => {
            assert_eq!(slot, 1);
            assert_eq!(action, "toggle");
            assert_eq!(options.get("action").and_then(|v| v.as_str()), Some("toggle"));
            assert_eq!(options.get("light").and_then(|v| v.as_str()), Some("Lamp"));
        }
        _ => panic!("expected a dispatch"),
    }
    run.record_outcome(Ok(()));
    match run.step(&t, &profiles, &mut reg) {
        Step::Finished(Ok(())) => {}
        _ => panic!("expected success"),
    }
    assert_eq!(reply_text(&Ok(())), "success");
}

#[test]
fn non_object_options_are_malformed() {
    let t = table(&["hue"]);
    let profiles = vec![profile("default", 1)];
    let mut reg = Registry::new();
    let a = Action { action: "hue:toggle".to_string(), options: serde_json::Value::Bool(true) };
    let mut run = RequestRun::new(None, vec![a]);
    match run.step(&t, &profiles, &mut reg) {
        Step::Finished(Err(RouterError::MalformedAction(n))) => assert_eq!(n, "hue:toggle"),
        _ => panic!("expected a malformed action"),
    }
}

#[test]
fn integration_error_stops_the_request() {
    let t = table(&["hue"]);
    let profiles = vec![profile("default", 1)];
    let mut reg = Registry::new();
    let mut run = RequestRun::new(None, vec![action("hue:toggle", &[]), action("hue:set", &[])]);
    assert!(matches!(run.step(&t, &profiles, &mut reg), Step::Dispatch { .. }));
    run.record_outcome(Err("device offline".to_string()));
    let result = match run.step(&t, &profiles, &mut reg) {
        Step::Finished(r) => r,
        _ => panic!("expected the request to finish"),
    };
    assert_eq!(reply_text(&result), "error executing request: integration error: device offline");
    assert_eq!(run.next, 1);
}

#[test]
fn profile_set_switches_only_the_requestor() {
    let t = table(&["hue"]);
    let profiles = vec![profile("default", 2), profile("other", 1)];
    let mut reg = Registry::new();
    reg.connect(1, "default".to_string());
    reg.connect(2, "default".to_string());
    let mut run = RequestRun::new(Some(1), vec![action("profile:set", &[("profile", "other")])]);
    match run.step(&t, &profiles, &mut reg) {
        Step::Render(id) => assert_eq!(id, 1),
        _ => panic!("expected a render of the requestor"),
    }
    assert_eq!(reg.active_profile(1), Some("other".to_string()));
    assert_eq!(reg.active_profile(2), Some("default".to_string()));
    match run.step(&t, &profiles, &mut reg) {
        Step::Finished(Ok(())) => {}
        _ => panic!("expected success"),
    }
}

#[test]
fn profile_set_unknown_profile() {
    let t = table(&[]);
    let profiles = vec![profile("default", 1)];
    let mut reg = Registry::new();
    reg.connect(7, "default".to_string());
    let mut run = RequestRun::new(Some(7), vec![action("profile:set", &[("profile", "nope")])]);
    match run.step(&t, &profiles, &mut reg) {
        Step::Finished(Err(RouterError::UnknownProfile(n))) => assert_eq!(n, "nope"),
        _ => panic!("expected an unknown profile"),
    }
    assert_eq!(reg.active_profile(7), Some("default".to_string()));
}

#[test]
fn profile_set_without_requestor() {
    let t = table(&[]);
    let profiles = vec![profile("default", 1)];
    let mut reg = Registry::new();
    let mut run = RequestRun::new(None, vec![action("profile:set", &[("profile", "default")])]);
    assert!(matches!(
        run.step(&t, &profiles, &mut reg),
        Step::Finished(Err(RouterError::SessionNotFound))
    ));
}

#[test]
fn profile_set_for_vanished_session() {
    let profiles = vec![profile("default", 1)];
    let mut reg = Registry::new();
    let r = apply_profile_set(&mut reg, &profiles, 3, "default".to_string());
    assert!(matches!(r, Err(RouterError::SessionNotFound)));
    assert_eq!(reg.active_profile(3), None);
}

#[test]
fn profile_unknown_action_and_missing_option() {
    let t = table(&[]);
    match plan_action(&t, "profile:get", Some(1), Some("default".to_string())) {
        Plan::Fail(RouterError::MalformedAction(n)) => assert_eq!(n, "profile:get"),
        _ => panic!("expected a malformed action"),
    }
    match plan_action(&t, "profile:set", Some(1), None) {
        Plan::Fail(RouterError::MalformedAction(n)) => assert_eq!(n, "profile:set"),
        _ => panic!("expected a malformed action"),
    }
}

#[test]
fn error_messages() {
    assert_eq!(RouterError::MalformedAction("x".to_string()).message(), "malformed action x");
    assert_eq!(RouterError::UnknownProfile("p".to_string()).message(), "unknown profile p");
    assert_eq!(RouterError::SessionNotFound.message(), "session not found");
}

#[test]
fn request_timeout() {
    assert_eq!(request_outcome(ReplyWait::TimedOut), Err(RequestError::Timeout));
    assert!(RequestError::Timeout.message().contains("may still complete"));
    assert_eq!(request_outcome(ReplyWait::Dropped), Err(RequestError::NoReply));
    assert_eq!(request_outcome(ReplyWait::Replied("success".to_string())), Ok("success".to_string()));
}

#[test]
fn table_keeps_slots() {
    let mut t = DispatchTable::new();
    assert_eq!(t.add_integration("hue".to_string()), 0);
    assert_eq!(t.add_integration("http".to_string()), 1);
    assert_eq!(t.add_integration("hue".to_string()), 0);
    assert_eq!(t.slot_of("http"), Some(1));
    assert_eq!(t.slot_of("airplay"), None);
}

use vstd::prelude::*;
use crate::profiles::{
    get_actions_for_button_press, get_profile_by_name, has_profile, is_first_named, Action,
    LookupError, Profile, ProfileButtonPressed,
};
use crate::sessions::Registry;

verus! {

/// Relies on uuid's `Uuid::new_v4` and `Uuid::as_u128`: a random version-4
/// identifier as an integer. Nothing is promised of its value.
#[verifier::external_body]
fn random_session_id() -> (r: u128) {
    uuid::Uuid::new_v4().as_u128()
}

/// How many random identifiers `connect_new` draws before it gives up.
pub const ID_ATTEMPTS: u32 = 8;

/// Registers a new session under a fresh random identifier, one that no
/// registered session holds, with the profile `default_profile`, and returns
/// the identifier. Where every identifier drawn is taken, nothing is
/// registered and `None` comes back.
pub fn connect_new(registry: &mut Registry, default_profile: String) -> (id: Option<u128>)
    ensures
        match id {
            Some(i) => !old(registry)@.contains_key(i) && final(registry)@ == old(registry)@.insert(
                i,
                default_profile@,
            ),
            None => final(registry)@ == old(registry)@,
        },
{
    let mut attempt: u32 = 0;
    while attempt < ID_ATTEMPTS
        invariant
            registry@ == old(registry)@,
        decreases ID_ATTEMPTS - attempt,
    {
        let id = random_session_id();
        if !registry.contains(id) {
            registry.connect(id, default_profile);
            return Some(id);
        }
        attempt = attempt + 1;
    }
    None
}

/// Why a button press from a session could not be resolved.
#[derive(Debug, PartialEq, Eq, Structural)]
pub enum PressError {
    /// The session is not registered.
    SessionNotFound,
    /// The profile or the button does not exist.
    Lookup(LookupError),
}

/// The profile that a press from the session `id` refers to: the one it
/// names, else the session's active profile.
pub open spec fn press_profile(
    pressed: ProfileButtonPressed,
    registry: Map<u128, Seq<char>>,
    id: u128,
) -> Seq<char> {
    match pressed.profile {
        Some(p) => p@,
        None => registry[id],
    }
}

/// Resolves a press from the session `id`: a press that names no profile
/// refers to the session's active profile. Returns the pressed button's action
/// list, unchanged.
pub fn resolve_press<'a>(
    registry: &Registry,
    profiles: &'a Vec<Profile>,
    id: u128,
    pressed: ProfileButtonPressed,
) -> (r: Result<&'a Vec<Action>, PressError>)
    ensures
        pressed.profile is None && !registry@.contains_key(id) ==> r == Err::<
            &Vec<Action>,
            PressError,
        >(PressError::SessionNotFound),
        ({
            let name = press_profile(pressed, registry@, id);
            (pressed.profile is Some || registry@.contains_key(id)) ==> {
                &&& !has_profile(profiles@, name) ==> r == Err::<&Vec<Action>, PressError>(
                    PressError::Lookup(LookupError::UnknownProfile),
                )
                &&& forall|k: int| #[trigger]
                    is_first_named(profiles@, name, k) ==> if pressed.button
                        < profiles@[k].buttons@.len() {
                        r == Ok::<&Vec<Action>, PressError>(
                            &profiles@[k].buttons@[pressed.button as int].actions,
                        )
                    } else {
                        r == Err::<&Vec<Action>, PressError>(
                            PressError::Lookup(LookupError::UnknownButton),
                        )
                    }
            }
        }),
{
    let profile = match pressed.profile {
        Some(p) => p,
        None => match registry.active_profile(id) {
            Some(p) => p,
            None => return Err(PressError::SessionNotFound),
        },
    };
    let filled = ProfileButtonPressed { profile: Some(profile), button: pressed.button };
    match get_actions_for_button_press(profiles, filled) {
        Ok(actions) => Ok(actions),
        Err(e) => Err(PressError::Lookup(e)),
    }
}

/// The profile to lay out for the session `id`: its active profile where that
/// exists, else the profile `default_profile`; `None` where the session is not
/// registered or neither profile exists.
pub fn layout_profile<'a>(
    registry: &Registry,
    profiles: &'a Vec<Profile>,
    id: u128,
    default_profile: String,
) -> (r: Option<&'a Profile>)
    ensures
        !registry@.contains_key(id) ==> r is None,
        registry@.contains_key(id) && has_profile(profiles@, registry@[id]) ==> (r matches Some(p)
            && exists|k: int| is_first_named(profiles@, registry@[id], k) && *p == profiles@[k]),
        registry@.contains_key(id) && !has_profile(profiles@, registry@[id]) ==> {
            &&& r is None <==> !has_profile(profiles@, default_profile@)
            &&& r matches Some(p) ==> exists|k: int|
                is_first_named(profiles@, default_profile@, k) && *p == profiles@[k]
        },
{
    let active = match registry.active_profile(id) {
        Some(p) => p,
        None => return None,
    };
    match get_profile_by_name(profiles, active) {
        Some(p) => Some(p),
        None => get_profile_by_name(profiles, default_profile),
    }
}

/// An event of a client's transport, as the ingress loop reads it.
pub enum Frame {
    /// A protocol-level ping or pong.
    Control,
    /// A text frame.
    Text(String),
    /// A frame of any other kind.
    Other,
    /// The transport closed or a read failed.
    Closed,
}

/// What the ingress loop does with a frame.
pub enum FrameAction {
    /// Acknowledged by the transport; nothing else to do.
    Ignore,
    /// Dropped with a diagnostic.
    Drop,
    /// Parsed as a button press and handled.
    Handle(String),
    /// The session ends.
    Disconnect,
}

/// The ingress rule of an active session: control frames are ignored, frames
/// that are not text are dropped, text is handled, and closure ends the
/// session.
pub fn on_frame(frame: Frame) -> (r: FrameAction)
    ensures
        match frame {
            Frame::Control => r is Ignore,
            Frame::Other => r is Drop,
            Frame::Closed => r is Disconnect,
            Frame::Text(t) => r == FrameAction::Handle(t),
        },
{
    match frame {
        Frame::Control => FrameAction::Ignore,
        Frame::Other => FrameAction::Drop,
        Frame::Closed => FrameAction::Disconnect,
        Frame::Text(t) => FrameAction::Handle(t),
    }
}

} // verus!

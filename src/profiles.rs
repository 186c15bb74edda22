use vstd::prelude::*;

verus! {

/// One action of a button: a qualified name such as `hue:toggle` and the
/// options handed to the integration.
#[derive(Clone)]
pub struct Action {
    pub action: String,
    pub options: serde_json::Value,
}

/// What a button shows: an icon reference (a path or a URL) and an overlay
/// colour in `RRGGBB` hex. The same shape is sent to clients once the icon has
/// been rendered, with the encoded image in place of the reference.
#[derive(Clone)]
pub struct SetButtonUI {
    pub image: Option<String>,
    pub color: Option<String>,
}

/// The display state of a configured button.
pub type ButtonState = SetButtonUI;

/// A button of a profile: its display states (only the first is shown) and
/// the actions that a press runs, in order.
pub struct ProfileButton {
    pub states: Option<Vec<SetButtonUI>>,
    pub actions: Vec<Action>,
}

/// A named, ordered set of buttons.
pub struct Profile {
    pub name: String,
    pub buttons: Vec<ProfileButton>,
}

/// A press of the button at index `button` of a profile. Without a profile the
/// press refers to the presser's active profile.
#[derive(Clone)]
pub struct ProfileButtonPressed {
    pub profile: Option<String>,
    pub button: usize,
}

/// Why a profile or a button could not be resolved.
#[derive(Clone, Debug, PartialEq, Eq, Structural)]
pub enum LookupError {
    UnknownProfile,
    UnknownButton,
}

/// True when some profile of `profiles` is named `name`.
pub open spec fn has_profile(profiles: Seq<Profile>, name: Seq<char>) -> bool {
    exists|k: int| 0 <= k < profiles.len() && (#[trigger] profiles[k]).name@ == name
}

/// `k` is the first position of `profiles` that holds a profile named `name`.
pub open spec fn is_first_named(profiles: Seq<Profile>, name: Seq<char>, k: int) -> bool {
    &&& 0 <= k < profiles.len()
    &&& profiles[k].name@ == name
    &&& forall|j: int| 0 <= j < k ==> (#[trigger] profiles[j]).name@ != name
}

/// Looks a profile up by name: the first profile of that name, or `None`
/// where there is none.
pub fn get_profile_by_name(profiles: &Vec<Profile>, name: String) -> (r: Option<&Profile>)
    ensures
        r is None <==> !has_profile(profiles@, name@),
        r matches Some(p) ==> exists|k: int| is_first_named(profiles@, name@, k) && *p == profiles@[k],
{
    let mut k: usize = 0;
    while k < profiles.len()
        invariant
            k <= profiles@.len(),
            forall|j: int| 0 <= j < k ==> (#[trigger] profiles@[j]).name@ != name@,
        decreases profiles@.len() - k,
    {
        if profiles[k].name == name {
            assert(is_first_named(profiles@, name@, k as int));
            return Some(&profiles[k]);
        }
        k = k + 1;
    }
    None
}

impl Profile {
    /// The button at position `index`, or `UnknownButton` past the end.
    pub fn button(&self, index: usize) -> (r: Result<&ProfileButton, LookupError>)
        ensures
            index < self.buttons@.len() ==> r == Ok::<&ProfileButton, LookupError>(
                &self.buttons@[index as int],
            ),
            index >= self.buttons@.len() ==> r == Err::<&ProfileButton, LookupError>(
                LookupError::UnknownButton,
            ),
    {
        if index < self.buttons.len() {
            Ok(&self.buttons[index])
        } else {
            Err(LookupError::UnknownButton)
        }
    }
}

/// Resolves a press to the action list of the pressed button, unchanged.
/// A press that names no profile, or an unknown one, gives `UnknownProfile`; an
/// index past the profile's last button gives `UnknownButton`.
pub fn get_actions_for_button_press(
    profiles: &Vec<Profile>,
    profile_button_pressed: ProfileButtonPressed,
) -> (r: Result<&Vec<Action>, LookupError>)
    ensures
        match profile_button_pressed.profile {
            None => r == Err::<&Vec<Action>, LookupError>(LookupError::UnknownProfile),
            Some(name) => {
                &&& !has_profile(profiles@, name@) ==> r == Err::<&Vec<Action>, LookupError>(
                    LookupError::UnknownProfile,
                )
                &&& forall|k: int| #[trigger]
                    is_first_named(profiles@, name@, k) ==> if profile_button_pressed.button
                        < profiles@[k].buttons@.len() {
                        r == Ok::<&Vec<Action>, LookupError>(
                            &profiles@[k].buttons@[profile_button_pressed.button as int].actions,
                        )
                    } else {
                        r == Err::<&Vec<Action>, LookupError>(LookupError::UnknownButton)
                    }
            },
        },
{
    let name = match profile_button_pressed.profile {
        Some(name) => name,
        None => return Err(LookupError::UnknownProfile),
    };
    let profile = match get_profile_by_name(profiles, name) {
        Some(profile) => profile,
        None => return Err(LookupError::UnknownProfile),
    };
    proof {
        assert forall|k1: int, k2: int|
            is_first_named(profiles@, name@, k1) && is_first_named(profiles@, name@, k2) implies k1
            == k2 by {
            if k1 < k2 {
                assert(profiles@[k1].name@ == name@);
            } else if k2 < k1 {
                assert(profiles@[k2].name@ == name@);
            }
        }
    }
    match profile.button(profile_button_pressed.button) {
        Ok(button) => Ok(&button.actions),
        Err(e) => Err(e),
    }
}

} // verus!

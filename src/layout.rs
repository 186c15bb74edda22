use vstd::prelude::*;
use crate::profiles::{Profile, ProfileButton, SetButtonUI};
use crate::text::opt_view;

verus! {

/// The shown state of a button: its first display state, if it has one.
pub open spec fn shown_state(b: ProfileButton) -> Option<SetButtonUI> {
    match b.states {
        Some(v) => if v@.len() > 0 {
            Some(v@[0])
        } else {
            None
        },
        None => None,
    }
}

/// The icon reference of a button's shown state, if any.
pub open spec fn icon_of(b: ProfileButton) -> Option<Seq<char>> {
    match shown_state(b) {
        Some(st) => match st.image {
            Some(i) => Some(i@),
            None => None,
        },
        None => None,
    }
}

/// The overlay colour of a button's shown state, if any.
pub open spec fn color_of(b: ProfileButton) -> Option<Seq<char>> {
    match shown_state(b) {
        Some(st) => match st.color {
            Some(c) => Some(c@),
            None => None,
        },
        None => None,
    }
}

fn copy_opt(o: &Option<String>) -> (r: Option<String>)
    ensures
        opt_view(r) == opt_view(*o),
{
    match o {
        Some(s) => Some(s.clone()),
        None => None,
    }
}

/// A message exchanged with a client.
#[allow(inconsistent_fields)]
pub enum WsActions {
    /// A client pressed a button, of the named profile or of its active one.
    ButtonPressed { profile: Option<String>, button: u8 },
    /// The full layout: one entry per button of the active profile, in order.
    SetButtons { buttons: Vec<SetButtonUI> },
    /// The state of a single button.
    SetButton { index: u8, button: SetButtonUI },
}

impl WsActions {
    /// A human-readable name of the message's kind.
    pub fn type_string(&self) -> (r: String)
        ensures
            r@ == match *self {
                WsActions::ButtonPressed { .. } => "Button Pressed"@,
                WsActions::SetButtons { .. } => "Set Buttons"@,
                WsActions::SetButton { .. } => "Set Button"@,
            },
    {
        match self {
            WsActions::ButtonPressed { .. } => String::from_str("Button Pressed"),
            WsActions::SetButtons { .. } => String::from_str("Set Buttons"),
            WsActions::SetButton { .. } => String::from_str("Set Button"),
        }
    }
}

/// The icon and overlay colour to render for each button of `profile`, in
/// order: `None` for a button with no icon, which is not rendered at all.
pub fn icon_requests(profile: &Profile) -> (r: Vec<Option<(String, Option<String>)>>)
    ensures
        r@.len() == profile.buttons@.len(),
        forall|i: int|
            0 <= i < r@.len() ==> match #[trigger] r@[i] {
                Some((icon, color)) => icon_of(profile.buttons@[i]) == Some(icon@) && opt_view(
                    color,
                ) == color_of(profile.buttons@[i]),
                None => icon_of(profile.buttons@[i]) is None,
            },
{
    let mut r: Vec<Option<(String, Option<String>)>> = Vec::new();
    let mut k: usize = 0;
    while k < profile.buttons.len()
        invariant
            k <= profile.buttons@.len(),
            r@.len() == k,
            forall|i: int|
                0 <= i < k ==> match #[trigger] r@[i] {
                    Some((icon, color)) => icon_of(profile.buttons@[i]) == Some(icon@) && opt_view(
                        color,
                    ) == color_of(profile.buttons@[i]),
                    None => icon_of(profile.buttons@[i]) is None,
                },
        decreases profile.buttons@.len() - k,
    {
        let button = &profile.buttons[k];
        let request = match &button.states {
            Some(states) => if states.len() > 0 {
                match &states[0].image {
                    Some(icon) => Some((icon.clone(), copy_opt(&states[0].color))),
                    None => None,
                }
            } else {
                None
            },
            None => None,
        };
        r.push(request);
        k = k + 1;
    }
    r
}

/// The layout of `profile`: for each button, in order, the rendered icon given
/// for it in `icons` (none where it has no icon or its render failed) and the
/// overlay colour of its shown state.
pub fn build_layout(profile: &Profile, icons: Vec<Option<String>>) -> (r: Vec<SetButtonUI>)
    requires
        icons@.len() == profile.buttons@.len(),
    ensures
        r@.len() == profile.buttons@.len(),
        forall|i: int|
            0 <= i < r@.len() ==> opt_view((#[trigger] r@[i]).image) == opt_view(icons@[i])
                && opt_view(r@[i].color) == color_of(profile.buttons@[i]),
{
    let mut r: Vec<SetButtonUI> = Vec::new();
    let mut k: usize = 0;
    while k < profile.buttons.len()
        invariant
            k <= profile.buttons@.len(),
            icons@.len() == profile.buttons@.len(),
            r@.len() == k,
            forall|i: int|
                0 <= i < k ==> opt_view((#[trigger] r@[i]).image) == opt_view(icons@[i]) && opt_view(
                    r@[i].color,
                ) == color_of(profile.buttons@[i]),
        decreases profile.buttons@.len() - k,
    {
        let button = &profile.buttons[k];
        let color = match &button.states {
            Some(states) => if states.len() > 0 {
                copy_opt(&states[0].color)
            } else {
                None
            },
            None => None,
        };
        let image = copy_opt(&icons[k]);
        r.push(SetButtonUI { image, color });
        k = k + 1;
    }
    r
}

/// The message that pushes the layout of `profile` to a client.
pub fn layout_message(profile: &Profile, icons: Vec<Option<String>>) -> (m: WsActions)
    requires
        icons@.len() == profile.buttons@.len(),
    ensures
        m matches WsActions::SetButtons { buttons } && buttons@.len() == profile.buttons@.len()
            && forall|i: int|
            0 <= i < buttons@.len() ==> opt_view((#[trigger] buttons@[i]).image) == opt_view(
                icons@[i],
            ) && opt_view(buttons@[i].color) == color_of(profile.buttons@[i]),
{
    WsActions::SetButtons { buttons: build_layout(profile, icons) }
}

/// An icon to render: its reference and its overlay colour.
pub type IconRequest = (String, Option<String>);

/// The view of icon requests.
pub open spec fn requests_view(r: Seq<IconRequest>) -> Seq<(Seq<char>, Option<Seq<char>>)> {
    r.map_values(|q: IconRequest| (q.0@, opt_view(q.1)))
}

/// The display states of a button.
pub open spec fn states_of(b: ProfileButton) -> Seq<SetButtonUI> {
    match b.states {
        Some(v) => v@,
        None => Seq::empty(),
    }
}

/// The icons of the display states `ss`, in order, skipping states without
/// an icon.
pub open spec fn requests_of_states(ss: Seq<SetButtonUI>) -> Seq<(Seq<char>, Option<Seq<char>>)>
    decreases ss.len(),
{
    if ss.len() == 0 {
        Seq::empty()
    } else {
        let rest = requests_of_states(ss.drop_last());
        match ss.last().image {
            Some(i) => rest.push((i@, opt_view(ss.last().color))),
            None => rest,
        }
    }
}

/// The icons of every display state of the buttons `bs`, in order.
pub open spec fn requests_of_buttons(bs: Seq<ProfileButton>) -> Seq<(Seq<char>, Option<Seq<char>>)>
    decreases bs.len(),
{
    if bs.len() == 0 {
        Seq::empty()
    } else {
        requests_of_buttons(bs.drop_last()) + requests_of_states(states_of(bs.last()))
    }
}

/// The icons of every display state of every button of the profiles `ps`, in
/// order.
pub open spec fn requests_of_profiles(ps: Seq<Profile>) -> Seq<(Seq<char>, Option<Seq<char>>)>
    decreases ps.len(),
{
    if ps.len() == 0 {
        Seq::empty()
    } else {
        requests_of_profiles(ps.drop_last()) + requests_of_buttons(ps.last().buttons@)
    }
}

/// Every icon that the profiles can show, in any display state, in the order
/// of profiles, buttons and states: what is worth rendering before the first
/// client asks for it.
pub fn prefetch_requests(profiles: &Vec<Profile>) -> (r: Vec<IconRequest>)
    ensures
        requests_view(r@) == requests_of_profiles(profiles@),
{
    let mut r: Vec<IconRequest> = Vec::new();
    let mut i: usize = 0;
    while i < profiles.len()
        invariant
            i <= profiles@.len(),
            requests_view(r@) == requests_of_profiles(profiles@.take(i as int)),
        decreases profiles@.len() - i,
    {
        let buttons = &profiles[i].buttons;
        let ghost done_profiles = requests_of_profiles(profiles@.take(i as int));
        let mut j: usize = 0;
        while j < buttons.len()
            invariant
                j <= buttons@.len(),
                requests_view(r@) == done_profiles + requests_of_buttons(buttons@.take(j as int)),
            decreases buttons@.len() - j,
        {
            let ghost done_buttons = done_profiles + requests_of_buttons(buttons@.take(j as int));
            match &buttons[j].states {
                Some(states) => {
                    let mut k: usize = 0;
                    while k < states.len()
                        invariant
                            k <= states@.len(),
                            requests_view(r@) == done_buttons + requests_of_states(
                                states@.take(k as int),
                            ),
                        decreases states@.len() - k,
                    {
                        let ghost before = r@;
                        assert(states@.take(k + 1).drop_last() =~= states@.take(k as int));
                        match &states[k].image {
                            Some(image) => {
                                r.push((image.clone(), copy_opt(&states[k].color)));
                                assert(requests_view(r@) =~= requests_view(before).push(
                                    (image@, opt_view(states@[k as int].color)),
                                ));
                            },
                            None => {},
                        }
                        k = k + 1;
                    }
                    assert(states@.take(states@.len() as int) =~= states@);
                },
                None => {
                    assert(requests_of_states(Seq::<SetButtonUI>::empty()) =~= Seq::empty());
                    assert(requests_view(r@) =~= done_buttons + Seq::empty());
                },
            }
            assert(buttons@.take(j + 1).drop_last() =~= buttons@.take(j as int));
            assert(requests_view(r@) =~= done_profiles + requests_of_buttons(
                buttons@.take(j + 1),
            ));
            j = j + 1;
        }
        assert(buttons@.take(buttons@.len() as int) =~= buttons@);
        assert(profiles@.take(i + 1).drop_last() =~= profiles@.take(i as int));
        i = i + 1;
    }
    assert(profiles@.take(profiles@.len() as int) =~= profiles@);
    r
}

} // verus!

use vstd::prelude::*;
use crate::actions::{
    action_part, integration_part, lemma_split_unique, no_separator, split_action_name,
};
use crate::json::{
    json_is_object, json_text_field, json_with_text, string_field, with_string_field,
};
use crate::profiles::{get_profile_by_name, has_profile, Action, Profile};
use crate::sessions::Registry;
use crate::text::{joined, str_eq};

verus! {

/// Why an execution request failed.
#[derive(Debug)]
pub enum RouterError {
    /// A qualified name without separator, an unknown action of the profile
    /// integration, or options of the wrong shape; holds the qualified name.
    MalformedAction(String),
    /// No integration of this name is registered.
    UnknownIntegration(String),
    /// A profile switch named a profile that does not exist.
    UnknownProfile(String),
    /// A profile switch came without a requestor, or its session is gone.
    SessionNotFound,
    /// The integration reported a failure.
    IntegrationError(String),
}

/// The text that describes an error to the submitter of a request.
pub open spec fn error_text(e: RouterError) -> Seq<char> {
    match e {
        RouterError::MalformedAction(n) => "malformed action "@ + n@,
        RouterError::UnknownIntegration(n) => "unknown integration "@ + n@,
        RouterError::UnknownProfile(n) => "unknown profile "@ + n@,
        RouterError::SessionNotFound => "session not found"@,
        RouterError::IntegrationError(m) => "integration error: "@ + m@,
    }
}

/// The reply that a request receives once the router is done with it.
pub open spec fn reply_spec(r: Result<(), RouterError>) -> Seq<char> {
    match r {
        Ok(_) => "success"@,
        Err(e) => "error executing request: "@ + error_text(e),
    }
}

impl RouterError {
    /// A short description of the error.
    pub fn message(&self) -> (r: String)
        ensures
            r@ == error_text(*self),
    {
        match self {
            RouterError::MalformedAction(n) => joined("malformed action ", n.as_str()),
            RouterError::UnknownIntegration(n) => joined("unknown integration ", n.as_str()),
            RouterError::UnknownProfile(n) => joined("unknown profile ", n.as_str()),
            RouterError::SessionNotFound => String::from_str("session not found"),
            RouterError::IntegrationError(m) => joined("integration error: ", m.as_str()),
        }
    }
}

/// The status text sent back for the result of a request.
pub fn reply_text(r: &Result<(), RouterError>) -> (s: String)
    ensures
        s@ == reply_spec(*r),
{
    match r {
        Ok(_) => String::from_str("success"),
        Err(e) => {
            let m = e.message();
            joined("error executing request: ", m.as_str())
        },
    }
}

/// The names of the registered integrations; an integration is addressed by
/// its slot, the position of its name.
pub struct DispatchTable {
    names: Vec<String>,
}

impl View for DispatchTable {
    type V = Seq<Seq<char>>;

    closed spec fn view(&self) -> Seq<Seq<char>> {
        self.names@.map_values(|n: String| n@)
    }
}

impl DispatchTable {
    /// No name is registered twice.
    pub closed spec fn wf(&self) -> bool {
        forall|i: int, j: int|
            0 <= i < self.names@.len() && 0 <= j < self.names@.len() && i != j ==> (
            #[trigger] self.names@[i])@ != (#[trigger] self.names@[j])@
    }

    /// A table without integrations.
    pub fn new() -> (r: DispatchTable)
        ensures
            r.wf(),
            r@ == Seq::<Seq<char>>::empty(),
    {
        let r = DispatchTable { names: Vec::new() };
        assert(r@ =~= Seq::<Seq<char>>::empty());
        r
    }

    /// The slot of the integration `name`, if it is registered.
    pub fn slot_of(&self, name: &str) -> (r: Option<usize>)
        requires
            self.wf(),
        ensures
            r is None <==> !self@.contains(name@),
            r matches Some(k) ==> k < self@.len() && self@[k as int] == name@,
    {
        let mut k: usize = 0;
        while k < self.names.len()
            invariant
                k <= self.names@.len(),
                self@.len() == self.names@.len(),
                forall|j: int| 0 <= j < k ==> self@[j] != name@,
            decreases self.names@.len() - k,
        {
            if str_eq(self.names[k].as_str(), name) {
                assert(self@[k as int] == name@);
                return Some(k);
            }
            k = k + 1;
        }
        assert(!self@.contains(name@));
        None
    }

    /// Registers the integration `name` and returns its slot. A name that is
    /// already registered keeps its slot (the integration there is replaced).
    pub fn add_integration(&mut self, name: String) -> (slot: usize)
        requires
            old(self).wf(),
        ensures
            final(self).wf(),
            old(self)@.contains(name@) ==> final(self)@ == old(self)@,
            !old(self)@.contains(name@) ==> final(self)@ == old(self)@.push(name@),
            slot < final(self)@.len(),
            final(self)@[slot as int] == name@,
    {
        match self.slot_of(name.as_str()) {
            Some(k) => k,
            None => {
                let ghost before = self.names@;
                let ghost n = name@;
                self.names.push(name);
                assert(self@ =~= old(self)@.push(n));
                assert forall|i: int, j: int|
                    0 <= i < self.names@.len() && 0 <= j < self.names@.len() && i != j implies (
                    #[trigger] self.names@[i])@ != (#[trigger] self.names@[j])@ by {
                    if i < before.len() && j < before.len() {
                    } else if i < before.len() {
                        assert(old(self)@[i] == self.names@[i]@);
                    } else {
                        assert(old(self)@[j] == self.names@[j]@);
                    }
                }
                (self.names.len() - 1) as usize
            },
        }
    }
}

/// What the router does with one action.
pub enum Plan {
    /// Run `action` on the integration at `slot`.
    Dispatch { slot: usize, action: String },
    /// Switch the session `session` to the profile `profile`.
    SetProfile { session: u128, profile: String },
    /// Stop the request with this error.
    Fail(RouterError),
}

/// Decides what to do with the qualified action name `name`, sent by
/// `requestor`, where `profile_option` is the text of the action's `profile`
/// option. Only the action `set` of the reserved integration `profile` is
/// legal, and it needs a requestor and a profile option; any other integration
/// must be registered in `table`.
pub fn plan_action(
    table: &DispatchTable,
    name: &str,
    requestor: Option<u128>,
    profile_option: Option<String>,
) -> (r: Plan)
    requires
        table.wf(),
    ensures
        no_separator(name@) ==> (r matches Plan::Fail(RouterError::MalformedAction(n)) && n@
            == name@),
        !no_separator(name@) && integration_part(name@) == "profile"@ ==> if action_part(name@)
            != "set"@ {
            r matches Plan::Fail(RouterError::MalformedAction(n)) && n@ == name@
        } else {
            match requestor {
                None => r matches Plan::Fail(RouterError::SessionNotFound),
                Some(id) => match profile_option {
                    None => r matches Plan::Fail(RouterError::MalformedAction(n)) && n@ == name@,
                    Some(p) => r matches Plan::SetProfile { session, profile } && session == id
                        && profile@ == p@,
                },
            }
        },
        !no_separator(name@) && integration_part(name@) != "profile"@ ==> if table@.contains(
            integration_part(name@),
        ) {
            r matches Plan::Dispatch { slot, action } && slot < table@.len() && table@[slot as int]
                == integration_part(name@) && action@ == action_part(name@)
        } else {
            r matches Plan::Fail(RouterError::UnknownIntegration(n)) && n@ == integration_part(
                name@,
            )
        },
{
    let (integration, action) = match split_action_name(name) {
        Some(parts) => parts,
        None => return Plan::Fail(RouterError::MalformedAction(name.to_string())),
    };
    proof {
        lemma_split_unique(name@, integration@, action@);
    }
    if str_eq(integration.as_str(), "profile") {
        if !str_eq(action.as_str(), "set") {
            return Plan::Fail(RouterError::MalformedAction(name.to_string()));
        }
        match requestor {
            None => Plan::Fail(RouterError::SessionNotFound),
            Some(id) => match profile_option {
                None => Plan::Fail(RouterError::MalformedAction(name.to_string())),
                Some(p) => Plan::SetProfile { session: id, profile: p },
            },
        }
    } else {
        match table.slot_of(integration.as_str()) {
            Some(slot) => Plan::Dispatch { slot, action },
            None => Plan::Fail(RouterError::UnknownIntegration(integration)),
        }
    }
}

/// The outcome of switching the session `id` to the profile `name`: the new
/// registry contents and whether the switch was made.
pub open spec fn profile_switch(
    registry: Map<u128, Seq<char>>,
    profiles: Seq<Profile>,
    id: u128,
    name: Seq<char>,
) -> (Map<u128, Seq<char>>, bool) {
    if has_profile(profiles, name) && registry.contains_key(id) {
        (registry.insert(id, name), true)
    } else {
        (registry, false)
    }
}

/// A switch to an existing profile, asked for by a registered session, makes
/// that profile the session's active one.
pub proof fn lemma_profile_switch_known(
    registry: Map<u128, Seq<char>>,
    profiles: Seq<Profile>,
    id: u128,
    name: Seq<char>,
)
    requires
        has_profile(profiles, name),
        registry.contains_key(id),
    ensures
        profile_switch(registry, profiles, id, name).1,
        profile_switch(registry, profiles, id, name).0[id] == name,
        profile_switch(registry, profiles, id, name).0.dom() == registry.dom(),
{
    assert(registry.insert(id, name).dom() =~= registry.dom());
}

/// A switch to a profile that does not exist changes no session.
pub proof fn lemma_profile_switch_unknown(
    registry: Map<u128, Seq<char>>,
    profiles: Seq<Profile>,
    id: u128,
    name: Seq<char>,
)
    requires
        !has_profile(profiles, name),
    ensures
        profile_switch(registry, profiles, id, name) == (registry, false),
{
}

/// A switch asked for by one session leaves every other session, and its
/// active profile, as it was.
pub proof fn lemma_profile_switch_leaves_others(
    registry: Map<u128, Seq<char>>,
    profiles: Seq<Profile>,
    a: u128,
    b: u128,
    name: Seq<char>,
)
    requires
        a != b,
    ensures
        profile_switch(registry, profiles, a, name).0.contains_key(b) == registry.contains_key(b),
        registry.contains_key(b) ==> profile_switch(registry, profiles, a, name).0[b] == registry[b],
{
}

/// Switches the session `id` to the profile `name`. An unknown profile gives
/// `UnknownProfile` and an unregistered session `SessionNotFound`; either way
/// the registry is left as it was.
pub fn apply_profile_set(
    registry: &mut Registry,
    profiles: &Vec<Profile>,
    id: u128,
    name: String,
) -> (r: Result<(), RouterError>)
    ensures
        final(registry)@ == profile_switch(old(registry)@, profiles@, id, name@).0,
        r is Ok == profile_switch(old(registry)@, profiles@, id, name@).1,
        !has_profile(profiles@, name@) ==> (r matches Err(RouterError::UnknownProfile(n)) && n@
            == name@),
        has_profile(profiles@, name@) && !old(registry)@.contains_key(id) ==> (r matches Err(
            RouterError::SessionNotFound,
        )),
{
    if get_profile_by_name(profiles, name.clone()).is_none() {
        return Err(RouterError::UnknownProfile(name));
    }
    if registry.set_profile(id, name) {
        Ok(())
    } else {
        Err(RouterError::SessionNotFound)
    }
}

/// What the caller of `RequestRun::step` must do next.
pub enum Step {
    /// Run `action` with `options` on the integration at `slot`, then report
    /// the outcome with `RequestRun::record_outcome`.
    Dispatch { slot: usize, action: String, options: serde_json::Value },
    /// Push a fresh layout to the session whose profile was switched.
    Render(u128),
    /// The request is over, with this result.
    Finished(Result<(), RouterError>),
}

/// One execution request as the router works through it: its actions run in
/// order, and the first error ends it.
pub struct RequestRun {
    pub requestor: Option<u128>,
    pub actions: Vec<Action>,
    /// The position of the next action to run.
    pub next: usize,
    /// The failure reported by the last integration call, if any.
    pub failure: Option<RouterError>,
    pub finished: bool,
}

/// The qualified name addresses a registered integration other than the
/// reserved `profile`.
pub open spec fn dispatches(table: Seq<Seq<char>>, name: Seq<char>) -> bool {
    !no_separator(name) && integration_part(name) != "profile"@ && table.contains(
        integration_part(name),
    )
}

/// A name without separator is never handed to an integration.
pub proof fn lemma_unseparated_never_dispatches(table: Seq<Seq<char>>, name: Seq<char>)
    requires
        no_separator(name),
    ensures
        !dispatches(table, name),
        !is_profile_set(name),
{
}

/// The qualified name asks for a profile switch.
pub open spec fn is_profile_set(name: Seq<char>) -> bool {
    !no_separator(name) && integration_part(name) == "profile"@ && action_part(name) == "set"@
}

impl RequestRun {
    /// A request from `requestor` (none for the control surface) that runs
    /// `actions`.
    pub fn new(requestor: Option<u128>, actions: Vec<Action>) -> (r: RequestRun)
        ensures
            r.requestor == requestor,
            r.actions == actions,
            r.next == 0,
            r.failure is None,
            !r.finished,
    {
        RequestRun { requestor, actions, next: 0, failure: None, finished: false }
    }

    /// Takes the request one step further: finishes it, or works on its next
    /// action. A profile switch changes `registry` directly and asks for a
    /// render of that session; any other action is handed out for dispatch.
    /// The first error finishes the request, and nothing after it runs.
    pub fn step(
        &mut self,
        table: &DispatchTable,
        profiles: &Vec<Profile>,
        registry: &mut Registry,
    ) -> (s: Step)
        requires
            !old(self).finished,
            table.wf(),
        ensures
            final(self).requestor == old(self).requestor,
            final(self).actions == old(self).actions,
            final(self).finished <==> s is Finished,
            !(s is Render) ==> final(registry)@ == old(registry)@,
            old(self).failure is Some ==> s == Step::Finished(Err(old(self).failure->0)),
            old(self).failure is None && old(self).next >= old(self).actions@.len() ==> s
                == Step::Finished(Ok(())),
            old(self).failure is None && old(self).next < old(self).actions@.len() ==> {
                let name = old(self).actions@[old(self).next as int].action@;
                let opts = old(self).actions@[old(self).next as int].options;
                &&& no_separator(name) ==> (s matches Step::Finished(
                    Err(RouterError::MalformedAction(n)),
                ) && n@ == name)
                &&& !no_separator(name) && integration_part(name) != "profile"@
                    && !table@.contains(integration_part(name)) ==> (s matches Step::Finished(
                    Err(RouterError::UnknownIntegration(n)),
                ) && n@ == integration_part(name))
                &&& !no_separator(name) && integration_part(name) == "profile"@ && action_part(
                    name,
                ) != "set"@ ==> (s matches Step::Finished(Err(RouterError::MalformedAction(n)))
                    && n@ == name)
                &&& is_profile_set(name) && old(self).requestor is None ==> s == Step::Finished(
                    Err(RouterError::SessionNotFound),
                )
                &&& s is Dispatch ==> dispatches(table@, name)
                &&& dispatches(table@, name) ==> if json_is_object(opts) {
                    s matches Step::Dispatch { slot, action, options } && slot < table@.len()
                        && table@[slot as int] == integration_part(name) && action@
                        == action_part(name) && options == json_with_text(
                        opts,
                        "action"@,
                        action_part(name),
                    )
                } else {
                    s matches Step::Finished(Err(RouterError::MalformedAction(n))) && n@ == name
                }
                &&& is_profile_set(name) && old(self).requestor is Some ==> match json_text_field(
                    opts,
                    "profile"@,
                ) {
                    None => s matches Step::Finished(Err(RouterError::MalformedAction(n))) && n@
                        == name,
                    Some(p) => {
                        &&& !has_profile(profiles@, p) ==> (s matches Step::Finished(
                            Err(RouterError::UnknownProfile(n)),
                        ) && n@ == p)
                        &&& has_profile(profiles@, p) && !old(registry)@.contains_key(
                            old(self).requestor->0,
                        ) ==> s == Step::Finished(Err(RouterError::SessionNotFound))
                        &&& has_profile(profiles@, p) && old(registry)@.contains_key(
                            old(self).requestor->0,
                        ) ==> s == Step::Render(old(self).requestor->0) && final(registry)@
                            == old(registry)@.insert(old(self).requestor->0, p)
                    },
                }
                &&& s is Render ==> is_profile_set(name)
                &&& !(s is Finished) ==> final(self).next == old(self).next + 1
                    && final(self).failure is None
            },
    {
        if self.failure.is_some() {
            self.finished = true;
            let e = self.failure.take();
            match e {
                Some(e) => return Step::Finished(Err(e)),
                None => return Step::Finished(Ok(())),
            }
        }
        if self.next >= self.actions.len() {
            self.finished = true;
            return Step::Finished(Ok(()));
        }
        let k = self.next;
        let profile_option = string_field(&self.actions[k].options, "profile");
        let plan = plan_action(table, self.actions[k].action.as_str(), self.requestor, profile_option);
        match plan {
            Plan::Fail(e) => {
                self.finished = true;
                Step::Finished(Err(e))
            },
            Plan::SetProfile { session, profile } => {
                let ghost p = profile@;
                match apply_profile_set(registry, profiles, session, profile) {
                    Ok(()) => {
                        self.next = k + 1;
                        assert(profile_switch(old(registry)@, profiles@, session, p) == (
                        registry@, true));
                        Step::Render(session)
                    },
                    Err(e) => {
                        self.finished = true;
                        Step::Finished(Err(e))
                    },
                }
            },
            Plan::Dispatch { slot, action } => {
                match with_string_field(&self.actions[k].options, "action", action.as_str()) {
                    Some(options) => {
                        self.next = k + 1;
                        Step::Dispatch { slot, action, options }
                    },
                    None => {
                        self.finished = true;
                        Step::Finished(
                            Err(RouterError::MalformedAction(self.actions[k].action.clone())),
                        )
                    },
                }
            },
        }
    }

    /// Records what the integration of the last `Dispatch` step returned; an
    /// error finishes the request at the next step.
    pub fn record_outcome(&mut self, outcome: Result<(), String>)
        ensures
            final(self).requestor == old(self).requestor,
            final(self).actions == old(self).actions,
            final(self).next == old(self).next,
            final(self).finished == old(self).finished,
            match outcome {
                Ok(_) => final(self).failure == old(self).failure,
                Err(m) => final(self).failure == Some(RouterError::IntegrationError(m)),
            },
    {
        match outcome {
            Ok(()) => {},
            Err(m) => {
                self.failure = Some(RouterError::IntegrationError(m));
            },
        }
    }
}

/// How the wait for a router reply ended.
pub enum ReplyWait {
    /// The router replied with this status text.
    Replied(String),
    /// The router dropped the reply slot without a reply.
    Dropped,
    /// The bound on the wait passed first.
    TimedOut,
}

/// Why a request got no status text from the router.
#[derive(Debug, PartialEq, Eq, Structural)]
pub enum RequestError {
    /// The router did not reply in time; the actions may still complete.
    Timeout,
    /// The router went away without replying.
    NoReply,
}

impl RequestError {
    /// A short description of the error.
    pub fn message(&self) -> (r: String)
        ensures
            r@ == match *self {
                RequestError::Timeout =>
                    "timed out waiting for request to complete, actions may still complete successfully"@,
                RequestError::NoReply => "error executing actions for request"@,
            },
    {
        match self {
            RequestError::Timeout => String::from_str(
                "timed out waiting for request to complete, actions may still complete successfully",
            ),
            RequestError::NoReply => String::from_str("error executing actions for request"),
        }
    }
}

/// What the submitter of a request receives: the router's status text, or
/// `Timeout` where the bound passed first.
pub fn request_outcome(wait: ReplyWait) -> (r: Result<String, RequestError>)
    ensures
        match wait {
            ReplyWait::Replied(t) => r == Ok::<String, RequestError>(t),
            ReplyWait::Dropped => r == Err::<String, RequestError>(RequestError::NoReply),
            ReplyWait::TimedOut => r == Err::<String, RequestError>(RequestError::Timeout),
        },
{
    match wait {
        ReplyWait::Replied(t) => Ok(t),
        ReplyWait::Dropped => Err(RequestError::NoReply),
        ReplyWait::TimedOut => Err(RequestError::Timeout),
    }
}

} // verus!

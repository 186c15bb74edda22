use vstd::prelude::*;
use std::collections::HashMap;
use vstd::std_specs::iter::IteratorSpec;

verus! {

broadcast use vstd::std_specs::hash::group_hash_axioms;

/// The registry of connected clients: the active profile name of each, by
/// identifier (a UUID as a 128-bit integer).
pub struct Registry {
    sessions: HashMap<u128, String>,
}

impl View for Registry {
    type V = Map<u128, Seq<char>>;

    closed spec fn view(&self) -> Map<u128, Seq<char>> {
        self.sessions@.map_values(|p: String| p@)
    }
}

impl Registry {
    /// An empty registry.
    pub fn new() -> (r: Registry)
        ensures
            r@ == Map::<u128, Seq<char>>::empty(),
    {
        let r = Registry { sessions: HashMap::new() };
        assert(r@ =~= Map::<u128, Seq<char>>::empty());
        r
    }

    /// Whether the session `id` is registered.
    pub fn contains(&self, id: u128) -> (r: bool)
        ensures
            r == self@.contains_key(id),
    {
        self.sessions.contains_key(&id)
    }

    /// The active profile name of the session `id`, if it is registered.
    pub fn active_profile(&self, id: u128) -> (r: Option<String>)
        ensures
            r is None <==> !self@.contains_key(id),
            r matches Some(p) ==> p@ == self@[id],
    {
        match self.sessions.get(&id) {
            Some(p) => Some(p.clone()),
            None => None,
        }
    }

    /// Sets the active profile of the session `id`; false, with nothing
    /// changed, where no such session is registered.
    pub fn set_profile(&mut self, id: u128, profile: String) -> (found: bool)
        ensures
            found == old(self)@.contains_key(id),
            found ==> final(self)@ == old(self)@.insert(id, profile@),
            !found ==> final(self)@ == old(self)@,
    {
        if self.sessions.contains_key(&id) {
            let ghost p = profile@;
            self.sessions.insert(id, profile);
            assert(self@ =~= old(self)@.insert(id, p));
            true
        } else {
            false
        }
    }

    /// Registers the session `id` with the profile `profile`, replacing the
    /// profile of a session already registered under that identifier.
    pub fn connect(&mut self, id: u128, profile: String)
        ensures
            final(self)@ == old(self)@.insert(id, profile@),
    {
        let ghost p = profile@;
        self.sessions.insert(id, profile);
        assert(self@ =~= old(self)@.insert(id, p));
    }

    /// Removes the session `id`, if it is registered.
    pub fn disconnect(&mut self, id: u128)
        ensures
            final(self)@ == old(self)@.remove(id),
    {
        self.sessions.remove(&id);
        assert(self@ =~= old(self)@.remove(id));
    }

    /// The identifiers of all registered sessions, each once.
    pub fn ids(&self) -> (r: Vec<u128>)
        ensures
            forall|id: u128| r@.contains(id) <==> self@.contains_key(id),
            r@.no_duplicates(),
    {
        let ghost all = vstd::std_specs::hash::spec_keys_iter(&self.sessions).remaining().unref();
        let mut r: Vec<u128> = Vec::new();
        for k in it: self.sessions.keys()
            invariant
                it.seq().unref() == all,
                r@ == all.take(it.index() as int),
        {
            r.push(*k);
            assert(r@ =~= all.take(it.index() + 1));
        }
        assert(r@ =~= all);
        assert(all.to_set() == self.sessions@.dom());
        assert forall|id: u128| r@.contains(id) <==> self@.contains_key(id) by {
            if r@.contains(id) {
                assert(all.to_set().contains(id));
            }
            if self@.contains_key(id) {
                assert(all.to_set().contains(id));
            }
        }
        r
    }
}

} // verus!

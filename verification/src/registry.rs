//! The roles of the actors seen so far.
//!
//! The registry only ever gains entries or has them overwritten. Frames say
//! nothing of actors that go away, so a role stays with its id until a new
//! creation with a role takes the id over.

use std::collections::HashMap;
use vstd::prelude::*;
use crate::frame::ActorId;
use crate::role::Role;

verus! {

broadcast use vstd::std_specs::hash::group_hash_axioms;

/// Maps the id of each classified actor to its role.
pub struct ActorRegistry {
    roles: HashMap<ActorId, Role>,
}

impl View for ActorRegistry {
    type V = Map<ActorId, Role>;

    closed spec fn view(&self) -> Map<ActorId, Role> {
        self.roles@
    }
}

impl ActorRegistry {
    /// A registry that knows no actor.
    pub fn new() -> (r: ActorRegistry)
        ensures
            r@ == Map::<ActorId, Role>::empty(),
    {
        ActorRegistry { roles: HashMap::new() }
    }

    /// Records that `id` now has the role `role`, whatever it had before.
    pub fn register(&mut self, id: ActorId, role: Role)
        ensures
            final(self)@ == old(self)@.insert(id, role),
    {
        self.roles.insert(id, role);
    }

    /// The role of `id`, if it has one.
    pub fn lookup(&self, id: ActorId) -> (role: Option<Role>)
        ensures
            role == (if self@.contains_key(id) {
                Some(self@[id])
            } else {
                None
            }),
    {
        match self.roles.get(&id) {
            Some(role) => Some(*role),
            None => None,
        }
    }
}

} // verus!

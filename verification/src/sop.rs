//! Votes: one user's "smash" or "pass" on one Pokémon.
use vstd::prelude::*;
use crate::ids::{fresh_object_id, is_generated_id, ObjectId};

verus! {

/// A stored vote.
#[derive(Clone, Copy, Debug, PartialEq, Eq)]
pub struct SmashOrPass {
    pub object_id: ObjectId,
    pub user_id: ObjectId,
    pub pokemon_id: u32,
    /// `true` for "smash", `false` for "pass".
    pub smash: bool,
}

impl SmashOrPass {
    /// A new vote under a fresh identifier.
    pub fn new(user_id: ObjectId, pokemon_id: u32, smash: bool) -> (r: SmashOrPass)
        ensures
            r.user_id == user_id,
            r.pokemon_id == pokemon_id,
            r.smash == smash,
            is_generated_id(r.object_id),
    {
        SmashOrPass { object_id: fresh_object_id(), user_id, pokemon_id, smash }
    }
}

} // verus!

//! Pokémon records and the counter updates that votes send.
use vstd::prelude::*;

verus! {

/// The stored tallies of one Pokémon.
#[derive(Clone, Copy, Debug, PartialEq, Eq, Structural)]
pub struct Pokemon {
    pub object_id: u32,
    pub totalsmash: u32,
    pub totalpass: u32,
    pub views: u32,
}

/// Which tally a vote adds to.
#[derive(Clone, Copy, Debug, PartialEq, Eq, Structural)]
pub enum Counter {
    TotalSmash,
    TotalPass,
}

/// An update to send to the store: add `amount` to one tally of the
/// Pokémon with identifier `pokemon_id`.
#[derive(Clone, Copy, Debug, PartialEq, Eq, Structural)]
pub struct CounterIncrement {
    pub pokemon_id: u32,
    pub counter: Counter,
    pub amount: i32,
}

impl Counter {
    /// The stored field that holds this tally.
    pub open spec fn field_name(self) -> Seq<char> {
        match self {
            Counter::TotalSmash => "totalsmash"@,
            Counter::TotalPass => "totalpass"@,
        }
    }

    /// The stored field that holds this tally.
    pub fn field(&self) -> (r: &'static str)
        ensures
            r@ == self.field_name(),
    {
        match self {
            Counter::TotalSmash => "totalsmash",
            Counter::TotalPass => "totalpass",
        }
    }
}

impl Pokemon {
    /// A Pokémon with the given identifier and all tallies at zero.
    pub fn new(object_id: u32) -> (r: Pokemon)
        ensures
            r == (Pokemon { object_id, totalsmash: 0, totalpass: 0, views: 0 }),
    {
        Pokemon { object_id, totalsmash: 0, totalpass: 0, views: 0 }
    }

    /// The update that records one "smash" for a Pokémon.
    pub fn smash_update(object_id: u32) -> (r: CounterIncrement)
        ensures
            r == (CounterIncrement { pokemon_id: object_id, counter: Counter::TotalSmash, amount: 1 }),
    {
        CounterIncrement { pokemon_id: object_id, counter: Counter::TotalSmash, amount: 1 }
    }

    /// The update that records one "pass" for a Pokémon.
    pub fn pass_update(object_id: u32) -> (r: CounterIncrement)
        ensures
            r == (CounterIncrement { pokemon_id: object_id, counter: Counter::TotalPass, amount: 1 }),
    {
        CounterIncrement { pokemon_id: object_id, counter: Counter::TotalPass, amount: 1 }
    }

    /// The update that a vote sends: one more "smash" when `smash`, else one
    /// more "pass".
    pub fn vote_update(object_id: u32, smash: bool) -> (r: CounterIncrement)
        ensures
            r == (CounterIncrement {
                pokemon_id: object_id,
                counter: if smash {
                    Counter::TotalSmash
                } else {
                    Counter::TotalPass
                },
                amount: 1,
            }),
    {
        if smash {
            Pokemon::smash_update(object_id)
        } else {
            Pokemon::pass_update(object_id)
        }
    }
}

} // verus!

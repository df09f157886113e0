//! The registry of active players: who is online right now, and where.
//!
//! The registry is a cache of the present, not a record of the past. It holds
//! at most one position per player, and each position it holds is attributed
//! to the player under whose id it is stored.
//!
//! A registry is an ordinary value. Whoever shares one between tasks keeps it
//! behind a single lock; every operation here then happens as a whole, since
//! it needs the registry for itself or, to read, unchanged.

use std::collections::HashMap;
use vstd::prelude::*;
use vstd::std_specs::hash::*;
use vstd::std_specs::iter::IteratorSpec;
use crate::message::{GameMessage, PlayerPositionUpdate};
use crate::session::Action;

verus! {

broadcast use group_hash_axioms;

/// Whether `all` lists the content of `players`: every player that is online
/// exactly once, each with the position the registry holds, in any order.
pub open spec fn is_snapshot(
    all: Seq<PlayerPositionUpdate>,
    players: Map<i32, PlayerPositionUpdate>,
) -> bool {
    &&& all.len() == players.len()
    &&& forall|i: int|
        0 <= i < all.len() ==> players.contains_key(#[trigger] all[i].user_id)
            && players[all[i].user_id] == all[i]
    &&& forall|i: int, j: int|
        0 <= i < j < all.len() ==> (#[trigger] all[i]).user_id != (#[trigger] all[j]).user_id
    &&& forall|id: i32| #[trigger]
        players.contains_key(id) ==> exists|i: int|
            0 <= i < all.len() && (#[trigger] all[i]).user_id == id
}

/// What an action does to the content of the registry. Only `Upsert` and
/// `Remove` touch it.
pub open spec fn registry_after(
    players: Map<i32, PlayerPositionUpdate>,
    action: Action,
) -> Map<i32, PlayerPositionUpdate> {
    match action {
        Action::Upsert(position) => players.insert(position.user_id, position),
        Action::Remove { user_id } => players.remove(user_id),
        _ => players,
    }
}

/// The players that are online, each with the last position known of them.
pub struct ActivePlayers {
    players: HashMap<i32, PlayerPositionUpdate>,
}

impl View for ActivePlayers {
    type V = Map<i32, PlayerPositionUpdate>;

    closed spec fn view(&self) -> Map<i32, PlayerPositionUpdate> {
        self.players@
    }
}

impl ActivePlayers {
    #[verifier::type_invariant]
    spec fn keyed_by_owner(self) -> bool {
        forall|id: i32| #[trigger]
            self.players@.contains_key(id) ==> self.players@[id].user_id == id
    }

    /// A registry with nobody online.
    pub fn new() -> (registry: ActivePlayers)
        ensures
            registry@ == Map::<i32, PlayerPositionUpdate>::empty(),
    {
        ActivePlayers { players: HashMap::new() }
    }

    /// Records that `player_id` is online at the coordinates of `position`,
    /// in place of whatever was known of that player before. The id inside
    /// `position` is not trusted: the entry is attributed to `player_id`.
    pub fn upsert(&mut self, player_id: i32, position: PlayerPositionUpdate)
        ensures
            final(self)@ == old(self)@.insert(player_id, position.owned_by(player_id)),
    {
        proof {
            use_type_invariant(&*self);
        }
        // The map is changed outside the registry and put back whole, so that
        // the registry's invariant is only ever asked of a finished map.
        let mut players: HashMap<i32, PlayerPositionUpdate> = HashMap::new();
        std::mem::swap(&mut self.players, &mut players);
        players.insert(player_id, position.owned_by(player_id));
        std::mem::swap(&mut self.players, &mut players);
    }

    /// Takes `player_id` out of the registry, and says whether it was there.
    pub fn remove(&mut self, player_id: i32) -> (existed: bool)
        ensures
            existed == old(self)@.contains_key(player_id),
            final(self)@ == old(self)@.remove(player_id),
    {
        proof {
            use_type_invariant(&*self);
        }
        let mut players: HashMap<i32, PlayerPositionUpdate> = HashMap::new();
        std::mem::swap(&mut self.players, &mut players);
        let existed = players.remove(&player_id).is_some();
        std::mem::swap(&mut self.players, &mut players);
        existed
    }

    /// The position held for `player_id`, if that player is online.
    pub fn get(&self, player_id: i32) -> (position: Option<PlayerPositionUpdate>)
        ensures
            position == (if self@.contains_key(player_id) {
                Some(self@[player_id])
            } else {
                None
            }),
            position matches Some(held) ==> held.user_id == player_id,
    {
        proof {
            use_type_invariant(self);
        }
        match self.players.get(&player_id) {
            Some(position) => Some(*position),
            None => None,
        }
    }

    /// How many players are online.
    pub fn len(&self) -> (count: usize)
        ensures
            count == self@.len(),
    {
        self.players.len()
    }

    /// A copy of the registry's content at this moment: every player that is
    /// online exactly once, in no particular order.
    pub fn get_all(&self) -> (all: Vec<PlayerPositionUpdate>)
        ensures
            is_snapshot(all@, self@),
    {
        proof {
            use_type_invariant(self);
        }
        let mut all: Vec<PlayerPositionUpdate> = Vec::new();
        for entry in it: self.players.iter()
            invariant
                all@.len() == it.index(),
                forall|j: int| 0 <= j < all@.len() ==> all@[j] == *(#[trigger] it.seq()[j]).1,
        {
            let (_, position) = entry;
            all.push(*position);
        }
        proof {
            let pairs = self.players.iter().remaining();
            let ids = all@.map_values(|position: PlayerPositionUpdate| position.user_id);
            assert forall|j: int| 0 <= j < all@.len() implies self@.contains_key(
                #[trigger] all@[j].user_id,
            ) && self@[all@[j].user_id] == all@[j] && all@[j].user_id == *pairs[j].0 by {
                assert(self.players@.contains_key(*pairs[j].0));
            }
            assert forall|id: i32| #[trigger] self@.contains_key(id) implies exists|i: int|
                0 <= i < all@.len() && (#[trigger] all@[i]).user_id == id by {
                let entry = (&id, &self@[id]);
                assert(pairs.contains(entry));
                let j = choose|j: int| 0 <= j < pairs.len() && pairs[j] == entry;
                assert(all@[j].user_id == id);
            }
            assert(ids.to_set() =~= self@.dom()) by {
                assert forall|id: i32| self@.dom().contains(id) implies ids.to_set().contains(
                    id,
                ) by {
                    let j = choose|j: int|
                        0 <= j < all@.len() && (#[trigger] all@[j]).user_id == id;
                    assert(ids[j] == id);
                }
                assert forall|id: i32| ids.to_set().contains(id) implies self@.dom().contains(
                    id,
                ) by {
                    let j = choose|j: int| 0 <= j < ids.len() && ids[j] == id;
                    assert(self@.contains_key(all@[j].user_id));
                }
            }
            ids.lemma_no_dup_set_cardinality();
            assert forall|i: int, j: int| 0 <= i < j < all@.len() implies (#[trigger] all@[i])
                .user_id != (#[trigger] all@[j]).user_id by {
                assert(ids[i] != ids[j]);
            }
        }
        all
    }

    /// The event that tells a client who is online at this moment.
    pub fn initial_players(&self) -> (message: GameMessage)
        ensures
            message matches GameMessage::InitialPlayers(all) && is_snapshot(all@, self@),
    {
        GameMessage::InitialPlayers(self.get_all())
    }

    /// Carries out what `action` asks of the registry. An action that is not
    /// about the registry leaves it as it is.
    pub fn apply(&mut self, action: &Action)
        ensures
            final(self)@ == registry_after(old(self)@, *action),
    {
        match action {
            Action::Upsert(position) => {
                self.upsert(position.user_id, *position);
                assert(position.owned_by(position.user_id) == *position);
            },
            Action::Remove { user_id } => {
                self.remove(*user_id);
            },
            _ => {},
        }
    }
}

} // verus!

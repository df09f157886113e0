//! The events that travel between clients, sessions and the broadcast bus.

use vstd::prelude::*;

verus! {

/// How many pending events the broadcast bus keeps for each subscriber.
pub const BROADCAST_CAPACITY: usize = 128;

/// How long, in milliseconds, a session waits after announcing its own logout
/// before it closes, so that the announcement can reach the other sessions.
pub const LOGOUT_LINGER_MILLIS: u64 = 200;

/// Bit pattern of the coordinate `0.0`.
pub const ORIGIN_BITS: u64 = 0;

/// A player's position: who, and where.
///
/// Each coordinate is held as the IEEE-754 bit pattern of a 64-bit float, so
/// that a value passes through the library unchanged, bit for bit. The library
/// never computes with coordinates; it only carries them.
#[derive(Debug, Clone, Copy, PartialEq, Eq, Structural)]
pub struct PlayerPositionUpdate {
    pub user_id: i32,
    pub x: u64,
    pub y: u64,
    pub z: u64,
}

impl PlayerPositionUpdate {
    /// The position of `user_id` at the coordinate origin.
    pub open spec fn spec_origin(user_id: i32) -> PlayerPositionUpdate {
        PlayerPositionUpdate { user_id, x: ORIGIN_BITS, y: ORIGIN_BITS, z: ORIGIN_BITS }
    }

    /// The same coordinates, attributed to `user_id`.
    pub open spec fn spec_owned_by(self, user_id: i32) -> PlayerPositionUpdate {
        PlayerPositionUpdate { user_id, x: self.x, y: self.y, z: self.z }
    }

    /// The position of `user_id` at the coordinate origin.
    #[verifier::when_used_as_spec(spec_origin)]
    pub fn origin(user_id: i32) -> (position: PlayerPositionUpdate)
        ensures
            position == Self::spec_origin(user_id),
    {
        PlayerPositionUpdate { user_id, x: ORIGIN_BITS, y: ORIGIN_BITS, z: ORIGIN_BITS }
    }

    /// The same coordinates, attributed to `user_id`.
    #[verifier::when_used_as_spec(spec_owned_by)]
    pub fn owned_by(self, user_id: i32) -> (position: PlayerPositionUpdate)
        ensures
            position == self.spec_owned_by(user_id),
    {
        PlayerPositionUpdate { user_id, x: self.x, y: self.y, z: self.z }
    }
}

/// One event of the game, as it is sent to a client, received from a client,
/// or published on the broadcast bus.
#[derive(Debug, Clone, PartialEq, Eq)]
pub enum GameMessage {
    /// A player's position changed.
    PlayerPosition(PlayerPositionUpdate),
    /// A player is no longer online.
    PlayerDisconnected { user_id: i32 },
    /// Everyone who is online, for one session that has just joined.
    InitialPlayers(Vec<PlayerPositionUpdate>),
    /// A client announces that it leaves.
    PlayerLogout { user_id: i32 },
}

} // verus!

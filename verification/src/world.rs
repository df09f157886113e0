//! What holds of the system as a whole: the registry together with all the
//! sessions that write to it, and the trace of one session over its life.
//!
//! Nothing here runs. These are the statements that the session and the
//! registry are built to satisfy, each proved for every sequence of events.

use vstd::prelude::*;
use crate::message::{GameMessage, PlayerPositionUpdate};
use crate::registry::{is_snapshot, registry_after};
use crate::session::{Action, ClientFrame, Session, SessionEvent, SessionState};

verus! {

impl Session {
    /// Whether the session has put its player into the registry and not yet
    /// taken it out again.
    pub open spec fn holds_entry(self) -> bool {
        self.state is Active || (self.state is Closing && !self.logout_processed)
    }

    /// Whether the session has become active and has not yet been closed.
    pub open spec fn is_open(self) -> bool {
        self.state is Active || self.state is Closing
    }

    /// The session after a sequence of events, and all the actions it asked
    /// for on the way, in order.
    pub open spec fn run(self, events: Seq<SessionEvent>) -> (Session, Seq<Action>)
        decreases events.len(),
    {
        if events.len() == 0 {
            (self, Seq::empty())
        } else {
            let (before, earlier) = self.run(events.drop_last());
            let (after, latest) = before.next(events.last());
            (after, earlier + latest)
        }
    }
}

/// How often `actions` publishes the departure of `user_id`.
pub open spec fn departures_announced(actions: Seq<Action>, user_id: i32) -> nat
    decreases actions.len(),
{
    if actions.len() == 0 {
        0
    } else {
        let earlier = departures_announced(actions.drop_last(), user_id);
        if actions.last() == Action::Publish(GameMessage::PlayerDisconnected { user_id }) {
            earlier + 1
        } else {
            earlier
        }
    }
}

/// How often `actions` sends the registry's content to the client.
pub open spec fn snapshots_sent(actions: Seq<Action>) -> nat
    decreases actions.len(),
{
    if actions.len() == 0 {
        0
    } else {
        let earlier = snapshots_sent(actions.drop_last());
        if actions.last() is SendInitialPlayers {
            earlier + 1
        } else {
            earlier
        }
    }
}

/// The registry and the sessions that write to it, one session per
/// connection.
pub struct World {
    pub registry: Map<i32, PlayerPositionUpdate>,
    pub sessions: Seq<Session>,
}

impl World {
    /// Nobody online, and one fresh session for each of `ids`.
    pub open spec fn initial(ids: Seq<i32>) -> World {
        World {
            registry: Map::empty(),
            sessions: Seq::new(ids.len(), |i: int| Session::new(ids[i])),
        }
    }

    /// The registry after `actions` were carried out on it, in order.
    pub open spec fn registry_after_all(
        players: Map<i32, PlayerPositionUpdate>,
        actions: Seq<Action>,
    ) -> Map<i32, PlayerPositionUpdate>
        decreases actions.len(),
    {
        if actions.len() == 0 {
            players
        } else {
            registry_after(Self::registry_after_all(players, actions.drop_last()), actions.last())
        }
    }

    /// The world after session `who` was handed `event` and its actions were
    /// carried out.
    pub open spec fn deliver(self, who: int, event: SessionEvent) -> World {
        if 0 <= who < self.sessions.len() {
            let (session, actions) = self.sessions[who].next(event);
            World {
                registry: Self::registry_after_all(self.registry, actions),
                sessions: self.sessions.update(who, session),
            }
        } else {
            self
        }
    }

    /// The world after a sequence of deliveries, each an event handed to one
    /// session.
    pub open spec fn run(self, deliveries: Seq<(int, SessionEvent)>) -> World
        decreases deliveries.len(),
    {
        if deliveries.len() == 0 {
            self
        } else {
            self.run(deliveries.drop_last()).deliver(deliveries.last().0, deliveries.last().1)
        }
    }

    /// No two sessions speak for the same player.
    pub open spec fn distinct_players(self) -> bool {
        forall|i: int, j: int|
            0 <= i < j < self.sessions.len() ==> self.sessions[i].user_id
                != self.sessions[j].user_id
    }

    /// The players whose session currently holds a registry entry.
    pub open spec fn entry_holders(self) -> Set<i32> {
        Set::new(
            |id: i32|
                exists|i: int|
                    0 <= i < self.sessions.len() && (#[trigger] self.sessions[i]).user_id == id
                        && self.sessions[i].holds_entry(),
        )
    }

    /// The players whose session has become active and is not yet closed.
    pub open spec fn open_players(self) -> Set<i32> {
        Set::new(
            |id: i32|
                exists|i: int|
                    0 <= i < self.sessions.len() && (#[trigger] self.sessions[i]).user_id == id
                        && self.sessions[i].is_open(),
        )
    }

    /// No session is between its logout and its cleanup.
    pub open spec fn quiescent(self) -> bool {
        forall|i: int|
            0 <= i < self.sessions.len() ==> !((#[trigger] self.sessions[i]).state is Closing
                && self.sessions[i].logout_processed)
    }

    /// What every reachable world satisfies.
    pub open spec fn consistent(self) -> bool {
        &&& self.distinct_players()
        &&& forall|i: int|
            0 <= i < self.sessions.len() && (#[trigger] self.sessions[i]).logout_processed
                ==> self.sessions[i].state is Closing || self.sessions[i].state is Closed
        &&& forall|id: i32| #[trigger]
            self.registry.contains_key(id) ==> self.registry[id].user_id == id
        &&& self.registry.dom() =~= self.entry_holders()
    }
}

proof fn lemma_registry_after_short(
    players: Map<i32, PlayerPositionUpdate>,
    a: Action,
    b: Action,
    c: Action,
)
    ensures
        World::registry_after_all(players, Seq::empty()) == players,
        World::registry_after_all(players, seq![a]) == registry_after(players, a),
        World::registry_after_all(players, seq![a, b]) == registry_after(
            registry_after(players, a),
            b,
        ),
        World::registry_after_all(players, seq![a, b, c]) == registry_after(
            registry_after(registry_after(players, a), b),
            c,
        ),
{
    reveal_with_fuel(World::registry_after_all, 4);
    assert(seq![a].drop_last() =~= Seq::empty());
    assert(seq![a, b].drop_last() =~= seq![a]);
    assert(seq![a, b, c].drop_last() =~= seq![a, b]);
}

/// What one step of a session does to the registry: it writes the session's
/// own entry, removes it, or leaves the registry alone, and the session holds
/// an entry afterwards exactly as the registry says.
proof fn lemma_step_writes_own_entry(
    session: Session,
    event: SessionEvent,
    players: Map<i32, PlayerPositionUpdate>,
)
    requires
        session.logout_processed ==> session.state is Closing || session.state is Closed,
    ensures
        ({
            let (after, actions) = session.next(event);
            let written = World::registry_after_all(players, actions);
            &&& after.user_id == session.user_id
            &&& after.logout_processed ==> after.state is Closing || after.state is Closed
            &&& {
                ||| (exists|position: PlayerPositionUpdate|
                    position.user_id == session.user_id && written == players.insert(
                        session.user_id,
                        position,
                    )) && after.holds_entry()
                ||| written == players.remove(session.user_id) && !after.holds_entry()
                ||| written == players && after.holds_entry() == session.holds_entry()
            }
        }),
{
    let (after, actions) = session.next(event);
    let id = session.user_id;
    let leave = Action::Remove { user_id: id };
    let announce = Action::Publish(GameMessage::PlayerDisconnected { user_id: id });
    let linger = Action::Linger { millis: crate::message::LOGOUT_LINGER_MILLIS };
    match event {
        SessionEvent::PositionLoaded(stored) => {
            if session.state is Connecting {
                let start = match stored {
                    Some(position) => position.owned_by(id),
                    None => PlayerPositionUpdate::origin(id),
                };
                lemma_registry_after_short(
                    players,
                    Action::Upsert(start),
                    Action::SendInitialPlayers,
                    leave,
                );
                assert(start.user_id == id && World::registry_after_all(players, actions)
                    == players.insert(id, start));
            } else {
                lemma_registry_after_short(players, leave, leave, leave);
            }
        },
        SessionEvent::Client(frame) => {
            if session.state is Active {
                match frame {
                    ClientFrame::Message(GameMessage::PlayerPosition(update)) => {
                        let position = update.owned_by(id);
                        lemma_registry_after_short(
                            players,
                            Action::Persist(position),
                            Action::Upsert(position),
                            Action::Publish(GameMessage::PlayerPosition(position)),
                        );
                        assert(position.user_id == id && World::registry_after_all(
                            players,
                            actions,
                        ) == players.insert(id, position));
                    },
                    ClientFrame::Message(GameMessage::PlayerLogout { user_id }) => {
                        lemma_registry_after_short(players, leave, announce, linger);
                    },
                    _ => {
                        lemma_registry_after_short(players, leave, leave, leave);
                    },
                }
            } else {
                lemma_registry_after_short(players, leave, leave, leave);
            }
        },
        SessionEvent::Broadcast(message) => {
            lemma_registry_after_short(players, Action::Send(message), leave, leave);
        },
        SessionEvent::SendFailed => {
            lemma_registry_after_short(players, leave, leave, leave);
        },
        SessionEvent::Teardown => {
            lemma_registry_after_short(players, leave, announce, leave);
        },
    }
}

/// A consistent world stays consistent whatever is delivered to whichever
/// session.
proof fn lemma_deliver_keeps_consistent(world: World, who: int, event: SessionEvent)
    requires
        world.consistent(),
    ensures
        world.deliver(who, event).consistent(),
{
    if 0 <= who < world.sessions.len() {
        let session = world.sessions[who];
        let id = session.user_id;
        let next = world.deliver(who, event);
        let after = next.sessions[who];
        lemma_step_writes_own_entry(session, event, world.registry);
        assert forall|i: int| 0 <= i < next.sessions.len() && i != who implies next.sessions[i]
            == world.sessions[i] && next.sessions[i].user_id != id by {}
        assert(next.registry.dom() =~= next.entry_holders()) by {
            assert forall|other: i32| other != id implies (next.entry_holders().contains(other)
                <==> world.entry_holders().contains(other)) by {
                if world.entry_holders().contains(other) {
                    let i = choose|i: int|
                        0 <= i < world.sessions.len() && (#[trigger] world.sessions[i]).user_id
                            == other && world.sessions[i].holds_entry();
                    assert(next.sessions[i].user_id == other && next.sessions[i].holds_entry());
                }
                if next.entry_holders().contains(other) {
                    let i = choose|i: int|
                        0 <= i < next.sessions.len() && (#[trigger] next.sessions[i]).user_id
                            == other && next.sessions[i].holds_entry();
                    assert(world.sessions[i].user_id == other && world.sessions[i].holds_entry());
                }
            }
            assert(next.entry_holders().contains(id) <==> after.holds_entry()) by {
                if next.entry_holders().contains(id) {
                    let i = choose|i: int|
                        0 <= i < next.sessions.len() && (#[trigger] next.sessions[i]).user_id
                            == id && next.sessions[i].holds_entry();
                    assert(i == who);
                }
                if after.holds_entry() {
                    assert(next.sessions[who].user_id == id && next.sessions[who].holds_entry());
                }
            }
            assert(world.entry_holders().contains(id) <==> session.holds_entry()) by {
                if world.entry_holders().contains(id) {
                    let i = choose|i: int|
                        0 <= i < world.sessions.len() && (#[trigger] world.sessions[i]).user_id
                            == id && world.sessions[i].holds_entry();
                    assert(i == who);
                }
                if session.holds_entry() {
                    assert(world.sessions[who].user_id == id && world.sessions[who].holds_entry());
                }
            }
        }
    }
}

/// The registry's key set follows the sessions: after any sequence of
/// deliveries to sessions of distinct players, the players in the registry
/// are exactly those whose session holds an entry; and once no session is
/// between its logout and its cleanup, they are exactly the players whose
/// session has become active and is not yet closed.
pub proof fn lemma_registry_tracks_sessions(ids: Seq<i32>, deliveries: Seq<(int, SessionEvent)>)
    requires
        ids.no_duplicates(),
    ensures
        ({
            let world = World::initial(ids).run(deliveries);
            &&& world.consistent()
            &&& world.registry.dom() == world.entry_holders()
            &&& world.quiescent() ==> world.registry.dom() == world.open_players()
        }),
    decreases deliveries.len(),
{
    let start = World::initial(ids);
    let world = start.run(deliveries);
    if deliveries.len() == 0 {
        assert(start.registry.dom() =~= start.entry_holders());
    } else {
        lemma_registry_tracks_sessions(ids, deliveries.drop_last());
        lemma_deliver_keeps_consistent(
            start.run(deliveries.drop_last()),
            deliveries.last().0,
            deliveries.last().1,
        );
    }
    if world.quiescent() {
        assert(world.entry_holders() =~= world.open_players()) by {
            assert forall|id: i32| world.entry_holders().contains(id) implies world
                .open_players().contains(id) by {
                let i = choose|i: int|
                    0 <= i < world.sessions.len() && (#[trigger] world.sessions[i]).user_id == id
                        && world.sessions[i].holds_entry();
                assert(world.sessions[i].is_open());
            }
            assert forall|id: i32| world.open_players().contains(id) implies world
                .entry_holders().contains(id) by {
                let i = choose|i: int|
                    0 <= i < world.sessions.len() && (#[trigger] world.sessions[i]).user_id == id
                        && world.sessions[i].is_open();
                assert(world.sessions[i].holds_entry());
            }
        }
    }
}

proof fn lemma_departures_split(earlier: Seq<Action>, latest: Seq<Action>, user_id: i32)
    ensures
        departures_announced(earlier + latest, user_id) == departures_announced(earlier, user_id)
            + departures_announced(latest, user_id),
    decreases latest.len(),
{
    if latest.len() == 0 {
        assert(earlier + latest =~= earlier);
    } else {
        assert((earlier + latest).drop_last() =~= earlier + latest.drop_last());
        lemma_departures_split(earlier, latest.drop_last(), user_id);
    }
}

proof fn lemma_snapshots_split(earlier: Seq<Action>, latest: Seq<Action>)
    ensures
        snapshots_sent(earlier + latest) == snapshots_sent(earlier) + snapshots_sent(latest),
    decreases latest.len(),
{
    if latest.len() == 0 {
        assert(earlier + latest =~= earlier);
    } else {
        assert((earlier + latest).drop_last() =~= earlier + latest.drop_last());
        lemma_snapshots_split(earlier, latest.drop_last());
    }
}

/// What one step of a session announces and sends.
proof fn lemma_step_announces(session: Session, event: SessionEvent, user_id: i32)
    requires
        session.logout_processed ==> session.state is Closing || session.state is Closed,
    ensures
        ({
            let (after, actions) = session.next(event);
            let announced = |s: Session| s.state is Closed || s.logout_processed;
            &&& actions.len() <= 3
            &&& departures_announced(actions, user_id) == (if user_id == session.user_id
                && announced(after) && !announced(session) {
                1nat
            } else {
                0nat
            })
            &&& snapshots_sent(actions) == (if session.state is Connecting
                && !(after.state is Connecting) {
                1nat
            } else {
                0nat
            })
            &&& forall|k: int|
                0 <= k < actions.len() ==> (#[trigger] actions[k] matches Action::Send(message)
                    ==> session.forwards(&message))
        }),
{
    reveal_with_fuel(departures_announced, 4);
    reveal_with_fuel(snapshots_sent, 4);
    let (after, actions) = session.next(event);
    if actions.len() == 1 {
        assert(actions.drop_last() =~= Seq::empty());
    } else if actions.len() == 2 {
        assert(actions.drop_last().drop_last() =~= Seq::empty());
    } else if actions.len() == 3 {
        assert(actions.drop_last().drop_last().drop_last() =~= Seq::empty());
    }
}

/// One departure per session: over any sequence of events, a session
/// publishes the departure of its own player at most once, and exactly once
/// by the time it is closed, whether it was closed after a logout, a close
/// frame or a failure. It never publishes the departure of anyone else.
pub proof fn lemma_one_departure_per_session(user_id: i32, events: Seq<SessionEvent>)
    ensures
        ({
            let (session, actions) = Session::new(user_id).run(events);
            &&& session.user_id == user_id
            &&& session.logout_processed ==> session.state is Closing || session.state is Closed
            &&& departures_announced(actions, user_id) == (if session.state is Closed
                || session.logout_processed {
                1nat
            } else {
                0nat
            })
            &&& forall|other: i32|
                other != user_id ==> departures_announced(actions, other) == 0
        }),
    decreases events.len(),
{
    if events.len() > 0 {
        lemma_one_departure_per_session(user_id, events.drop_last());
        let (before, earlier) = Session::new(user_id).run(events.drop_last());
        let (after, latest) = before.next(events.last());
        lemma_departures_split(earlier, latest, user_id);
        lemma_step_announces(before, events.last(), user_id);
        assert forall|other: i32| other != user_id implies departures_announced(
            earlier + latest,
            other,
        ) == 0 by {
            lemma_departures_split(earlier, latest, other);
            lemma_step_announces(before, events.last(), other);
        }
    }
}

/// What reaches a session's own client: over any sequence of events, the
/// session never passes on the departure of its own player nor anybody's
/// snapshot of the registry, and the only snapshot its client gets is the one
/// that the session sends when it becomes active.
pub proof fn lemma_client_hears_only_of_others(user_id: i32, events: Seq<SessionEvent>)
    ensures
        ({
            let (session, actions) = Session::new(user_id).run(events);
            &&& forall|k: int|
                0 <= k < actions.len() ==> (#[trigger] actions[k] matches Action::Send(message)
                    ==> !(message is InitialPlayers) && message
                    != GameMessage::PlayerDisconnected { user_id })
            &&& snapshots_sent(actions) == (if session.state is Connecting {
                0nat
            } else {
                1nat
            })
        }),
    decreases events.len(),
{
    if events.len() > 0 {
        lemma_client_hears_only_of_others(user_id, events.drop_last());
        lemma_one_departure_per_session(user_id, events.drop_last());
        let (before, earlier) = Session::new(user_id).run(events.drop_last());
        let (after, latest) = before.next(events.last());
        lemma_snapshots_split(earlier, latest);
        lemma_step_announces(before, events.last(), user_id);
    }
}

/// The deliveries that hand each of `updates`, in order, to session `who` as
/// a position update from its client.
pub open spec fn position_updates(who: int, updates: Seq<PlayerPositionUpdate>) -> Seq<
    (int, SessionEvent),
> {
    Seq::new(
        updates.len(),
        |k: int|
            (
                who,
                SessionEvent::Client(
                    ClientFrame::Message(GameMessage::PlayerPosition(updates[k])),
                ),
            ),
    )
}

/// Repeated position updates leave one entry with the latest coordinates:
/// after an active session has handled any number of updates from its client,
/// whatever ids they carried, the registry differs from before only in the
/// session's own entry, which holds the coordinates of the last update under
/// the session's own id.
pub proof fn lemma_repeated_updates_keep_latest(
    world: World,
    who: int,
    updates: Seq<PlayerPositionUpdate>,
)
    requires
        0 <= who < world.sessions.len(),
        world.sessions[who].state is Active,
    ensures
        ({
            let after = world.run(position_updates(who, updates));
            let id = world.sessions[who].user_id;
            &&& after.sessions == world.sessions
            &&& after.registry == (if updates.len() == 0 {
                world.registry
            } else {
                world.registry.insert(id, updates.last().owned_by(id))
            })
        }),
    decreases updates.len(),
{
    if updates.len() > 0 {
        let id = world.sessions[who].user_id;
        let deliveries = position_updates(who, updates);
        assert(deliveries.drop_last() =~= position_updates(who, updates.drop_last()));
        lemma_repeated_updates_keep_latest(world, who, updates.drop_last());
        let before = world.run(deliveries.drop_last());
        let position = updates.last().owned_by(id);
        lemma_registry_after_short(
            before.registry,
            Action::Persist(position),
            Action::Upsert(position),
            Action::Publish(GameMessage::PlayerPosition(position)),
        );
        let after = before.deliver(who, deliveries.last().1);
        assert(after.sessions =~= world.sessions);
        assert(after.registry =~= world.registry.insert(id, position));
    }
}

/// A snapshot lists every player that is online exactly once, with the
/// position that the registry holds.
pub proof fn lemma_snapshot_lists_each_once(
    all: Seq<PlayerPositionUpdate>,
    players: Map<i32, PlayerPositionUpdate>,
    id: i32,
)
    requires
        is_snapshot(all, players),
    ensures
        players.contains_key(id) ==> exists|i: int|
            0 <= i < all.len() && #[trigger] all[i] == players[id] && forall|j: int|
                0 <= j < all.len() && (#[trigger] all[j]).user_id == id ==> j == i,
        !players.contains_key(id) ==> forall|j: int|
            0 <= j < all.len() ==> (#[trigger] all[j]).user_id != id,
{
    if players.contains_key(id) {
        let i = choose|i: int| 0 <= i < all.len() && (#[trigger] all[i]).user_id == id;
        assert(all[i] == players[id]);
        assert forall|j: int| 0 <= j < all.len() && (#[trigger] all[j]).user_id == id implies j
            == i by {
            if j < i {
                assert(all[j].user_id != all[i].user_id);
            } else if i < j {
                assert(all[i].user_id != all[j].user_id);
            }
        }
    }
}

/// A joining player is in its own snapshot: once a connecting session has
/// handled the position store's answer and its first action was carried out,
/// every snapshot of the registry lists the session's player exactly once, at
/// the stored coordinates, or at the origin where none were stored.
pub proof fn lemma_joiner_is_in_own_snapshot(
    session: Session,
    stored: Option<PlayerPositionUpdate>,
    players: Map<i32, PlayerPositionUpdate>,
    all: Seq<PlayerPositionUpdate>,
)
    requires
        session.state is Connecting,
        is_snapshot(all, registry_after(players, session.after_position_loaded(stored).1[0])),
    ensures
        session.after_position_loaded(stored).1.last() is SendInitialPlayers,
        exists|i: int|
            0 <= i < all.len() && #[trigger] all[i] == (match stored {
                Some(position) => position.owned_by(session.user_id),
                None => PlayerPositionUpdate::origin(session.user_id),
            }) && forall|j: int|
                0 <= j < all.len() && (#[trigger] all[j]).user_id == session.user_id ==> j == i,
{
    let joined = registry_after(players, session.after_position_loaded(stored).1[0]);
    assert(joined.contains_key(session.user_id));
    lemma_snapshot_lists_each_once(all, joined, session.user_id);
}

/// Whether `action` concerns nobody but `user_id`: a position it stores,
/// registers or publishes is attributed to `user_id`, the entry it removes
/// and the departure it publishes are those of `user_id`, and it publishes
/// nothing else.
pub open spec fn speaks_for(action: Action, user_id: i32) -> bool {
    match action {
        Action::Persist(position) => position.user_id == user_id,
        Action::Upsert(position) => position.user_id == user_id,
        Action::Remove { user_id: removed } => removed == user_id,
        Action::Publish(GameMessage::PlayerPosition(position)) => position.user_id == user_id,
        Action::Publish(GameMessage::PlayerDisconnected { user_id: gone }) => gone == user_id,
        Action::Publish(_) => false,
        _ => true,
    }
}

/// A session speaks for its own player only: over any sequence of events,
/// whatever ids its client put into them, every position the session stores,
/// registers or publishes bears the session's authenticated id, and it never
/// publishes a snapshot of the registry or a client's logout notice.
pub proof fn lemma_session_speaks_for_itself(user_id: i32, events: Seq<SessionEvent>)
    ensures
        ({
            let (session, actions) = Session::new(user_id).run(events);
            &&& session.user_id == user_id
            &&& forall|k: int| 0 <= k < actions.len() ==> speaks_for(#[trigger] actions[k], user_id)
        }),
    decreases events.len(),
{
    if events.len() > 0 {
        lemma_session_speaks_for_itself(user_id, events.drop_last());
    }
}

/// The order in which the actions of different players reach the registry
/// does not matter: two actions that speak for different players leave the
/// same registry whichever is carried out first.
pub proof fn lemma_players_do_not_interfere(
    players: Map<i32, PlayerPositionUpdate>,
    one: Action,
    one_id: i32,
    other: Action,
    other_id: i32,
)
    requires
        speaks_for(one, one_id),
        speaks_for(other, other_id),
        one_id != other_id,
    ensures
        registry_after(registry_after(players, one), other) == registry_after(
            registry_after(players, other),
            one,
        ),
{
    assert(registry_after(registry_after(players, one), other) =~= registry_after(
        registry_after(players, other),
        one,
    ));
}

} // verus!

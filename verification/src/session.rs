//! The per-connection session: a state machine that turns what happens on one
//! connection into the actions its owner has to carry out.
//!
//! A session never touches a socket, a store or the bus itself. It is handed
//! one event at a time and answers with the list of actions that the event
//! calls for, in the order in which they are to be performed.

use vstd::prelude::*;
use crate::identity::{decimal_i32, Claims};
use crate::message::{GameMessage, PlayerPositionUpdate, LOGOUT_LINGER_MILLIS};

verus! {

/// Where a session stands in its life.
#[derive(Debug, Clone, Copy, PartialEq, Eq, Structural)]
pub enum SessionState {
    /// The connection is authenticated; the player is not yet registered.
    Connecting,
    /// The player is registered and the session relays events both ways.
    Active,
    /// The session has stopped relaying and waits for its cleanup.
    Closing,
    /// The cleanup is done.
    Closed,
}

/// What a client sent, or what went wrong while receiving from it.
#[derive(Debug, Clone, PartialEq, Eq)]
pub enum ClientFrame {
    /// A text frame that holds a well-formed event.
    Message(GameMessage),
    /// A text frame that holds no well-formed event.
    Unparseable,
    /// A close frame.
    Close,
    /// Any other kind of frame.
    Other,
    /// Receiving failed.
    Failed,
}

/// One thing that happened to a session.
#[derive(Debug, Clone, PartialEq, Eq)]
pub enum SessionEvent {
    /// The position store answered: the player's last known position, if it
    /// holds one.
    PositionLoaded(Option<PlayerPositionUpdate>),
    /// Something arrived from the session's own client.
    Client(ClientFrame),
    /// An event arrived from the broadcast bus.
    Broadcast(GameMessage),
    /// An event could not be written to the session's own client.
    SendFailed,
    /// The connection is gone and the session is to clean up after itself.
    Teardown,
}

/// One thing a session asks its owner to do.
#[derive(Debug, Clone, PartialEq, Eq)]
pub enum Action {
    /// Write the position to the position store. A failure is not reported
    /// back to the session.
    Persist(PlayerPositionUpdate),
    /// Put the position into the registry of active players, under the id it
    /// carries.
    Upsert(PlayerPositionUpdate),
    /// Take the player out of the registry of active players.
    Remove { user_id: i32 },
    /// Publish the event on the broadcast bus.
    Publish(GameMessage),
    /// Write the event to the session's own client. A failure comes back as
    /// [`SessionEvent::SendFailed`].
    Send(GameMessage),
    /// Write the registry's current content to the session's own client, as
    /// one `InitialPlayers` event. A failure is not reported back.
    SendInitialPlayers,
    /// Wait for the given number of milliseconds.
    Linger { millis: u64 },
}

/// The state of one connection's session.
#[derive(Debug, Clone, Copy, PartialEq, Eq, Structural)]
pub struct Session {
    /// The authenticated identity of the player behind the connection.
    pub user_id: i32,
    pub state: SessionState,
    /// Whether the session has already announced the player's departure.
    pub logout_processed: bool,
}

impl Session {
    /// A session for the authenticated player `user_id`, before anything has
    /// happened on it.
    pub open spec fn spec_new(user_id: i32) -> Session {
        Session { user_id, state: SessionState::Connecting, logout_processed: false }
    }

    /// Whether the session passes an event of the bus on to its own client.
    ///
    /// A snapshot of the registry is never passed on, and neither is the
    /// news of the session's own departure.
    pub open spec fn spec_forwards(&self, message: &GameMessage) -> bool {
        match *message {
            GameMessage::InitialPlayers(_) => false,
            GameMessage::PlayerDisconnected { user_id } => user_id != self.user_id,
            _ => true,
        }
    }

    /// The session moved to `state`, all else unchanged.
    pub open spec fn moved_to(self, state: SessionState) -> Session {
        Session { state, ..self }
    }

    /// The answer to the position store's reply: the player enters the
    /// registry at the stored position, or at the origin, and gets the
    /// registry's content.
    pub open spec fn after_position_loaded(
        self,
        stored: Option<PlayerPositionUpdate>,
    ) -> (Session, Seq<Action>) {
        if self.state is Connecting {
            let start = match stored {
                Some(position) => position.owned_by(self.user_id),
                None => PlayerPositionUpdate::origin(self.user_id),
            };
            (
                self.moved_to(SessionState::Active),
                seq![Action::Upsert(start), Action::SendInitialPlayers],
            )
        } else {
            (self, Seq::empty())
        }
    }

    /// The answer to a frame from the session's own client.
    pub open spec fn after_client_frame(self, frame: ClientFrame) -> (Session, Seq<Action>) {
        if self.state is Active {
            match frame {
                ClientFrame::Message(GameMessage::PlayerPosition(update)) => {
                    let position = update.owned_by(self.user_id);
                    (
                        self,
                        seq![
                            Action::Persist(position),
                            Action::Upsert(position),
                            Action::Publish(GameMessage::PlayerPosition(position)),
                        ],
                    )
                },
                ClientFrame::Message(GameMessage::PlayerLogout { user_id }) => {
                    if user_id == self.user_id {
                        (
                            Session {
                                user_id: self.user_id,
                                state: SessionState::Closing,
                                logout_processed: true,
                            },
                            seq![
                                Action::Remove { user_id: self.user_id },
                                Action::Publish(
                                    GameMessage::PlayerDisconnected { user_id: self.user_id },
                                ),
                                Action::Linger { millis: LOGOUT_LINGER_MILLIS },
                            ],
                        )
                    } else {
                        (self, Seq::empty())
                    }
                },
                ClientFrame::Close | ClientFrame::Failed => (
                    self.moved_to(SessionState::Closing),
                    Seq::empty(),
                ),
                _ => (self, Seq::empty()),
            }
        } else {
            (self, Seq::empty())
        }
    }

    /// The answer to an event of the bus.
    pub open spec fn after_broadcast(self, message: GameMessage) -> (Session, Seq<Action>) {
        if self.state is Active && self.forwards(&message) {
            (self, seq![Action::Send(message)])
        } else {
            (self, Seq::empty())
        }
    }

    /// The answer to a failed write to the session's own client.
    pub open spec fn after_send_failed(self) -> (Session, Seq<Action>) {
        if self.state is Active {
            (self.moved_to(SessionState::Closing), Seq::empty())
        } else {
            (self, Seq::empty())
        }
    }

    /// The cleanup: the player leaves the registry, and the departure is
    /// announced unless it already was.
    pub open spec fn after_teardown(self) -> (Session, Seq<Action>) {
        if self.state is Closing {
            let leave = Action::Remove { user_id: self.user_id };
            let announce = Action::Publish(
                GameMessage::PlayerDisconnected { user_id: self.user_id },
            );
            (
                self.moved_to(SessionState::Closed),
                if self.logout_processed {
                    seq![leave]
                } else {
                    seq![leave, announce]
                },
            )
        } else {
            (self, Seq::empty())
        }
    }

    /// The session after `event`, and the actions that `event` calls for.
    ///
    /// An event that does not belong to the state the session is in changes
    /// nothing and calls for nothing.
    pub open spec fn next(self, event: SessionEvent) -> (Session, Seq<Action>) {
        match event {
            SessionEvent::PositionLoaded(stored) => self.after_position_loaded(stored),
            SessionEvent::Client(frame) => self.after_client_frame(frame),
            SessionEvent::Broadcast(message) => self.after_broadcast(message),
            SessionEvent::SendFailed => self.after_send_failed(),
            SessionEvent::Teardown => self.after_teardown(),
        }
    }

    /// A session for the authenticated player `user_id`.
    #[verifier::when_used_as_spec(spec_new)]
    pub fn new(user_id: i32) -> (session: Session)
        ensures
            session == Session::spec_new(user_id),
    {
        Session { user_id, state: SessionState::Connecting, logout_processed: false }
    }

    /// A session for the player that `claims` were issued to; none where
    /// their subject writes no player id.
    pub fn authenticated(claims: &Claims) -> (session: Option<Session>)
        ensures
            session == (match decimal_i32(claims.sub@) {
                Some(user_id) => Some(Session::new(user_id)),
                None => None,
            }),
    {
        match claims.user_id() {
            Some(user_id) => Some(Session::new(user_id)),
            None => None,
        }
    }

    /// Whether the session passes `message`, an event of the bus, on to its
    /// own client.
    #[verifier::when_used_as_spec(spec_forwards)]
    pub fn forwards(&self, message: &GameMessage) -> (forwarded: bool)
        ensures
            forwarded == self.spec_forwards(message),
    {
        match message {
            GameMessage::InitialPlayers(_) => false,
            GameMessage::PlayerDisconnected { user_id } => *user_id != self.user_id,
            _ => true,
        }
    }

    /// Registers the player once the position store has answered.
    pub fn on_position_loaded(&mut self, stored: Option<PlayerPositionUpdate>) -> (actions: Vec<
        Action,
    >)
        ensures
            (*final(self), actions@) == old(self).after_position_loaded(stored),
    {
        let mut actions: Vec<Action> = Vec::new();
        match self.state {
            SessionState::Connecting => {
                let start = match stored {
                    Some(position) => position.owned_by(self.user_id),
                    None => PlayerPositionUpdate::origin(self.user_id),
                };
                self.state = SessionState::Active;
                actions.push(Action::Upsert(start));
                actions.push(Action::SendInitialPlayers);
                assert(actions@ =~= seq![Action::Upsert(start), Action::SendInitialPlayers]);
            },
            _ => {
                assert(actions@ =~= Seq::empty());
            },
        }
        actions
    }

    /// Handles one frame from the session's own client.
    pub fn on_client_frame(&mut self, frame: ClientFrame) -> (actions: Vec<Action>)
        ensures
            (*final(self), actions@) == old(self).after_client_frame(frame),
    {
        let mut actions: Vec<Action> = Vec::new();
        assert(actions@ =~= Seq::empty());
        match self.state {
            SessionState::Active => {},
            _ => {
                return actions;
            },
        }
        match frame {
            ClientFrame::Message(GameMessage::PlayerPosition(update)) => {
                let position = update.owned_by(self.user_id);
                actions.push(Action::Persist(position));
                actions.push(Action::Upsert(position));
                actions.push(Action::Publish(GameMessage::PlayerPosition(position)));
                assert(actions@ =~= seq![
                    Action::Persist(position),
                    Action::Upsert(position),
                    Action::Publish(GameMessage::PlayerPosition(position)),
                ]);
            },
            ClientFrame::Message(GameMessage::PlayerLogout { user_id }) => {
                if user_id == self.user_id {
                    self.logout_processed = true;
                    self.state = SessionState::Closing;
                    actions.push(Action::Remove { user_id: self.user_id });
                    actions.push(
                        Action::Publish(GameMessage::PlayerDisconnected { user_id: self.user_id }),
                    );
                    actions.push(Action::Linger { millis: LOGOUT_LINGER_MILLIS });
                    assert(actions@ =~= seq![
                        Action::Remove { user_id: self.user_id },
                        Action::Publish(GameMessage::PlayerDisconnected { user_id: self.user_id }),
                        Action::Linger { millis: LOGOUT_LINGER_MILLIS },
                    ]);
                }
            },
            ClientFrame::Close | ClientFrame::Failed => {
                self.state = SessionState::Closing;
            },
            _ => {},
        }
        actions
    }

    /// Handles one event of the bus.
    pub fn on_broadcast(&mut self, message: GameMessage) -> (actions: Vec<Action>)
        ensures
            (*final(self), actions@) == old(self).after_broadcast(message),
    {
        let mut actions: Vec<Action> = Vec::new();
        let relays = match self.state {
            SessionState::Active => self.forwards(&message),
            _ => false,
        };
        if relays {
            actions.push(Action::Send(message));
            assert(actions@ =~= seq![Action::Send(message)]);
        } else {
            assert(actions@ =~= Seq::empty());
        }
        actions
    }

    /// Handles a failed write to the session's own client.
    pub fn on_send_failed(&mut self) -> (actions: Vec<Action>)
        ensures
            (*final(self), actions@) == old(self).after_send_failed(),
    {
        let actions: Vec<Action> = Vec::new();
        assert(actions@ =~= Seq::empty());
        match self.state {
            SessionState::Active => {
                self.state = SessionState::Closing;
            },
            _ => {},
        }
        actions
    }

    /// Cleans up after the connection is gone.
    pub fn on_teardown(&mut self) -> (actions: Vec<Action>)
        ensures
            (*final(self), actions@) == old(self).after_teardown(),
    {
        let mut actions: Vec<Action> = Vec::new();
        match self.state {
            SessionState::Closing => {
                self.state = SessionState::Closed;
                actions.push(Action::Remove { user_id: self.user_id });
                if !self.logout_processed {
                    actions.push(
                        Action::Publish(GameMessage::PlayerDisconnected { user_id: self.user_id }),
                    );
                    assert(actions@ =~= seq![
                        Action::Remove { user_id: self.user_id },
                        Action::Publish(GameMessage::PlayerDisconnected { user_id: self.user_id }),
                    ]);
                } else {
                    assert(actions@ =~= seq![Action::Remove { user_id: self.user_id }]);
                }
            },
            _ => {
                assert(actions@ =~= Seq::empty());
            },
        }
        actions
    }

    /// Moves the session on by one event and returns the actions that the
    /// event calls for, in the order in which they are to be performed.
    pub fn step(&mut self, event: SessionEvent) -> (actions: Vec<Action>)
        ensures
            (*final(self), actions@) == old(self).next(event),
    {
        match event {
            SessionEvent::PositionLoaded(stored) => self.on_position_loaded(stored),
            SessionEvent::Client(frame) => self.on_client_frame(frame),
            SessionEvent::Broadcast(message) => self.on_broadcast(message),
            SessionEvent::SendFailed => self.on_send_failed(),
            SessionEvent::Teardown => self.on_teardown(),
        }
    }

    /// Whether the session is relaying events.
    pub fn is_active(&self) -> (active: bool)
        ensures
            active == (self.state is Active),
    {
        match self.state {
            SessionState::Active => true,
            _ => false,
        }
    }
}

} // verus!

use player_sync::message::{GameMessage, PlayerPositionUpdate};
use player_sync::registry::ActivePlayers;
use player_sync::session::{Action, ClientFrame, Session, SessionEvent, SessionState};

fn at(user_id: i32, x: f64, y: f64, z: f64) -> PlayerPositionUpdate {
    PlayerPositionUpdate { user_id, x: x.to_bits(), y: y.to_bits(), z: z.to_bits() }
}

struct Client {
    session: Session,
    received: Vec<GameMessage>,
}

/// Sessions around one registry and one bus, with every action carried out
/// at once and every published event handed to every session.
struct Hub {
    registry: ActivePlayers,
    clients: Vec<Client>,
    published: Vec<GameMessage>,
    persisted: Vec<PlayerPositionUpdate>,
}

impl Hub {
    fn new() -> Hub {
        Hub {
            registry: ActivePlayers::new(),
            clients: Vec::new(),
            published: Vec::new(),
            persisted: Vec::new(),
        }
    }

    fn connect(&mut self, user_id: i32, stored: Option<PlayerPositionUpdate>) -> usize {
        self.clients.push(Client { session: Session::new(user_id), received: Vec::new() });
        let who = self.clients.len() - 1;
        self.deliver(who, SessionEvent::PositionLoaded(stored));
        who
    }

    fn deliver(&mut self, who: usize, event: SessionEvent) {
        let actions = self.clients[who].session.step(event);
        for action in actions {
            self.registry.apply(&action);
            match action {
                Action::Persist(position) => self.persisted.push(position),
                Action::Publish(message) => {
                    self.published.push(message.clone());
                    for other in 0..self.clients.len() {
                        self.deliver(other, SessionEvent::Broadcast(message.clone()));
                    }
                }
                Action::Send(message) => self.clients[who].received.push(message),
                Action::SendInitialPlayers => {
                    let mut all = self.registry.get_all();
                    all.sort_by_key(|p| p.user_id);
                    self.clients[who].received.push(GameMessage::InitialPlayers(all));
                }
                Action::Upsert(_) | Action::Remove { .. } | Action::Linger { .. } => {}
            }
        }
    }

    fn say(&mut self, who: usize, message: GameMessage) {
        self.deliver(who, SessionEvent::Client(ClientFrame::Message(message)));
    }

    fn drop_connection(&mut self, who: usize, frame: ClientFrame) {
        self.deliver(who, SessionEvent::Client(frame));
        self.deliver(who, SessionEvent::Teardown);
    }

    fn online(&self) -> Vec<i32> {
        let mut ids: Vec<i32> = self.registry.get_all().iter().map(|p| p.user_id).collect();
        ids.sort();
        ids
    }

    fn departures_of(&self, user_id: i32) -> usize {
        self.published
            .iter()
            .filter(|m| **m == GameMessage::PlayerDisconnected { user_id })
            .count()
    }
}

#[test]
fn two_players_join_move_and_one_drops() {
    let mut hub = Hub::new();
    let a = hub.connect(1, None);
    assert_eq!(
        hub.clients[a].received,
        vec![GameMessage::InitialPlayers(vec![at(1, 0.0, 0.0, 0.0)])]
    );

    hub.say(a, GameMessage::PlayerPosition(at(1, 1.0, 2.0, 3.0)));
    assert_eq!(hub.registry.get_all(), vec![at(1, 1.0, 2.0, 3.0)]);
    assert_eq!(hub.persisted, vec![at(1, 1.0, 2.0, 3.0)]);

    let b = hub.connect(2, None);
    assert_eq!(
        hub.clients[b].received,
        vec![GameMessage::InitialPlayers(vec![
            at(1, 1.0, 2.0, 3.0),
            at(2, 0.0, 0.0, 0.0)
        ])]
    );

    hub.drop_connection(a, ClientFrame::Close);
    let heard: Vec<&GameMessage> = hub.clients[b]
        .received
        .iter()
        .filter(|m| **m == GameMessage::PlayerDisconnected { user_id: 1 })
        .collect();
    assert_eq!(heard.len(), 1);
    assert_eq!(hub.registry.get(1), None);
    assert_eq!(hub.online(), vec![2]);
    assert_eq!(hub.clients[a].session.state, SessionState::Closed);
}

#[test]
fn logout_announces_once_even_after_the_connection_closes() {
    let mut hub = Hub::new();
    let a = hub.connect(1, None);
    let b = hub.connect(2, None);
    hub.say(a, GameMessage::PlayerLogout { user_id: 1 });
    assert_eq!(hub.registry.get(1), None);
    assert_eq!(hub.departures_of(1), 1);
    assert_eq!(hub.clients[a].session.state, SessionState::Closing);

    hub.deliver(a, SessionEvent::Teardown);
    assert_eq!(hub.departures_of(1), 1);
    assert_eq!(hub.clients[a].session.state, SessionState::Closed);
    assert_eq!(
        hub.clients[b].received[1..],
        [GameMessage::PlayerDisconnected { user_id: 1 }]
    );
    assert_eq!(hub.online(), vec![2]);
}

#[test]
fn every_way_of_ending_announces_exactly_once() {
    for frame in [ClientFrame::Close, ClientFrame::Failed] {
        let mut hub = Hub::new();
        let a = hub.connect(1, None);
        hub.drop_connection(a, frame);
        assert_eq!(hub.departures_of(1), 1);
    }
    let mut hub = Hub::new();
    let a = hub.connect(1, None);
    hub.deliver(a, SessionEvent::SendFailed);
    hub.deliver(a, SessionEvent::Teardown);
    hub.deliver(a, SessionEvent::Teardown);
    assert_eq!(hub.departures_of(1), 1);
    assert_eq!(hub.published, vec![GameMessage::PlayerDisconnected { user_id: 1 }]);
}

#[test]
fn spoofed_update_reaches_registry_and_bus_under_the_real_id() {
    let mut hub = Hub::new();
    let a = hub.connect(1, None);
    let b = hub.connect(2, None);
    hub.say(a, GameMessage::PlayerPosition(at(2, 7.0, 8.0, 9.0)));
    assert_eq!(hub.registry.get(1), Some(at(1, 7.0, 8.0, 9.0)));
    assert_eq!(hub.registry.get(2), Some(at(2, 0.0, 0.0, 0.0)));
    assert_eq!(hub.published, vec![GameMessage::PlayerPosition(at(1, 7.0, 8.0, 9.0))]);
    assert_eq!(
        hub.clients[b].received[1..],
        [GameMessage::PlayerPosition(at(1, 7.0, 8.0, 9.0))]
    );
    assert_eq!(hub.persisted, vec![at(1, 7.0, 8.0, 9.0)]);
}

#[test]
fn a_client_never_hears_of_its_own_departure_nor_a_foreign_snapshot() {
    let mut hub = Hub::new();
    let a = hub.connect(1, None);
    let b = hub.connect(2, None);
    let foreign = GameMessage::InitialPlayers(vec![at(9, 1.0, 1.0, 1.0)]);
    hub.deliver(a, SessionEvent::Broadcast(foreign));
    hub.deliver(a, SessionEvent::Broadcast(GameMessage::PlayerDisconnected { user_id: 1 }));
    hub.say(a, GameMessage::PlayerLogout { user_id: 1 });
    hub.deliver(a, SessionEvent::Teardown);
    hub.drop_connection(b, ClientFrame::Close);
    for (who, user_id) in [(a, 1), (b, 2)] {
        let received = &hub.clients[who].received;
        assert!(matches!(received[0], GameMessage::InitialPlayers(_)));
        for message in &received[1..] {
            assert!(!matches!(message, GameMessage::InitialPlayers(_)));
            assert_ne!(*message, GameMessage::PlayerDisconnected { user_id });
        }
    }
}

#[test]
fn a_player_hears_its_own_position_update() {
    let mut hub = Hub::new();
    let a = hub.connect(1, None);
    hub.say(a, GameMessage::PlayerPosition(at(1, 1.0, 2.0, 3.0)));
    assert_eq!(
        hub.clients[a].received[1..],
        [GameMessage::PlayerPosition(at(1, 1.0, 2.0, 3.0))]
    );
}

#[test]
fn registry_follows_the_open_sessions() {
    let mut hub = Hub::new();
    let a = hub.connect(1, None);
    let b = hub.connect(2, Some(at(2, 5.0, 5.0, 5.0)));
    let c = hub.connect(3, None);
    assert_eq!(hub.online(), vec![1, 2, 3]);
    hub.say(b, GameMessage::PlayerPosition(at(2, 6.0, 6.0, 6.0)));
    hub.say(b, GameMessage::PlayerPosition(at(2, 7.0, 7.0, 7.0)));
    assert_eq!(hub.online(), vec![1, 2, 3]);
    assert_eq!(hub.registry.get(2), Some(at(2, 7.0, 7.0, 7.0)));
    hub.drop_connection(a, ClientFrame::Failed);
    assert_eq!(hub.online(), vec![2, 3]);
    hub.say(c, GameMessage::PlayerLogout { user_id: 3 });
    hub.deliver(c, SessionEvent::Teardown);
    assert_eq!(hub.online(), vec![2]);
    hub.drop_connection(b, ClientFrame::Close);
    assert!(hub.online().is_empty());
    assert_eq!(hub.departures_of(1), 1);
    assert_eq!(hub.departures_of(2), 1);
    assert_eq!(hub.departures_of(3), 1);
}

#[test]
fn reconnecting_player_resumes_from_the_stored_position() {
    let mut hub = Hub::new();
    let a = hub.connect(1, None);
    hub.say(a, GameMessage::PlayerPosition(at(1, 1.0, 2.0, 3.0)));
    hub.drop_connection(a, ClientFrame::Close);
    let stored = hub.persisted.last().copied();
    let again = hub.connect(1, stored);
    assert_eq!(
        hub.clients[again].received,
        vec![GameMessage::InitialPlayers(vec![at(1, 1.0, 2.0, 3.0)])]
    );
    assert_eq!(hub.online(), vec![1]);
}

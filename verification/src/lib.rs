//! Real-time position sharing for connected players.
//!
//! - [`message`]: the events that travel between clients, sessions and the bus.
//! - [`registry`]: who is online right now, and where.
//! - [`session`]: the state machine behind one connection. It is handed events
//!   and answers with the actions its owner is to carry out.
//! - [`world`]: what is proved of sessions and registry together, for every
//!   sequence of events.
//! - [`identity`]: player ids as they travel in access tokens.
//! - [`credentials`]: accounts, passwords and the decision of a login.
//! - [`config`]: the settings the server is started with.
//!
//! The library does no input or output. Sockets, the position store, the bus
//! and the clock belong to the program around it.

pub mod config;
pub mod credentials;
pub mod identity;
pub mod message;
pub mod registry;
pub mod session;
pub mod world;

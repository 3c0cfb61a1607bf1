//! Server-side rules of Zobbo, a two-player memory card game.
//!
//! Each player has six cards face down; in turn the players draw, swap and
//! discard, some discarded cards grant a power, and when a player calls
//! Zobbo the match ends two turns later with the lowest hand winning.
//!
//! - [`card`], [`deck`]: cards, their points, the standard deck.
//! - [`model`]: the match as mathematics, one definition for each action.
//! - [`game`]: the engine, each action checked against the model.
//! - [`laws`]: what holds of every match, proved.
//! - [`score`]: the reveal.
//! - [`message`], [`room`], [`session`]: a room with its two players, and
//!   what each is told when something happens.
//! - [`token`]: signed tokens for joining a room's session.
//! - [`registry`]: rooms that are entered by token.
//! - [`http`]: rules for what may be served.
//!
//! Nothing in this library reads a socket or takes a lock: the functions
//! take a state and an event and return the new state together with the
//! messages to send.

pub mod card;
pub mod deck;
pub mod model;
pub mod game;
pub mod laws;
pub mod score;
pub mod message;
pub mod registry;
pub mod room;
pub mod token;
pub mod session;
pub mod http;

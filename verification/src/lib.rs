//! Game-table logic of a chess server: seats, subscriptions, tokens, move
//! admission and the idle-game sweep, as a state machine whose outside work
//! (sockets, the board engine, timers) is described by returned effects.
pub mod clock;
pub mod ids;
pub mod player;
pub mod board;
pub mod subscribers;
pub mod messages;
pub mod game;
pub mod table;
pub mod requests;
pub mod server;
pub mod engine;
pub mod laws;
pub mod session;
pub mod request_laws;

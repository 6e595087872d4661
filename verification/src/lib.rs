//! Session synchronisation for two-player chess games: the lifecycle of a
//! game, the admission of moves, joins and resignations, and the events that
//! the viewers of a game receive.
//!
//! The library decides; it neither reads nor writes the store, and it opens
//! no connection. A caller looks a game up, hands it to one of the deciding
//! functions, writes what was decided and publishes the events:
//!
//! - [`chess`] asks the board: is this a position, is this move legal in it,
//!   what is the position after it, has the game ended.
//! - [`admission`] decides a move, a resignation or a join on the game as it
//!   stands, and says what is to be written and published.
//! - [`routes`] shapes the decisions for the REST surface and for the
//!   commands that arrive on a connection.
//! - [`db`] holds the stored game, its projections, and what each write of
//!   the store does to a game.
//! - [`session`] follows a game through any run of requests and states what
//!   holds of it throughout.
//! - [`state`] holds the channels on which the events are published.
//! - [`protocol`] and [`error`] hold the messages and the failures.
//!
//! Each type with texts in it has a view with the texts as sequences of
//! characters, and the contracts are stated over those views.

pub mod admission;
pub mod chess;
pub mod db;
pub mod error;
pub mod protocol;
pub mod routes;
pub mod session;
pub mod state;

//! What each write of the store does to a game.
//!
//! The store runs these as single statements, so that each is done whole or
//! not at all. Here they are functions from the game before the write to the
//! game after it.

use vstd::prelude::*;
use crate::admission::{GameUpdate, Written};
use crate::db::models::{clone_text, clone_texts, GameRow, GameStatus, Session};

verus! {

/// The position in which every game starts.
pub const START_FEN: &'static str = "rnbqkbnr/pppppppp/8/8/8/8/PPPPPPPP/RNBQKBNR w KQkq - 0 1";

impl Session {
    /// A new game: waiting for its second player, nothing played.
    pub open spec fn created(id: u128, white_secret: u128, now: i64) -> Session {
        Session {
            id,
            white_secret,
            black_secret: None,
            fen: START_FEN@,
            moves: Seq::<Seq<char>>::empty(),
            status: GameStatus::Waiting,
            result: None,
            created_at: now,
            updated_at: now,
        }
    }

    /// The game once the second player has joined it with `secret`.
    pub open spec fn joined(self, secret: u128, now: i64) -> Session {
        Session {
            black_secret: Some(secret),
            status: GameStatus::Active,
            updated_at: now,
            ..self
        }
    }

    /// The game once `state` has been written to it.
    pub open spec fn updated(self, state: Written, now: i64) -> Session {
        Session {
            fen: state.fen,
            moves: state.moves,
            status: state.status,
            result: state.result,
            updated_at: now,
            ..self
        }
    }
}

/// A new game, whose first player has `white_secret`.
pub fn create_game(id: u128, white_secret: u128, now: i64) -> (game: GameRow)
    ensures
        game@ == Session::created(id, white_secret, now),
{
    let moves: Vec<String> = Vec::new();
    assert(moves.deep_view() =~= Seq::<Seq<char>>::empty());
    GameRow {
        id,
        white_secret,
        black_secret: None,
        fen: START_FEN.to_owned(),
        moves,
        status: GameStatus::Waiting,
        result: None,
        created_at: now,
        updated_at: now,
    }
}

/// Joins the second player, with `secret`, to a game that has none. A game
/// that has its second player is not written to, and nothing is returned.
pub fn join_game(game: &GameRow, secret: u128, now: i64) -> (joined: Option<GameRow>)
    ensures
        game.black_secret is Some ==> joined is None,
        game.black_secret is None ==> joined is Some && joined->0@ == game@.joined(secret, now),
{
    if game.black_secret.is_some() {
        return None;
    }
    Some(
        GameRow {
            id: game.id,
            white_secret: game.white_secret,
            black_secret: Some(secret),
            fen: game.fen.clone(),
            moves: clone_texts(&game.moves),
            status: GameStatus::Active,
            result: clone_text(&game.result),
            created_at: game.created_at,
            updated_at: now,
        },
    )
}

/// Writes a position, the moves, a status and a result to a game.
pub fn update_game_state(
    game: &GameRow,
    fen: &str,
    moves: &Vec<String>,
    status: GameStatus,
    result: Option<&str>,
    now: i64,
) -> (updated: GameRow)
    ensures
        updated@ == game@.updated(
            (Written { fen: fen@, moves: moves.deep_view(), status, result: result.deep_view() }),
            now,
        ),
{
    GameRow {
        id: game.id,
        white_secret: game.white_secret,
        black_secret: game.black_secret,
        fen: fen.to_owned(),
        moves: clone_texts(moves),
        status,
        result: match result {
            Some(r) => Some(r.to_owned()),
            None => None,
        },
        created_at: game.created_at,
        updated_at: now,
    }
}

/// Writes to a game the state that an accepted request asks for.
pub fn write_update(game: &GameRow, update: &GameUpdate, now: i64) -> (updated: GameRow)
    ensures
        updated@ == game@.updated(update@, now),
{
    let result = match &update.result {
        Some(r) => Some(r.as_str()),
        None => None,
    };
    update_game_state(game, update.fen.as_str(), &update.moves, update.status, result, now)
}

} // verus!

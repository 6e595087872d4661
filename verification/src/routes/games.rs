//! The requests of the REST surface.
//!
//! Each function is handed what the store holds and decides the answer. It
//! neither reads nor writes the store, and publishes nothing itself.

use vstd::prelude::*;
use crate::admission::{
    admit_join, admit_move, already_joined, found_view, join_admitted, move_admitted, not_found,
    require_game, MoveOutcome,
};
use crate::chess::{legal_moves_uci, legal_uci_moves, parse_fen, parsed_position, Color};
use crate::db::models::{GameResponse, GameRow, GameWithSecret, Projection, Seat, Session};
use crate::error::{result_view, AppError, Failure};
use crate::protocol::{Event, ServerMessage};

verus! {

/// The body of a request to play a move.
#[derive(Debug, Clone, PartialEq, Eq)]
pub struct MakeMoveRequest {
    /// The move in UCI notation.
    pub mv: String,
    pub secret: u128,
}

/// The failure of a join after which the game has no second secret.
pub open spec fn no_black_secret() -> Failure {
    Failure::Internal("Failed to generate black secret"@)
}

/// What the second player and the viewers are told of a game that has just
/// been joined: the player's seat, and the event for the viewers.
pub open spec fn join_announced(game: Session) -> Result<(Seat, Event), Failure> {
    match game.black_secret {
        None => Err(no_black_secret()),
        Some(secret) => match parsed_position(game.fen) {
            Err(e) => Err(e),
            Ok(pos) => Ok(
                (
                    game.with_secret(secret, Color::Black.text()),
                    Event::PlayerJoined {
                        color: Color::Black.text(),
                        fen: game.fen,
                        status: game.status.text(),
                        legal_moves: legal_uci_moves(pos),
                    },
                ),
            ),
        },
    }
}

/// What is answered to a request for the game that was looked up, if any.
pub open spec fn game_shown(found: Option<Session>) -> Result<Projection, Failure> {
    match found {
        Some(game) => Ok(game.response()),
        None => Err(not_found()),
    }
}

/// A seat and an event, or a failure, with their texts as sequences of
/// characters.
pub open spec fn announced_view(r: Result<(GameWithSecret, ServerMessage), AppError>) -> Result<
    (Seat, Event),
    Failure,
> {
    match r {
        Ok((seat, event)) => Ok((seat@, event@)),
        Err(e) => Err(e@),
    }
}

/// What is answered to a join once the store has been asked to join the
/// second player: `joined` is the game as the store then holds it, or
/// nothing where the store found the second player there already, as it
/// does for the later of two joins that were both admitted.
pub open spec fn join_answered(joined: Option<Session>) -> Result<(Seat, Event), Failure> {
    match joined {
        None => Err(already_joined()),
        Some(game) => join_announced(game),
    }
}

/// The answer to the creation of a game: the game that the store has made,
/// with the first player's secret and side.
pub fn create_game(created: &GameRow) -> (seat: GameWithSecret)
    ensures
        seat@ == created@.with_secret(created.white_secret, Color::White.text()),
{
    created.to_with_secret(created.white_secret, "white")
}

/// The answer to a listing: each of the games, as anyone may see it.
pub fn list_games(games: &Vec<GameRow>) -> (responses: Vec<GameResponse>)
    ensures
        responses.deep_view() == games@.map_values(|game: GameRow| game@.response()),
{
    let mut responses: Vec<GameResponse> = Vec::new();
    let mut i: usize = 0;
    while i < games.len()
        invariant
            i <= games.len(),
            responses.len() == i,
            forall|k: int| 0 <= k < i ==> responses[k]@ == games[k]@.response(),
        decreases games.len() - i,
    {
        responses.push(games[i].to_response());
        i += 1;
    }
    assert(responses.deep_view() =~= games@.map_values(|game: GameRow| game@.response()));
    responses
}

/// The answer to a request for one game.
pub fn get_game(found: Option<GameRow>) -> (r: Result<GameResponse, AppError>)
    ensures
        result_view(r) == game_shown(found_view(found)),
{
    match require_game(found) {
        Ok(game) => Ok(game.to_response()),
        Err(e) => Err(e),
    }
}

/// Decides whether the game that was looked up may be joined. Where it may,
/// the store is asked to join the second player, and the game that it then
/// holds goes to [`player_joined`].
pub fn join_game(found: &Option<GameRow>) -> (r: Result<(), AppError>)
    ensures
        result_view(r) == join_admitted(found_view(*found)),
{
    admit_join(found)
}

/// The event that tells the viewers of the second player, given the moves
/// that the board allows.
pub fn joined_event(game: &GameRow, legal: Vec<String>) -> (event: ServerMessage)
    ensures
        event@ == (Event::PlayerJoined {
            color: Color::Black.text(),
            fen: game@.fen,
            status: game@.status.text(),
            legal_moves: legal.deep_view(),
        }),
{
    ServerMessage::PlayerJoined {
        color: "black".to_owned(),
        fen: game.fen.clone(),
        status: game.status.to_string(),
        legal_moves: legal,
    }
}

/// The answer to a join and the event to publish for it, given the game as
/// the store holds it after the join.
pub fn player_joined(game: &GameRow) -> (r: Result<(GameWithSecret, ServerMessage), AppError>)
    ensures
        announced_view(r) == join_announced(game@),
{
    let secret = match game.black_secret {
        Some(secret) => secret,
        None => return Err(AppError::Internal("Failed to generate black secret".to_owned())),
    };
    let pos = match parse_fen(game.fen.as_str()) {
        Ok(pos) => pos,
        Err(e) => return Err(e),
    };
    let event = joined_event(game, legal_moves_uci(&pos));
    Ok((game.to_with_secret(secret, "black"), event))
}

/// The answer to a join and the event to publish for it, once the store has
/// been asked to join the second player. `joined` is the game as the store
/// then holds it, or nothing where the store joined nobody because the
/// second player was there already: that join is refused as a conflict.
pub fn join_answer(joined: Option<GameRow>) -> (r: Result<
    (GameWithSecret, ServerMessage),
    AppError,
>)
    ensures
        announced_view(r) == join_answered(found_view(joined)),
        joined is None ==> r is Err && r->Err_0@ == already_joined(),
        joined matches Some(game) ==> announced_view(r) == join_announced(game@),
{
    match joined {
        None => Err(AppError::Conflict("Game already has two players".to_owned())),
        Some(game) => player_joined(&game),
    }
}

/// Decides a request to play a move in the game that was looked up. Where
/// the move is accepted, the store is asked to hold [`MoveOutcome::update`],
/// and [`MoveOutcome::events`] are published.
pub fn make_move(found: Option<GameRow>, req: &MakeMoveRequest) -> (r: Result<
    MoveOutcome,
    AppError,
>)
    ensures
        result_view(r) == move_admitted(found_view(found), req.mv@, req.secret),
{
    admit_move(found, req.mv.as_str(), req.secret)
}

} // verus!

//! What a connection is sent when it opens, and what becomes of the commands
//! that arrive on it.
//!
//! A command never closes the connection. One that is refused is answered
//! with an error event, which goes to every viewer of the game. Where the
//! store has failed, the event says so and no more.

use vstd::prelude::*;
use crate::admission::{
    admit_move, admit_resignation, found_view, move_admitted, not_found, require_game,
    resignation_admitted, GameUpdate, Written,
};
use crate::chess::{legal_moves_uci, legal_uci_moves, parse_fen, parsed_position};
use crate::db::models::{GameRow, GameStatus, Session};
use crate::error::{result_view, AppError, Failure};
use crate::protocol::{ClientMessage, Command, Event, ServerMessage};

verus! {

/// What a command comes to: the state that the store is asked to hold, if
/// any, and the events to publish once it holds it.
#[derive(Debug, Clone, PartialEq, Eq)]
pub struct Reaction {
    pub update: Option<GameUpdate>,
    pub events: Vec<ServerMessage>,
}

/// A [`Reaction`] with its texts as sequences of characters.
pub struct Effect {
    pub update: Option<Written>,
    pub events: Seq<Event>,
}

impl View for Reaction {
    type V = Effect;

    open spec fn view(&self) -> Effect {
        Effect {
            update: match self.update {
                Some(update) => Some(update@),
                None => None,
            },
            events: self.events.deep_view(),
        }
    }
}

/// The game as a viewer who connects is sent it, given the moves that the
/// board allows. The first player counts as connected; the second counts as
/// connected once joined.
pub open spec fn game_state_event(game: Session, legal: Seq<Seq<char>>) -> Event {
    Event::GameState {
        id: game.id,
        fen: game.fen,
        moves: game.moves,
        status: game.status.text(),
        result: game.result,
        legal_moves: legal,
        white_connected: true,
        black_connected: game.black_secret is Some,
    }
}

/// What a viewer who connects is sent of the game that was looked up. The
/// legal moves are given only while the game is active.
pub open spec fn snapshot(found: Option<Session>) -> Result<Event, Failure> {
    match found {
        None => Err(not_found()),
        Some(game) => match parsed_position(game.fen) {
            Err(e) => Err(e),
            Ok(pos) => Ok(
                game_state_event(
                    game,
                    if game.status == GameStatus::Active {
                        legal_uci_moves(pos)
                    } else {
                        Seq::<Seq<char>>::empty()
                    },
                ),
            ),
        },
    }
}

/// What a move that arrives on a connection comes to.
pub open spec fn move_effect(found: Option<Session>, uci_move: Seq<char>, secret: u128) -> Result<
    Effect,
    Failure,
> {
    match move_admitted(found, uci_move, secret) {
        Err(e) => Err(e),
        Ok(accepted) => Ok(Effect { update: Some(accepted.written()), events: accepted.events() }),
    }
}

/// What a resignation that arrives on a connection comes to.
pub open spec fn resign_effect(found: Option<Session>, secret: u128) -> Result<Effect, Failure> {
    match resignation_admitted(found, secret) {
        Err(e) => Err(e),
        Ok(written) => Ok(Effect { update: Some(written), events: seq![written.game_over()] }),
    }
}

/// What a refused command comes to: nothing is written, and the failure is
/// published, without the text of an internal one.
pub open spec fn refusal(e: Failure) -> Effect {
    Effect { update: None, events: seq![Event::Error { message: e.published_message() }] }
}

/// The events that are published for a command once the store has been
/// asked to write what the command came to: those of the command where the
/// write was done, or where there was nothing to write; the failure of the
/// write, and nothing else, where it was not done.
pub open spec fn events_after_write(decided: Effect, written: Result<(), Failure>) -> Seq<Event> {
    match written {
        Ok(_) => decided.events,
        Err(e) => refusal(e).events,
    }
}

/// What a command comes to, for the game that was looked up, if any.
pub open spec fn command_effect(found: Option<Session>, command: Command) -> Effect {
    let decided = match command {
        Command::MakeMove { mv, secret } => move_effect(found, mv, secret),
        Command::Resign { secret } => resign_effect(found, secret),
    };
    match decided {
        Ok(effect) => effect,
        Err(e) => refusal(e),
    }
}

/// The game as a viewer who connects is sent it, given the moves that the
/// board allows.
pub fn game_state(game: GameRow, legal: Vec<String>) -> (event: ServerMessage)
    ensures
        event@ == game_state_event(game@, legal.deep_view()),
{
    let status = game.status.to_string();
    let black_connected = game.black_secret.is_some();
    ServerMessage::GameState {
        id: game.id,
        fen: game.fen,
        moves: game.moves,
        status,
        result: game.result,
        legal_moves: legal,
        white_connected: true,
        black_connected,
    }
}

/// The event that a connection is sent first: the game that was looked up,
/// as it stands.
pub fn ws_handler(found: Option<GameRow>) -> (r: Result<ServerMessage, AppError>)
    ensures
        result_view(r) == snapshot(found_view(found)),
{
    let game = match require_game(found) {
        Ok(game) => game,
        Err(e) => return Err(e),
    };
    let pos = match parse_fen(game.fen.as_str()) {
        Ok(pos) => pos,
        Err(e) => return Err(e),
    };
    let legal = if game.status == GameStatus::Active {
        legal_moves_uci(&pos)
    } else {
        Vec::new()
    };
    assert(game.status != GameStatus::Active ==> legal.deep_view() =~= Seq::<Seq<char>>::empty());
    Ok(game_state(game, legal))
}

/// Decides a move that arrives on a connection.
pub fn handle_make_move(found: Option<GameRow>, uci_move: &str, secret: u128) -> (r: Result<
    Reaction,
    AppError,
>)
    ensures
        result_view(r) == move_effect(found_view(found), uci_move@, secret),
{
    match admit_move(found, uci_move, secret) {
        Err(e) => Err(e),
        Ok(accepted) => {
            let events = accepted.events();
            Ok(Reaction { update: Some(accepted.update()), events })
        },
    }
}

/// Decides a resignation that arrives on a connection.
pub fn handle_resign(found: Option<GameRow>, secret: u128) -> (r: Result<Reaction, AppError>)
    ensures
        result_view(r) == resign_effect(found_view(found), secret),
{
    match admit_resignation(found, secret) {
        Err(e) => Err(e),
        Ok(update) => {
            let mut events: Vec<ServerMessage> = Vec::new();
            events.push(update.game_over());
            assert(events.deep_view() =~= seq![update@.game_over()]);
            Ok(Reaction { update: Some(update), events })
        },
    }
}

/// The event that tells the viewers of a failure.
pub fn error_event(e: &AppError) -> (event: ServerMessage)
    ensures
        event@ == (Event::Error { message: e@.published_message() }),
{
    ServerMessage::Error { message: e.published_message() }
}

/// What a refused command comes to.
pub fn refuse(e: &AppError) -> (reaction: Reaction)
    ensures
        reaction@ == refusal(e@),
{
    let mut events: Vec<ServerMessage> = Vec::new();
    events.push(error_event(e));
    assert(events.deep_view() =~= seq![Event::Error { message: e@.published_message() }]);
    Reaction { update: None, events }
}

/// The events to publish for a command once the store has been asked to
/// write what the command came to. `written` is the store's answer, or `Ok`
/// where there was nothing to write.
pub fn after_write(decided: Reaction, written: Result<(), AppError>) -> (events: Vec<
    ServerMessage,
>)
    ensures
        events.deep_view() == events_after_write(decided@, result_view(written)),
        written is Ok ==> events.deep_view() == decided@.events,
        written matches Err(e) ==> events.deep_view() == refusal(e@).events,
{
    match written {
        Ok(_) => decided.events,
        Err(e) => refuse(&e).events,
    }
}

/// Decides a command that arrives on a connection, for the game that was
/// looked up, if any.
pub fn handle_client_message(found: Option<GameRow>, msg: ClientMessage) -> (reaction: Reaction)
    ensures
        reaction@ == command_effect(found_view(found), msg@),
{
    let decided = match msg {
        ClientMessage::MakeMove { mv, secret } => handle_make_move(found, mv.as_str(), secret),
        ClientMessage::Resign { secret } => handle_resign(found, secret),
    };
    match decided {
        Ok(reaction) => reaction,
        Err(e) => refuse(&e),
    }
}

} // verus!

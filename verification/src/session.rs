//! The life of a game, from its creation on, and what holds of it throughout.
//!
//! A game is changed by requests alone: a join, a move, a resignation. Each
//! is decided on the game as it stands, and an accepted one is written to
//! the store at some time. The laws here are stated of one such step, or of
//! any number of them.

use vstd::prelude::*;
use crate::admission::{
    already_joined, invalid_secret, join_decision, move_decision, not_active,
    resignation_decision, Accepted, Written,
};
use crate::chess::{applied_move, parsed_position, side_to_move};
use crate::db::models::{GameRow, GameStatus, Session};
use crate::db::queries::{join_game, write_update};
use crate::protocol::{ClientMessage, Command, Event, ServerMessage};
use crate::routes::games::{join_announced, player_joined};
use crate::routes::ws::{command_effect, handle_client_message};

verus! {

/// What may be asked of a game.
pub enum Request {
    /// The second player joins, and is given `secret`.
    Join { secret: u128 },
    /// A player sends a command.
    Play(Command),
}

/// A request, and the time at which the store would write what it asks for.
pub struct Arrival {
    pub request: Request,
    pub at: i64,
}

/// What may be asked of a game, as it arrives.
#[derive(Debug, Clone, PartialEq, Eq)]
pub enum Action {
    /// The second player joins, and is given `secret`.
    Join { secret: u128 },
    /// A player sends a command.
    Play(ClientMessage),
}

impl View for Action {
    type V = Request;

    open spec fn view(&self) -> Request {
        match self {
            Action::Join { secret } => Request::Join { secret: *secret },
            Action::Play(command) => Request::Play(command@),
        }
    }
}

/// The request is a move that the game accepts.
pub open spec fn is_accepted_move(game: Session, request: Request) -> bool {
    request matches Request::Play(Command::MakeMove { mv, secret }) && move_decision(
        game,
        mv,
        secret,
    ) is Ok
}

/// The request is one that the game refuses.
pub open spec fn is_refused(game: Session, request: Request) -> bool {
    match request {
        Request::Join { .. } => join_decision(game) is Err,
        Request::Play(command) => command_effect(Some(game), command).update is None,
    }
}

/// The game after a request: as the store has written it where the request
/// was accepted, and as it was where the request was refused.
pub open spec fn step(game: Session, arrival: Arrival) -> Session {
    match arrival.request {
        Request::Join { secret } => if join_decision(game) is Ok {
            game.joined(secret, arrival.at)
        } else {
            game
        },
        Request::Play(command) => match command_effect(Some(game), command).update {
            Some(state) => game.updated(state, arrival.at),
            None => game,
        },
    }
}

/// The events that a request is published with: for an accepted join the
/// arrival of the second player, unless the game's position is unreadable;
/// for a command what it comes to; for a refused join nothing.
pub open spec fn published(game: Session, arrival: Arrival) -> Seq<Event> {
    match arrival.request {
        Request::Join { secret } => if join_decision(game) is Ok {
            match join_announced(game.joined(secret, arrival.at)) {
                Ok((_, event)) => seq![event],
                Err(_) => Seq::<Event>::empty(),
            }
        } else {
            Seq::<Event>::empty()
        },
        Request::Play(command) => command_effect(Some(game), command).events,
    }
}

/// Carries a request out on a game held in memory, at the time `now`: the
/// game after it, and the events to publish.
pub fn advance(game: &GameRow, action: Action, now: i64) -> (r: (GameRow, Vec<ServerMessage>))
    ensures
        r.0@ == step(game@, (Arrival { request: action@, at: now })),
        r.1.deep_view() == published(game@, (Arrival { request: action@, at: now })),
{
    match action {
        Action::Join { secret } => {
            let mut events: Vec<ServerMessage> = Vec::new();
            match join_game(game, secret, now) {
                None => {
                    assert(events.deep_view() =~= Seq::<Event>::empty());
                    (game.duplicate(), events)
                },
                Some(joined) => {
                    match player_joined(&joined) {
                        Ok((_, event)) => {
                            events.push(event);
                            assert(events.deep_view() =~= seq![event@]);
                        },
                        Err(_) => {
                            assert(events.deep_view() =~= Seq::<Event>::empty());
                        },
                    }
                    (joined, events)
                },
            }
        },
        Action::Play(command) => {
            let reaction = handle_client_message(Some(game.duplicate()), command);
            let next = match &reaction.update {
                Some(update) => write_update(game, update, now),
                None => game.duplicate(),
            };
            (next, reaction.events)
        },
    }
}

/// The game after a run of requests, the first of them first.
pub open spec fn run(game: Session, arrivals: Seq<Arrival>) -> Session
    decreases arrivals.len(),
{
    if arrivals.len() == 0 {
        game
    } else {
        run(step(game, arrivals[0]), arrivals.drop_first())
    }
}

/// How many requests of a run are moves that the game, as it stands when
/// they arrive, accepts.
pub open spec fn accepted_moves(game: Session, arrivals: Seq<Arrival>) -> nat
    decreases arrivals.len(),
{
    if arrivals.len() == 0 {
        0
    } else {
        let rest = accepted_moves(step(game, arrivals[0]), arrivals.drop_first());
        if is_accepted_move(game, arrivals[0].request) {
            1 + rest
        } else {
            rest
        }
    }
}

/// A refused request leaves the game as it was.
pub proof fn lemma_refused_changes_nothing(game: Session, arrival: Arrival)
    requires
        is_refused(game, arrival.request),
    ensures
        step(game, arrival) == game,
{
}

/// An accepted move adds its notation to the end of the moves; any other
/// request, accepted or not, leaves the moves as they were.
pub proof fn lemma_moves_grow_by_accepted_move(game: Session, arrival: Arrival)
    ensures
        is_accepted_move(game, arrival.request) ==> step(game, arrival).moves.len()
            == game.moves.len() + 1 && step(game, arrival).moves.drop_last() == game.moves,
        !is_accepted_move(game, arrival.request) ==> step(game, arrival).moves == game.moves,
{
    match arrival.request {
        Request::Play(Command::MakeMove { mv, secret }) => {
            if let Ok(accepted) = move_decision(game, mv, secret) {
                let san = accepted.san;
                assert(accepted.moves == game.moves.push(san));
                assert(game.moves.push(san).drop_last() =~= game.moves);
            }
        },
        _ => {},
    }
}

/// The moves of a game are as many as the moves accepted since its
/// creation, and what was once recorded stays: after any run of requests,
/// the moves are those before it followed by one for each accepted move.
pub proof fn lemma_moves_count_accepted(game: Session, arrivals: Seq<Arrival>)
    ensures
        run(game, arrivals).moves.len() == game.moves.len() + accepted_moves(game, arrivals),
        run(game, arrivals).moves.subrange(0, game.moves.len() as int) == game.moves,
    decreases arrivals.len(),
{
    if arrivals.len() == 0 {
        assert(game.moves.subrange(0, game.moves.len() as int) =~= game.moves);
    } else {
        let next = step(game, arrivals[0]);
        lemma_moves_grow_by_accepted_move(game, arrivals[0]);
        lemma_moves_count_accepted(next, arrivals.drop_first());
        let end = run(game, arrivals).moves;
        assert(end.subrange(0, next.moves.len() as int) == next.moves);
        if is_accepted_move(game, arrivals[0].request) {
            assert(next.moves.drop_last() == game.moves);
            assert(end.subrange(0, game.moves.len() as int) =~= end.subrange(
                0,
                next.moves.len() as int,
            ).drop_last());
        }
    }
}

/// A game that was just created has as many moves as were accepted since.
pub proof fn lemma_moves_since_creation(
    id: u128,
    white_secret: u128,
    now: i64,
    arrivals: Seq<Arrival>,
)
    ensures
        run(Session::created(id, white_secret, now), arrivals).moves.len() == accepted_moves(
            Session::created(id, white_secret, now),
            arrivals,
        ),
{
    lemma_moves_count_accepted(Session::created(id, white_secret, now), arrivals);
}

/// A move is accepted exactly when the game is active, the secret is that
/// of one player and not of the other, that player is to move in the game's
/// position, and the board accepts the move there.
pub proof fn lemma_move_accepted_iff(game: Session, uci_move: Seq<char>, secret: u128)
    ensures
        move_decision(game, uci_move, secret) is Ok <==> ({
            &&& game.status == GameStatus::Active
            &&& game.is_white(secret) != game.is_black(secret)
            &&& parsed_position(game.fen) matches Ok(pos) && game.side_of(secret) == Some(
                side_to_move(pos),
            )
            &&& applied_move(game.fen, uci_move) is Ok
        }),
{
}

/// A secret that is both players' moves nothing and resigns nothing: it
/// does not tell who sends it.
pub proof fn lemma_shared_secret_is_refused(game: Session, uci_move: Seq<char>, secret: u128)
    requires
        game.is_white(secret),
        game.is_black(secret),
    ensures
        move_decision(game, uci_move, secret) is Err,
        resignation_decision(game, secret) is Err,
        game.status == GameStatus::Active && parsed_position(game.fen) is Ok ==> move_decision(
            game,
            uci_move,
            secret,
        ) == Err::<Accepted, _>(invalid_secret()),
        game.status == GameStatus::Active ==> resignation_decision(game, secret) == Err::<
            Written,
            _,
        >(invalid_secret()),
{
}

/// Once a game has ended, every move, resignation and join is refused, and
/// the game stays as it is.
pub proof fn lemma_ended_game_is_final(game: Session, arrival: Arrival)
    requires
        game.well_formed(),
        game.status.is_terminal(),
    ensures
        forall|uci_move: Seq<char>, secret: u128|
            move_decision(game, uci_move, secret) == Err::<Accepted, _>(not_active()),
        forall|secret: u128| (#[trigger] resignation_decision(game, secret)) is Err,
        join_decision(game) == Err::<(), _>(already_joined()),
        is_refused(game, arrival.request),
        step(game, arrival) == game,
{
}

/// Once a game has ended, no run of requests changes it.
pub proof fn lemma_ended_game_stays(game: Session, arrivals: Seq<Arrival>)
    requires
        game.well_formed(),
        game.status.is_terminal(),
    ensures
        run(game, arrivals) == game,
    decreases arrivals.len(),
{
    if arrivals.len() > 0 {
        lemma_ended_game_is_final(game, arrivals[0]);
        lemma_ended_game_stays(game, arrivals.drop_first());
    }
}

/// A game is joined once: the join of a game without a second player is
/// accepted, and in the game that it leaves every further join is refused
/// as a conflict and changes nothing.
pub proof fn lemma_join_once(game: Session, first: Arrival, second: Arrival)
    requires
        game.black_secret is None,
        first.request is Join,
        second.request is Join,
    ensures
        join_decision(game) is Ok,
        step(game, first).black_secret == Some(first.request->Join_secret),
        join_decision(step(game, first)) == Err::<(), _>(already_joined()),
        step(step(game, first), second) == step(game, first),
{
}

/// The second player's secret, once set, is never unset nor replaced.
pub proof fn lemma_black_secret_stays(game: Session, arrivals: Seq<Arrival>)
    requires
        game.black_secret is Some,
    ensures
        run(game, arrivals).black_secret == game.black_secret,
    decreases arrivals.len(),
{
    if arrivals.len() > 0 {
        lemma_black_secret_stays(step(game, arrivals[0]), arrivals.drop_first());
    }
}

/// A request leaves a well-formed game well-formed, and moves its status
/// forward or not at all: from waiting to active, from active to an end.
pub proof fn lemma_status_moves_forward(game: Session, arrival: Arrival)
    requires
        game.well_formed(),
    ensures
        step(game, arrival).well_formed(),
        game.status.rank() <= step(game, arrival).status.rank(),
        game.status.is_terminal() ==> step(game, arrival).status == game.status,
        step(game, arrival).id == game.id,
        step(game, arrival).white_secret == game.white_secret,
{
}

/// A new game is well-formed.
pub proof fn lemma_created_well_formed(id: u128, white_secret: u128, now: i64)
    ensures
        Session::created(id, white_secret, now).well_formed(),
        Session::created(id, white_secret, now).status == GameStatus::Waiting,
{
}

/// No run of requests makes a well-formed game ill-formed, or takes its
/// status back.
pub proof fn lemma_run_keeps_well_formed(game: Session, arrivals: Seq<Arrival>)
    requires
        game.well_formed(),
    ensures
        run(game, arrivals).well_formed(),
        game.status.rank() <= run(game, arrivals).status.rank(),
    decreases arrivals.len(),
{
    if arrivals.len() > 0 {
        lemma_status_moves_forward(game, arrivals[0]);
        lemma_run_keeps_well_formed(step(game, arrivals[0]), arrivals.drop_first());
    }
}

/// An accepted move is published as one `MoveMade` event, followed by one
/// `GameOver` event exactly where the move has ended the game; both carry
/// the status and the result that are written to the store.
pub proof fn lemma_move_events(game: Session, uci_move: Seq<char>, secret: u128)
    requires
        move_decision(game, uci_move, secret) is Ok,
    ensures
        ({
            let accepted = move_decision(game, uci_move, secret)->Ok_0;
            let events = accepted.events();
            &&& accepted.status == GameStatus::Active || accepted.status.is_terminal()
            &&& events.len() == if accepted.status.is_terminal() {
                2nat
            } else {
                1nat
            }
            &&& events[0] matches Event::MoveMade { status, result, .. } && status
                == accepted.status.text() && result == accepted.result
            &&& accepted.status.is_terminal() ==> events[1] == (Event::GameOver {
                status: accepted.status.text(),
                result: accepted.result,
            })
            &&& command_effect(Some(game), (Command::MakeMove { mv: uci_move, secret })).events
                == events
            &&& command_effect(Some(game), (Command::MakeMove { mv: uci_move, secret })).update
                == Some(accepted.written())
        }),
{
}

} // verus!

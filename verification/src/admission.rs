//! Who may do what to a game, and what becomes of the game when they do.
//!
//! A request is decided on the game as the store holds it when the request
//! arrives. The decision is either a failure, and then nothing is written,
//! or the state that the store is asked to hold next.

use vstd::prelude::*;
use crate::chess::{
    applied_move, apply_uci_move, classified, fen_of_position, game_outcome, in_stalemate,
    legal_moves_uci, legal_uci_moves, outcome_of, parse_fen, parsed_position, position_to_fen,
    side_to_move, turn_color, Color, TerminalOutcome,
};
use crate::db::models::{clone_text, clone_texts, GameRow, GameStatus, Session};
use crate::error::{result_view, with_failure, AppError, Failure};
use crate::protocol::{Event, ServerMessage};

verus! {

/// An accepted move: what was played, and the game after it.
#[derive(Debug, Clone, PartialEq, Eq)]
pub struct MoveOutcome {
    /// The move as it was sent, in UCI notation.
    pub mv: String,
    /// The move in standard algebraic notation.
    pub san: String,
    /// The position after the move.
    pub fen: String,
    /// All moves of the game, this one last.
    pub moves: Vec<String>,
    pub status: GameStatus,
    /// The winner's side, where the move has won the game.
    pub result: Option<String>,
    /// The moves that the other side may answer with; none once the game has ended.
    pub legal_moves: Vec<String>,
}

/// A [`MoveOutcome`] with its texts as sequences of characters.
pub struct Accepted {
    pub mv: Seq<char>,
    pub san: Seq<char>,
    pub fen: Seq<char>,
    pub moves: Seq<Seq<char>>,
    pub status: GameStatus,
    pub result: Option<Seq<char>>,
    pub legal_moves: Seq<Seq<char>>,
}

impl View for MoveOutcome {
    type V = Accepted;

    open spec fn view(&self) -> Accepted {
        Accepted {
            mv: self.mv@,
            san: self.san@,
            fen: self.fen@,
            moves: self.moves.deep_view(),
            status: self.status,
            result: self.result.deep_view(),
            legal_moves: self.legal_moves.deep_view(),
        }
    }
}

/// The state that the store is asked to hold for a game.
#[derive(Debug, Clone, PartialEq, Eq)]
pub struct GameUpdate {
    pub fen: String,
    pub moves: Vec<String>,
    pub status: GameStatus,
    pub result: Option<String>,
}

/// A [`GameUpdate`] with its texts as sequences of characters.
pub struct Written {
    pub fen: Seq<char>,
    pub moves: Seq<Seq<char>>,
    pub status: GameStatus,
    pub result: Option<Seq<char>>,
}

impl View for GameUpdate {
    type V = Written;

    open spec fn view(&self) -> Written {
        Written {
            fen: self.fen@,
            moves: self.moves.deep_view(),
            status: self.status,
            result: self.result.deep_view(),
        }
    }
}

/// A game that was looked up, with its texts as sequences of characters.
pub open spec fn found_view(found: Option<GameRow>) -> Option<Session> {
    match found {
        Some(game) => Some(game@),
        None => None,
    }
}

/// The failure of a request that names no game.
pub open spec fn not_found() -> Failure {
    Failure::NotFound("Game not found"@)
}

/// The failure of a move or a resignation in a game that is not being played.
pub open spec fn not_active() -> Failure {
    Failure::BadRequest("Game is not active"@)
}

/// The failure of a request with a secret that does not tell who sends it:
/// one that is neither player's, or that is both players'.
pub open spec fn invalid_secret() -> Failure {
    Failure::Unauthorized("Invalid secret"@)
}

/// The failure of a move by the player who is not to move.
pub open spec fn not_your_turn() -> Failure {
    Failure::BadRequest("Not your turn"@)
}

/// The failure of a join where the second player is already there.
pub open spec fn already_joined() -> Failure {
    Failure::Conflict("Game already has two players"@)
}

impl Session {
    /// `secret` is that of the first player, who plays white.
    pub open spec fn is_white(self, secret: u128) -> bool {
        secret == self.white_secret
    }

    /// `secret` is that of the second player, who plays black.
    pub open spec fn is_black(self, secret: u128) -> bool {
        self.black_secret == Some(secret)
    }

    /// The side of the player whom `secret` identifies: the one player of
    /// the two whose secret it is. A secret that is neither player's
    /// identifies nobody, and so does a secret that is both players'.
    pub open spec fn side_of(self, secret: u128) -> Option<Color> {
        if self.is_white(secret) && !self.is_black(secret) {
            Some(Color::White)
        } else if self.is_black(secret) && !self.is_white(secret) {
            Some(Color::Black)
        } else {
            None
        }
    }
}

impl Written {
    /// The event that tells the viewers how the game has ended.
    pub open spec fn game_over(self) -> Event {
        Event::GameOver { status: self.status.text(), result: self.result }
    }
}

impl Accepted {
    /// What the store is asked to hold after the move.
    pub open spec fn written(self) -> Written {
        Written { fen: self.fen, moves: self.moves, status: self.status, result: self.result }
    }

    /// The event that tells the viewers of the move.
    pub open spec fn move_made(self) -> Event {
        Event::MoveMade {
            mv: self.mv,
            san: self.san,
            fen: self.fen,
            moves: self.moves,
            status: self.status.text(),
            result: self.result,
            legal_moves: self.legal_moves,
        }
    }

    /// The events that the move is published with, in their order: the move,
    /// and then the end of the game where the move has ended it.
    pub open spec fn events(self) -> Seq<Event> {
        if self.status == GameStatus::Active {
            seq![self.move_made()]
        } else {
            seq![self.move_made(), self.written().game_over()]
        }
    }
}

/// What checking a secret against the two secrets of a game ends in: the
/// side of the player whom it identifies, or a failure where it identifies
/// nobody.
pub open spec fn identity_checked(game: Session, secret: u128) -> Result<Color, Failure> {
    match game.side_of(secret) {
        Some(side) => Ok(side),
        None => Err(invalid_secret()),
    }
}

/// What checking a secret against the two secrets of a game, and then
/// against the side to move, ends in.
pub open spec fn turn_checked(game: Session, secret: u128, turn: Color) -> Result<(), Failure> {
    match identity_checked(game, secret) {
        Err(e) => Err(e),
        Ok(side) => if side != turn {
            Err(not_your_turn())
        } else {
            Ok(())
        },
    }
}

/// The status of a game after a move, given how the board says it has ended.
pub open spec fn status_after(outcome: Option<TerminalOutcome>) -> GameStatus {
    match outcome {
        Some(TerminalOutcome::Decisive { .. }) => GameStatus::Checkmate,
        Some(TerminalOutcome::Stalemate) => GameStatus::Stalemate,
        Some(TerminalOutcome::Draw) => GameStatus::Draw,
        None => GameStatus::Active,
    }
}

/// The winner of a game after a move, given how the board says it has ended.
pub open spec fn result_after(outcome: Option<TerminalOutcome>) -> Option<Seq<char>> {
    match outcome {
        Some(TerminalOutcome::Decisive { winner }) => Some(winner.text()),
        _ => None,
    }
}

/// The accepted move that the board's answers amount to: `moves` are the
/// moves before it, `legal` the moves that the board allows after it.
pub open spec fn recorded(
    moves: Seq<Seq<char>>,
    mv: Seq<char>,
    san: Seq<char>,
    fen: Seq<char>,
    outcome: Option<TerminalOutcome>,
    legal: Seq<Seq<char>>,
) -> Accepted {
    Accepted {
        mv,
        san,
        fen,
        moves: moves.push(san),
        status: status_after(outcome),
        result: result_after(outcome),
        legal_moves: if outcome is None {
            legal
        } else {
            Seq::<Seq<char>>::empty()
        },
    }
}

/// What a move ends in: `uci_move` sent with `secret` for the game `game`.
///
/// The game must be active and its position readable; the secret must be
/// that of one player and not of the other, and that player must be to
/// move; and the board must accept the move. The first of these that fails
/// gives the failure.
pub open spec fn move_decision(game: Session, uci_move: Seq<char>, secret: u128) -> Result<
    Accepted,
    Failure,
> {
    if game.status != GameStatus::Active {
        Err(not_active())
    } else {
        match parsed_position(game.fen) {
            Err(e) => Err(e),
            Ok(pos) => match turn_checked(game, secret, side_to_move(pos)) {
                Err(e) => Err(e),
                Ok(_) => match applied_move(game.fen, uci_move) {
                    Err(e) => Err(e),
                    Ok((next, san)) => Ok(
                        recorded(
                            game.moves,
                            uci_move,
                            san,
                            fen_of_position(next),
                            classified(outcome_of(next), in_stalemate(next)),
                            legal_uci_moves(next),
                        ),
                    ),
                },
            },
        }
    }
}

/// What a move ends in, for the game that was looked up, if any.
pub open spec fn move_admitted(found: Option<Session>, uci_move: Seq<char>, secret: u128) -> Result<
    Accepted,
    Failure,
> {
    match found {
        None => Err(not_found()),
        Some(game) => move_decision(game, uci_move, secret),
    }
}

/// What a resignation ends in: the game as it is, but resigned and won by
/// the side that did not resign. No turn is asked for.
pub open spec fn resignation_decision(game: Session, secret: u128) -> Result<Written, Failure> {
    if game.status != GameStatus::Active {
        Err(not_active())
    } else {
        match identity_checked(game, secret) {
            Err(e) => Err(e),
            Ok(side) => Ok(
                Written {
                    fen: game.fen,
                    moves: game.moves,
                    status: GameStatus::Resigned,
                    result: Some(side.opponent().text()),
                },
            ),
        }
    }
}

/// What a resignation ends in, for the game that was looked up, if any.
pub open spec fn resignation_admitted(found: Option<Session>, secret: u128) -> Result<
    Written,
    Failure,
> {
    match found {
        None => Err(not_found()),
        Some(game) => resignation_decision(game, secret),
    }
}

/// What a join ends in: it is refused where the second player is there.
pub open spec fn join_decision(game: Session) -> Result<(), Failure> {
    if game.black_secret is Some {
        Err(already_joined())
    } else {
        Ok(())
    }
}

/// What a join ends in, for the game that was looked up, if any.
pub open spec fn join_admitted(found: Option<Session>) -> Result<(), Failure> {
    match found {
        None => Err(not_found()),
        Some(game) => join_decision(game),
    }
}

/// The game that was looked up, or the failure to find one.
pub fn require_game(found: Option<GameRow>) -> (r: Result<GameRow, AppError>)
    ensures
        found matches Some(game) ==> r == Ok::<GameRow, AppError>(game),
        found is None ==> r is Err && r->Err_0@ == not_found(),
{
    match found {
        Some(game) => Ok(game),
        None => Err(AppError::NotFound("Game not found".to_owned())),
    }
}

/// Whether `secret` is that of the first player.
pub fn claims_white(game: &GameRow, secret: u128) -> (r: bool)
    ensures
        r == game@.is_white(secret),
{
    secret == game.white_secret
}

/// Whether `secret` is that of the second player.
pub fn claims_black(game: &GameRow, secret: u128) -> (r: bool)
    ensures
        r == game@.is_black(secret),
{
    match game.black_secret {
        Some(s) => s == secret,
        None => false,
    }
}

/// Finds the side of the player whom `secret` identifies. A secret that is
/// neither player's is refused, and so is one that is both players'.
pub fn check_identity(game: &GameRow, secret: u128) -> (r: Result<Color, AppError>)
    ensures
        with_failure(r) == identity_checked(game@, secret),
{
    let is_white = claims_white(game, secret);
    let is_black = claims_black(game, secret);
    if is_white && !is_black {
        Ok(Color::White)
    } else if is_black && !is_white {
        Ok(Color::Black)
    } else {
        Err(AppError::Unauthorized("Invalid secret".to_owned()))
    }
}

/// Checks that `secret` is that of the player on the side to move.
pub fn check_turn(game: &GameRow, secret: u128, turn: Color) -> (r: Result<(), AppError>)
    ensures
        result_view(r) == turn_checked(game@, secret, turn),
{
    let side = match check_identity(game, secret) {
        Ok(side) => side,
        Err(e) => return Err(e),
    };
    if side != turn {
        return Err(AppError::BadRequest("Not your turn".to_owned()));
    }
    Ok(())
}

/// The status and the winner of a game after a move, given how the board
/// says it has ended.
pub fn settle(outcome: Option<TerminalOutcome>) -> (r: (GameStatus, Option<String>))
    ensures
        r.0 == status_after(outcome),
        r.1.deep_view() == result_after(outcome),
{
    match outcome {
        Some(TerminalOutcome::Decisive { winner }) => (
            GameStatus::Checkmate,
            Some(winner.to_string()),
        ),
        Some(TerminalOutcome::Stalemate) => (GameStatus::Stalemate, None),
        Some(TerminalOutcome::Draw) => (GameStatus::Draw, None),
        None => (GameStatus::Active, None),
    }
}

/// Puts the board's answers together into the accepted move: `moves` are
/// the moves before it, `legal` the moves that the board allows after it,
/// which are kept only while the game goes on.
pub fn record_move(
    moves: Vec<String>,
    uci_move: &str,
    san: String,
    fen: String,
    outcome: Option<TerminalOutcome>,
    legal: Vec<String>,
) -> (accepted: MoveOutcome)
    ensures
        accepted@ == recorded(
            moves.deep_view(),
            uci_move@,
            san@,
            fen@,
            outcome,
            legal.deep_view(),
        ),
{
    let (status, result) = settle(outcome);
    let mut all = moves;
    all.push(san.clone());
    assert(all.deep_view() =~= moves.deep_view().push(san@));
    let legal_moves = if status == GameStatus::Active {
        legal
    } else {
        Vec::new()
    };
    assert(outcome is Some ==> legal_moves.deep_view() =~= Seq::<Seq<char>>::empty());
    MoveOutcome { mv: uci_move.to_owned(), san, fen, moves: all, status, result, legal_moves }
}

/// Decides a move: `uci_move` sent with `secret` for the game that was
/// looked up, if any.
pub fn admit_move(found: Option<GameRow>, uci_move: &str, secret: u128) -> (r: Result<
    MoveOutcome,
    AppError,
>)
    ensures
        result_view(r) == move_admitted(found_view(found), uci_move@, secret),
{
    let game = match require_game(found) {
        Ok(game) => game,
        Err(e) => return Err(e),
    };
    if game.status != GameStatus::Active {
        return Err(AppError::BadRequest("Game is not active".to_owned()));
    }
    let pos = match parse_fen(game.fen.as_str()) {
        Ok(pos) => pos,
        Err(e) => return Err(e),
    };
    match check_turn(&game, secret, turn_color(&pos)) {
        Ok(_) => {},
        Err(e) => return Err(e),
    }
    let (next, san) = match apply_uci_move(game.fen.as_str(), uci_move) {
        Ok(applied) => applied,
        Err(e) => return Err(e),
    };
    let fen = position_to_fen(&next);
    let outcome = game_outcome(&next);
    let legal = if outcome.is_none() {
        legal_moves_uci(&next)
    } else {
        Vec::new()
    };
    Ok(record_move(game.moves, uci_move, san, fen, outcome, legal))
}

/// Decides a resignation sent with `secret` for the game that was looked
/// up, if any.
pub fn admit_resignation(found: Option<GameRow>, secret: u128) -> (r: Result<GameUpdate, AppError>)
    ensures
        result_view(r) == resignation_admitted(found_view(found), secret),
{
    let game = match require_game(found) {
        Ok(game) => game,
        Err(e) => return Err(e),
    };
    if game.status != GameStatus::Active {
        return Err(AppError::BadRequest("Game is not active".to_owned()));
    }
    let resigning = match check_identity(&game, secret) {
        Ok(side) => side,
        Err(e) => return Err(e),
    };
    Ok(
        GameUpdate {
            fen: game.fen,
            moves: game.moves,
            status: GameStatus::Resigned,
            result: Some(resigning.other().to_string()),
        },
    )
}

/// Decides a join of the game that was looked up, if any.
pub fn admit_join(found: &Option<GameRow>) -> (r: Result<(), AppError>)
    ensures
        result_view(r) == join_admitted(found_view(*found)),
{
    match found {
        None => Err(AppError::NotFound("Game not found".to_owned())),
        Some(game) => if game.black_secret.is_some() {
            Err(AppError::Conflict("Game already has two players".to_owned()))
        } else {
            Ok(())
        },
    }
}

impl GameUpdate {
    /// The event that tells the viewers how the game has ended.
    pub fn game_over(&self) -> (event: ServerMessage)
        ensures
            event@ == self@.game_over(),
    {
        ServerMessage::GameOver { status: self.status.to_string(), result: clone_text(&self.result) }
    }
}

impl MoveOutcome {
    /// The event that tells the viewers of the move.
    pub fn move_made(&self) -> (event: ServerMessage)
        ensures
            event@ == self@.move_made(),
    {
        ServerMessage::MoveMade {
            mv: self.mv.clone(),
            san: self.san.clone(),
            fen: self.fen.clone(),
            moves: clone_texts(&self.moves),
            status: self.status.to_string(),
            result: clone_text(&self.result),
            legal_moves: clone_texts(&self.legal_moves),
        }
    }

    /// The events to publish for the move, in their order: the move, and
    /// then the end of the game where the move has ended it.
    pub fn events(&self) -> (events: Vec<ServerMessage>)
        ensures
            events.deep_view() == self@.events(),
    {
        let mut events: Vec<ServerMessage> = Vec::new();
        events.push(self.move_made());
        if self.status != GameStatus::Active {
            events.push(self.update().game_over());
        }
        assert(events.deep_view() =~= self@.events());
        events
    }

    /// What the store is asked to hold after the move.
    pub fn update(&self) -> (update: GameUpdate)
        ensures
            update@ == self@.written(),
    {
        GameUpdate {
            fen: self.fen.clone(),
            moves: clone_texts(&self.moves),
            status: self.status,
            result: clone_text(&self.result),
        }
    }
}

} // verus!

//! The rules of the board, as `shakmaty` provides them.
//!
//! Nothing here knows how a piece moves. What `shakmaty` computes is given a
//! name, and the functions of this module say how those results are put
//! together: which error a bad position or a bad move ends in, how a move's
//! notation is completed, and how the end of a game is classified.

use vstd::prelude::*;
use vstd::string::StringExecFns;
use shakmaty::fen::Fen;
use shakmaty::uci::UciMove;
use shakmaty::{Chess, Move};
use crate::error::{with_failure, AppError, Failure};

verus! {

/// A position of standard chess that `shakmaty` accepts as playable.
#[verifier::external_type_specification]
#[verifier::external_body]
pub struct ExChess(shakmaty::Chess);

/// The parts of a position as a FEN text gives them, not yet checked.
#[verifier::external_type_specification]
#[verifier::external_body]
pub struct ExFen(shakmaty::fen::Fen);

/// A move as a UCI text gives it: two squares and perhaps a promotion.
#[verifier::external_type_specification]
#[verifier::external_body]
pub struct ExUciMove(shakmaty::uci::UciMove);

/// A move in the context of a position.
#[verifier::external_type_specification]
#[verifier::external_body]
pub struct ExMove(shakmaty::Move);

/// One of the two sides.
#[derive(Debug, Clone, Copy, PartialEq, Eq, Structural)]
pub enum Color {
    White,
    Black,
}

/// How a game has ended on the board.
#[derive(Debug, Clone, Copy, PartialEq, Eq, Structural)]
pub enum TerminalOutcome {
    /// One side has won.
    Decisive { winner: Color },
    /// The game is over and neither side has won, for another reason than a
    /// stalemate.
    Draw,
    /// The side to move has no move and is not in check.
    Stalemate,
}

/// What `Fen::from_str` makes of a text: the parts of a position, or the
/// words of its `ParseFenError`.
pub uninterp spec fn fen_of_text(text: Seq<char>) -> Result<Fen, Seq<char>>;

/// What `Fen::into_position` for standard castling makes of the parts of a
/// position: the position, or the words of its `PositionError`.
pub uninterp spec fn position_of_fen(fen: Fen) -> Result<Chess, Seq<char>>;

/// What `UciMove::from_str` makes of a text: a move, or nothing where the
/// text is no UCI move.
pub uninterp spec fn uci_of_text(text: Seq<char>) -> Option<UciMove>;

/// What `UciMove::to_move` makes of a UCI move in a position: the legal move
/// that it denotes there, or nothing.
pub uninterp spec fn move_of_uci(uci: UciMove, pos: Chess) -> Option<Move>;

/// The text of `San::from_move` for a move in a position: the move in
/// standard algebraic notation, without a mark for check.
pub uninterp spec fn san_of_move(pos: Chess, m: Move) -> Seq<char>;

/// The position that `Position::play_unchecked` leaves after a move.
pub uninterp spec fn position_after(pos: Chess, m: Move) -> Chess;

/// What `Position::is_check` reports of a position.
pub uninterp spec fn in_check(pos: Chess) -> bool;

/// What `Position::is_checkmate` reports of a position.
pub uninterp spec fn in_checkmate(pos: Chess) -> bool;

/// What `Position::is_stalemate` reports of a position.
pub uninterp spec fn in_stalemate(pos: Chess) -> bool;

/// What `Position::outcome` reports of a position: nothing while the game
/// goes on, else the winner, or no winner for a draw.
pub uninterp spec fn outcome_of(pos: Chess) -> Option<Option<Color>>;

/// The moves that `Position::legal_moves` lists for a position, in its order.
pub uninterp spec fn legal_moves(pos: Chess) -> Seq<Move>;

/// The text of `UciMove::from_move` for standard castling: the move in UCI
/// notation.
pub uninterp spec fn uci_of_move(m: Move) -> Seq<char>;

/// The text of the `Fen` of a position, with the en passant square given
/// only where a capture there is legal.
pub uninterp spec fn fen_of_position(pos: Chess) -> Seq<char>;

/// The side that `Position::turn` reports to move.
pub uninterp spec fn side_to_move(pos: Chess) -> Color;

/// `m` is what some UCI move denotes in `pos`, and so is legal there.
pub open spec fn playable(pos: Chess, m: Move) -> bool {
    exists|uci: UciMove| #[trigger] move_of_uci(uci, pos) == Some(m)
}

/// A result whose error is a text, with that text as a sequence of
/// characters.
pub open spec fn with_words<T>(r: Result<T, String>) -> Result<T, Seq<char>> {
    match r {
        Ok(value) => Ok(value),
        Err(why) => Err(why@),
    }
}

/// A result whose error is a text, without that text.
pub open spec fn without_words<T>(r: Result<T, String>) -> Option<T> {
    match r {
        Ok(value) => Some(value),
        Err(_) => None,
    }
}

/// Calls `Fen::from_str`. The result is the parser's own, with an error
/// turned into its words; which texts it accepts is not stated here.
#[verifier::external_body]
fn fen_from_text(text: &str) -> (r: Result<Fen, String>)
    ensures
        with_words(r) == fen_of_text(text@),
{
    match text.parse::<Fen>() {
        Ok(fen) => Ok(fen),
        Err(e) => Err(e.to_string()),
    }
}

/// Calls `Fen::into_position` with `CastlingMode::Standard`. The result is
/// that function's own, with an error turned into its words.
#[verifier::external_body]
fn position_from_fen(fen: Fen) -> (r: Result<Chess, String>)
    ensures
        with_words(r) == position_of_fen(fen),
{
    match fen.into_position::<Chess>(shakmaty::CastlingMode::Standard) {
        Ok(pos) => Ok(pos),
        Err(e) => Err(e.to_string()),
    }
}

/// Calls `UciMove::from_str`. Its only error reads `invalid uci`.
#[verifier::external_body]
fn uci_from_text(text: &str) -> (r: Result<UciMove, String>)
    ensures
        without_words(r) == uci_of_text(text@),
        r matches Err(why) ==> why@ == "invalid uci"@,
{
    match text.parse::<UciMove>() {
        Ok(uci) => Ok(uci),
        Err(e) => Err(e.to_string()),
    }
}

/// Calls `UciMove::to_move`, which gives a move only where it is legal in
/// the position. Its only error reads `illegal uci`.
#[verifier::external_body]
fn uci_to_move(uci: &UciMove, pos: &Chess) -> (r: Result<Move, String>)
    ensures
        without_words(r) == move_of_uci(*uci, *pos),
        r matches Err(why) ==> why@ == "illegal uci"@,
{
    match uci.to_move(pos) {
        Ok(m) => Ok(m),
        Err(e) => Err(e.to_string()),
    }
}

/// Calls `San::from_move` and takes the notation's text. It is asked only
/// for a move that is legal in the position.
#[verifier::external_body]
fn san_text(pos: &Chess, m: &Move) -> (san: String)
    requires
        playable(*pos, *m),
    ensures
        san@ == san_of_move(*pos, *m),
{
    shakmaty::san::San::from_move(pos, m).to_string()
}

/// Calls `Position::play_unchecked`, which may panic, now or later, on a
/// move that is not legal in the position.
#[verifier::external_body]
fn play(pos: Chess, m: &Move) -> (next: Chess)
    requires
        playable(pos, *m),
    ensures
        next == position_after(pos, *m),
{
    let mut next = pos;
    shakmaty::Position::play_unchecked(&mut next, m);
    next
}

/// Calls `Position::is_check`.
#[verifier::external_body]
fn is_check(pos: &Chess) -> (r: bool)
    ensures
        r == in_check(*pos),
{
    shakmaty::Position::is_check(pos)
}

/// Calls `Position::is_checkmate`.
#[verifier::external_body]
fn is_checkmate(pos: &Chess) -> (r: bool)
    ensures
        r == in_checkmate(*pos),
{
    shakmaty::Position::is_checkmate(pos)
}

/// Calls `Position::is_stalemate`.
#[verifier::external_body]
fn is_stalemate(pos: &Chess) -> (r: bool)
    ensures
        r == in_stalemate(*pos),
{
    shakmaty::Position::is_stalemate(pos)
}

/// Calls `Position::outcome` and tells its variants apart.
#[verifier::external_body]
fn outcome(pos: &Chess) -> (r: Option<Option<Color>>)
    ensures
        r == outcome_of(*pos),
{
    match shakmaty::Position::outcome(pos) {
        Some(shakmaty::Outcome::Decisive { winner: shakmaty::Color::White }) => Some(Some(Color::White)),
        Some(shakmaty::Outcome::Decisive { winner: shakmaty::Color::Black }) => Some(Some(Color::Black)),
        Some(shakmaty::Outcome::Draw) => Some(None),
        None => None,
    }
}

/// Calls `Position::legal_moves` and hands the moves out in its order.
#[verifier::external_body]
fn legal_move_list(pos: &Chess) -> (moves: Vec<Move>)
    ensures
        moves@ == legal_moves(*pos),
{
    shakmaty::Position::legal_moves(pos).into_iter().collect()
}

/// Calls `UciMove::from_move` with `CastlingMode::Standard` and takes the
/// notation's text.
#[verifier::external_body]
fn uci_text(m: &Move) -> (text: String)
    ensures
        text@ == uci_of_move(*m),
{
    UciMove::from_move(m, shakmaty::CastlingMode::Standard).to_string()
}

/// The position as FEN text. Calls `Position::into_setup` with
/// `EnPassantMode::Legal` on a copy and takes the text of the `Fen` made of it.
#[verifier::external_body]
pub fn position_to_fen(pos: &Chess) -> (fen: String)
    ensures
        fen@ == fen_of_position(*pos),
{
    let setup = shakmaty::Position::into_setup(pos.clone(), shakmaty::EnPassantMode::Legal);
    Fen::from(setup).to_string()
}

/// The side to move. Calls `Position::turn`.
#[verifier::external_body]
pub fn turn_color(pos: &Chess) -> (color: Color)
    ensures
        color == side_to_move(*pos),
{
    match shakmaty::Position::turn(pos) {
        shakmaty::Color::White => Color::White,
        shakmaty::Color::Black => Color::Black,
    }
}

impl Color {
    /// The lower-case name of the side.
    pub open spec fn text(self) -> Seq<char> {
        match self {
            Color::White => "white"@,
            Color::Black => "black"@,
        }
    }

    /// The side that is not this one.
    pub open spec fn opponent(self) -> Color {
        match self {
            Color::White => Color::Black,
            Color::Black => Color::White,
        }
    }

    pub fn to_string(&self) -> (text: String)
        ensures
            text@ == self.text(),
    {
        match self {
            Color::White => "white".to_owned(),
            Color::Black => "black".to_owned(),
        }
    }

    /// The side that is not this one.
    pub fn other(&self) -> (color: Color)
        ensures
            color == self.opponent(),
    {
        match self {
            Color::White => Color::Black,
            Color::Black => Color::White,
        }
    }
}

/// The position that a FEN text denotes, or the error that the text ends in.
pub open spec fn parsed_position(fen: Seq<char>) -> Result<Chess, Failure> {
    match fen_of_text(fen) {
        Err(why) => Err(Failure::BadRequest("Invalid FEN: "@ + why)),
        Ok(setup) => match position_of_fen(setup) {
            Err(why) => Err(Failure::BadRequest("Invalid position: "@ + why)),
            Ok(pos) => Ok(pos),
        },
    }
}

/// The mark that completes a move's notation: `#` where the move mates,
/// `+` where it gives check, else nothing.
pub open spec fn check_mark(checkmate: bool, check: bool) -> Seq<char> {
    if checkmate {
        "#"@
    } else if check {
        "+"@
    } else {
        Seq::<char>::empty()
    }
}

/// The position after a move given as UCI text is played in the position
/// that a FEN text denotes, with the move's notation, or the error that the
/// two texts end in.
pub open spec fn applied_move(fen: Seq<char>, uci_move: Seq<char>) -> Result<
    (Chess, Seq<char>),
    Failure,
> {
    match parsed_position(fen) {
        Err(e) => Err(e),
        Ok(pos) => match uci_of_text(uci_move) {
            None => Err(Failure::BadRequest("Invalid UCI move: "@ + "invalid uci"@)),
            Some(uci) => match move_of_uci(uci, pos) {
                None => Err(Failure::BadRequest("Illegal move: "@ + "illegal uci"@)),
                Some(m) => {
                    let next = position_after(pos, m);
                    Ok((next, san_of_move(pos, m) + check_mark(in_checkmate(next), in_check(next))))
                },
            },
        },
    }
}

/// A position after a move and the move's notation, or a failure, with the
/// texts as sequences of characters.
pub open spec fn applied_view(r: Result<(Chess, String), AppError>) -> Result<
    (Chess, Seq<char>),
    Failure,
> {
    match r {
        Ok((next, san)) => Ok((next, san@)),
        Err(e) => Err(e@),
    }
}

/// How the game has ended, given what the board reports: an outcome, if
/// any, with its winner, if any, and whether the position is a stalemate.
/// A stalemate is a stalemate, whatever outcome the board reports with it;
/// in any other position the reported outcome decides.
pub open spec fn classified(outcome: Option<Option<Color>>, stalemate: bool) -> Option<
    TerminalOutcome,
> {
    if stalemate {
        Some(TerminalOutcome::Stalemate)
    } else {
        match outcome {
            Some(Some(winner)) => Some(TerminalOutcome::Decisive { winner }),
            Some(None) => Some(TerminalOutcome::Draw),
            None => None,
        }
    }
}

/// The legal moves of a position in UCI notation.
pub open spec fn legal_uci_moves(pos: Chess) -> Seq<Seq<char>> {
    legal_moves(pos).map_values(|m: Move| uci_of_move(m))
}

/// A text behind the words that say what kind of fault it is.
fn bad_request(label: &str, why: String) -> (e: AppError)
    ensures
        e@ == Failure::BadRequest(label@ + why@),
{
    AppError::BadRequest(label.to_owned().concat(why.as_str()))
}

/// Reads a position from FEN text.
pub fn parse_fen(fen: &str) -> (r: Result<Chess, AppError>)
    ensures
        with_failure(r) == parsed_position(fen@),
{
    match fen_from_text(fen) {
        Err(why) => Err(bad_request("Invalid FEN: ", why)),
        Ok(setup) => match position_from_fen(setup) {
            Err(why) => Err(bad_request("Invalid position: ", why)),
            Ok(pos) => Ok(pos),
        },
    }
}

/// The mark that completes a move's notation.
pub fn suffix(checkmate: bool, check: bool) -> (mark: &'static str)
    ensures
        mark@ == check_mark(checkmate, check),
{
    if checkmate {
        "#"
    } else if check {
        "+"
    } else {
        proof {
            reveal_strlit("");
            assert(""@ =~= Seq::<char>::empty());
        }
        ""
    }
}

/// Plays a move given as UCI text in the position that a FEN text denotes.
/// Gives the position after the move and the move in standard algebraic
/// notation, with `+` for check and `#` for mate.
pub fn apply_uci_move(fen: &str, uci_move: &str) -> (r: Result<(Chess, String), AppError>)
    ensures
        applied_view(r) == applied_move(fen@, uci_move@),
{
    let pos = match parse_fen(fen) {
        Ok(pos) => pos,
        Err(e) => return Err(e),
    };
    let uci = match uci_from_text(uci_move) {
        Ok(uci) => uci,
        Err(why) => return Err(bad_request("Invalid UCI move: ", why)),
    };
    let m = match uci_to_move(&uci, &pos) {
        Ok(m) => m,
        Err(why) => return Err(bad_request("Illegal move: ", why)),
    };
    let san = san_text(&pos, &m);
    let next = play(pos, &m);
    let mark = suffix(is_checkmate(&next), is_check(&next));
    Ok((next, san.concat(mark)))
}

/// The legal moves of a position in UCI notation, in the board's order.
pub fn legal_moves_uci(pos: &Chess) -> (texts: Vec<String>)
    ensures
        texts.deep_view() == legal_uci_moves(*pos),
{
    let moves = legal_move_list(pos);
    let mut texts: Vec<String> = Vec::new();
    let mut i: usize = 0;
    while i < moves.len()
        invariant
            i <= moves.len(),
            moves@ == legal_moves(*pos),
            texts.len() == i,
            forall|k: int| 0 <= k < i ==> texts[k]@ == uci_of_move(#[trigger] moves[k]),
        decreases moves.len() - i,
    {
        texts.push(uci_text(&moves[i]));
        i += 1;
    }
    assert(texts.deep_view() =~= legal_uci_moves(*pos));
    texts
}

/// How the game has ended, given what the board reports of a position.
pub fn classify_outcome(outcome: Option<Option<Color>>, stalemate: bool) -> (r: Option<
    TerminalOutcome,
>)
    ensures
        r == classified(outcome, stalemate),
{
    if stalemate {
        return Some(TerminalOutcome::Stalemate);
    }
    match outcome {
        Some(Some(winner)) => Some(TerminalOutcome::Decisive { winner }),
        Some(None) => Some(TerminalOutcome::Draw),
        None => None,
    }
}

/// How the game has ended in a position, or nothing while it goes on.
pub fn game_outcome(pos: &Chess) -> (r: Option<TerminalOutcome>)
    ensures
        r == classified(outcome_of(*pos), in_stalemate(*pos)),
{
    classify_outcome(outcome(pos), is_stalemate(pos))
}

} // verus!

use backend::chess::{
    apply_uci_move, classify_outcome, game_outcome, legal_moves_uci, parse_fen, position_to_fen,
    suffix, turn_color, Color, TerminalOutcome,
};
use backend::error::AppError;

const START: &str = "rnbqkbnr/pppppppp/8/8/8/8/PPPPPPPP/RNBQKBNR w KQkq - 0 1";
const BEFORE_FOOLS_MATE: &str = "rnbqkbnr/pppp1ppp/8/4p3/6P1/5P2/PPPPP2P/RNBQKBNR b KQkq g3 0 2";
const STALEMATE: &str = "7k/5Q2/6K1/8/8/8/8/8 b - - 0 1";
const BARE_KINGS: &str = "8/8/8/8/8/4k3/8/4K3 w - - 0 1";
const CASTLING: &str = "r3k2r/8/8/8/8/8/8/R3K2R w KQkq - 0 1";

fn bad_request(text: &str) -> AppError {
    AppError::BadRequest(text.to_string())
}

#[test]
fn start_position_has_twenty_moves() {
    let pos = parse_fen(START).unwrap();
    assert_eq!(turn_color(&pos), Color::White);
    let moves = legal_moves_uci(&pos);
    assert_eq!(moves.len(), 20);
    assert!(moves.contains(&"e2e4".to_string()));
    assert!(moves.contains(&"g1f3".to_string()));
    assert!(!moves.contains(&"e2e5".to_string()));
    assert_eq!(position_to_fen(&pos), START);
}

#[test]
fn black_to_move_is_reported() {
    let pos = parse_fen(BEFORE_FOOLS_MATE).unwrap();
    assert_eq!(turn_color(&pos), Color::Black);
}

#[test]
fn pawn_push_is_written_e4() {
    let (next, san) = apply_uci_move(START, "e2e4").unwrap();
    assert_eq!(san, "e4");
    assert_eq!(turn_color(&next), Color::Black);
    assert_eq!(
        position_to_fen(&next),
        "rnbqkbnr/pppppppp/8/8/4P3/8/PPPP1PPP/RNBQKBNR b KQkq - 0 1"
    );
    assert_eq!(game_outcome(&next), None);
}

#[test]
fn knight_move_is_written_with_its_piece() {
    let (_, san) = apply_uci_move(START, "g1f3").unwrap();
    assert_eq!(san, "Nf3");
}

#[test]
fn mate_is_marked_and_won_by_the_mover() {
    let (next, san) = apply_uci_move(BEFORE_FOOLS_MATE, "d8h4").unwrap();
    assert_eq!(san, "Qh4#");
    assert_eq!(game_outcome(&next), Some(TerminalOutcome::Decisive { winner: Color::Black }));
    assert!(legal_moves_uci(&next).is_empty());
}

#[test]
fn check_is_marked() {
    let (next, san) =
        apply_uci_move("4k3/8/8/8/8/8/8/4K2R w K - 0 1", "h1h8").unwrap();
    assert_eq!(san, "Rh8+");
    assert_eq!(game_outcome(&next), None);
}

#[test]
fn text_that_is_no_fen_is_refused() {
    assert_eq!(
        parse_fen("not a fen").unwrap_err(),
        bad_request("Invalid FEN: invalid board part in fen")
    );
    assert_eq!(parse_fen("").unwrap_err(), bad_request("Invalid FEN: invalid fen"));
    assert_eq!(
        parse_fen("rnbqkbnr/pppppppp/8/8/8/8/PPPPPPPP/RNBQKBNR x KQkq - 0 1").unwrap_err(),
        bad_request("Invalid FEN: invalid turn part in fen")
    );
}

#[test]
fn position_without_kings_is_refused() {
    assert_eq!(
        parse_fen("8/8/8/8/8/8/8/8 w - - 0 1").unwrap_err(),
        bad_request("Invalid position: illegal position: empty board, missing king")
    );
}

#[test]
fn move_on_a_bad_position_is_refused_for_the_position() {
    assert_eq!(
        apply_uci_move("not a fen", "e2e4").unwrap_err(),
        bad_request("Invalid FEN: invalid board part in fen")
    );
}

#[test]
fn text_that_is_no_move_is_refused() {
    assert_eq!(
        apply_uci_move(START, "pawn to e4").unwrap_err(),
        bad_request("Invalid UCI move: invalid uci")
    );
    assert_eq!(
        apply_uci_move(START, "").unwrap_err(),
        bad_request("Invalid UCI move: invalid uci")
    );
}

#[test]
fn illegal_move_is_refused() {
    assert_eq!(apply_uci_move(START, "e2e5").unwrap_err(), bad_request("Illegal move: illegal uci"));
    assert_eq!(apply_uci_move(START, "e7e5").unwrap_err(), bad_request("Illegal move: illegal uci"));
    assert_eq!(apply_uci_move(START, "0000").unwrap_err(), bad_request("Illegal move: illegal uci"));
}

#[test]
fn castling_is_listed_as_a_king_move_of_two_squares() {
    let pos = parse_fen(CASTLING).unwrap();
    let moves = legal_moves_uci(&pos);
    assert!(moves.contains(&"e1g1".to_string()));
    assert!(moves.contains(&"e1c1".to_string()));
    assert!(!moves.contains(&"e1h1".to_string()));
    let (_, san) = apply_uci_move(CASTLING, "e1g1").unwrap();
    assert_eq!(san, "O-O");
}

#[test]
fn stalemate_is_an_outcome_of_its_own() {
    let pos = parse_fen(STALEMATE).unwrap();
    assert!(legal_moves_uci(&pos).is_empty());
    assert_eq!(game_outcome(&pos), Some(TerminalOutcome::Stalemate));
    let pos = parse_fen("7k/5Q2/6K1/8/8/8/8/8 b - - 1 1").unwrap();
    assert_eq!(game_outcome(&pos), Some(TerminalOutcome::Stalemate));
}

#[test]
fn mate_is_no_stalemate() {
    let pos = parse_fen("rnb1kbnr/pppp1ppp/8/4p3/6Pq/5P2/PPPPP2P/RNBQKBNR w KQkq - 1 3").unwrap();
    assert!(legal_moves_uci(&pos).is_empty());
    assert_eq!(game_outcome(&pos), Some(TerminalOutcome::Decisive { winner: Color::Black }));
}

#[test]
fn bare_kings_draw() {
    let pos = parse_fen(BARE_KINGS).unwrap();
    assert_eq!(game_outcome(&pos), Some(TerminalOutcome::Draw));
    assert!(!legal_moves_uci(&pos).is_empty());
}

#[test]
fn stalemate_goes_before_the_reported_outcome() {
    let white = Some(Some(Color::White));
    let black = Some(Some(Color::Black));
    assert_eq!(classify_outcome(white, false), Some(TerminalOutcome::Decisive { winner: Color::White }));
    assert_eq!(classify_outcome(black, false), Some(TerminalOutcome::Decisive { winner: Color::Black }));
    assert_eq!(classify_outcome(Some(None), false), Some(TerminalOutcome::Draw));
    assert_eq!(classify_outcome(None, false), None);
    assert_eq!(classify_outcome(Some(None), true), Some(TerminalOutcome::Stalemate));
    assert_eq!(classify_outcome(None, true), Some(TerminalOutcome::Stalemate));
    assert_eq!(classify_outcome(white, true), Some(TerminalOutcome::Stalemate));
}

#[test]
fn mate_goes_before_check_in_the_mark() {
    assert_eq!(suffix(true, true), "#");
    assert_eq!(suffix(true, false), "#");
    assert_eq!(suffix(false, true), "+");
    assert_eq!(suffix(false, false), "");
}

#[test]
fn sides_have_names_and_opponents() {
    assert_eq!(Color::White.to_string(), "white");
    assert_eq!(Color::Black.to_string(), "black");
    assert_eq!(Color::White.other(), Color::Black);
    assert_eq!(Color::Black.other(), Color::White);
}

#[test]
fn en_passant_square_is_kept_only_where_a_capture_is_legal() {
    let (next, _) = apply_uci_move(
        "rnbqkbnr/ppp1pppp/8/8/3pP3/8/PPPP1PPP/RNBQKBNR w KQkq - 0 3",
        "c2c4",
    )
    .unwrap();
    assert_eq!(
        position_to_fen(&next),
        "rnbqkbnr/ppp1pppp/8/8/2PpP3/8/PP1P1PPP/RNBQKBNR b KQkq c3 0 3"
    );
}

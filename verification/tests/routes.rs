use backend::admission::GameUpdate;
use backend::db::models::{GameRow, GameStatus};
use backend::db::queries::{create_game, join_game};
use backend::error::AppError;
use backend::protocol::{ClientMessage, ServerMessage};
use backend::routes::games;
use backend::routes::games::MakeMoveRequest;
use backend::routes::ws;
use backend::routes::ws::Reaction;

const START: &str = "rnbqkbnr/pppppppp/8/8/8/8/PPPPPPPP/RNBQKBNR w KQkq - 0 1";
const AFTER_E4: &str = "rnbqkbnr/pppppppp/8/8/4P3/8/PPPP1PPP/RNBQKBNR b KQkq - 0 1";
const BEFORE_FOOLS_MATE: &str = "rnbqkbnr/pppp1ppp/8/4p3/6P1/5P2/PPPPP2P/RNBQKBNR b KQkq g3 0 2";

const WHITE: u128 = 0x1111;
const BLACK: u128 = 0x2222;

fn active(fen: &str) -> GameRow {
    join_game(&GameRow { fen: fen.to_string(), ..create_game(5, WHITE, 100) }, BLACK, 200).unwrap()
}

fn error(text: &str) -> Vec<ServerMessage> {
    vec![ServerMessage::Error { message: text.to_string() }]
}

#[test]
fn creation_answers_with_the_white_seat() {
    let game = create_game(5, WHITE, 100);
    let seat = games::create_game(&game);
    assert_eq!(seat.secret, WHITE);
    assert_eq!(seat.color, "white");
    assert_eq!(seat.game, game.to_response());
    assert!(!seat.game.has_black);
}

#[test]
fn listing_keeps_the_order() {
    let rows = vec![active(START), create_game(6, 1, 1), active(AFTER_E4)];
    let listed = games::list_games(&rows);
    assert_eq!(listed.len(), 3);
    assert_eq!(listed[0], rows[0].to_response());
    assert_eq!(listed[1], rows[1].to_response());
    assert_eq!(listed[2], rows[2].to_response());
    assert!(games::list_games(&vec![]).is_empty());
}

#[test]
fn one_game_is_answered_or_not_found() {
    let game = active(START);
    assert_eq!(games::get_game(Some(game.clone())), Ok(game.to_response()));
    assert_eq!(games::get_game(None), Err(AppError::NotFound("Game not found".to_string())));
}

#[test]
fn join_is_decided_on_the_second_secret() {
    assert_eq!(games::join_game(&Some(create_game(5, WHITE, 100))), Ok(()));
    assert_eq!(
        games::join_game(&Some(active(START))),
        Err(AppError::Conflict("Game already has two players".to_string()))
    );
    assert_eq!(games::join_game(&None), Err(AppError::NotFound("Game not found".to_string())));
}

#[test]
fn joined_game_is_announced_with_whites_moves() {
    let game = active(START);
    let (seat, event) = games::player_joined(&game).unwrap();
    assert_eq!(seat.secret, BLACK);
    assert_eq!(seat.color, "black");
    assert_eq!(seat.game, game.to_response());
    assert!(seat.game.has_black);
    match event {
        ServerMessage::PlayerJoined { color, fen, status, legal_moves } => {
            assert_eq!(color, "black");
            assert_eq!(fen, START);
            assert_eq!(status, "active");
            assert_eq!(legal_moves.len(), 20);
            assert!(legal_moves.contains(&"e2e4".to_string()));
        }
        other => panic!("unexpected event {:?}", other),
    }
}

#[test]
fn join_that_left_no_secret_is_an_internal_fault() {
    assert_eq!(
        games::player_joined(&create_game(5, WHITE, 100)),
        Err(AppError::Internal("Failed to generate black secret".to_string()))
    );
}

#[test]
fn join_of_a_game_with_a_bad_position_is_a_bad_request() {
    assert_eq!(
        games::player_joined(&active("not a fen")),
        Err(AppError::BadRequest("Invalid FEN: invalid board part in fen".to_string()))
    );
}

#[test]
fn move_request_is_decided_like_a_command() {
    let req = MakeMoveRequest { mv: "e2e4".to_string(), secret: WHITE };
    let accepted = games::make_move(Some(active(START)), &req).unwrap();
    assert_eq!(accepted.san, "e4");
    assert_eq!(accepted.fen, AFTER_E4);
    let reaction = ws::handle_make_move(Some(active(START)), "e2e4", WHITE).unwrap();
    assert_eq!(reaction.update, Some(accepted.update()));
    assert_eq!(reaction.events, accepted.events());
    let wrong = MakeMoveRequest { mv: "e2e4".to_string(), secret: BLACK };
    assert_eq!(
        games::make_move(Some(active(START)), &wrong),
        Err(AppError::BadRequest("Not your turn".to_string()))
    );
    assert_eq!(
        games::make_move(None, &req),
        Err(AppError::NotFound("Game not found".to_string()))
    );
}

#[test]
fn connection_to_a_waiting_game_sees_no_second_player() {
    let game = create_game(5, WHITE, 100);
    let event = ws::ws_handler(Some(game)).unwrap();
    assert_eq!(
        event,
        ServerMessage::GameState {
            id: 5,
            fen: START.to_string(),
            moves: vec![],
            status: "waiting".to_string(),
            result: None,
            legal_moves: vec![],
            white_connected: true,
            black_connected: false,
        }
    );
}

#[test]
fn connection_to_an_active_game_sees_the_legal_moves() {
    let event = ws::ws_handler(Some(active(AFTER_E4))).unwrap();
    match event {
        ServerMessage::GameState {
            id, fen, status, legal_moves, white_connected, black_connected, ..
        } => {
            assert_eq!(id, 5);
            assert_eq!(fen, AFTER_E4);
            assert_eq!(status, "active");
            assert_eq!(legal_moves.len(), 20);
            assert!(legal_moves.contains(&"e7e5".to_string()));
            assert!(white_connected);
            assert!(black_connected);
        }
        other => panic!("unexpected event {:?}", other),
    }
}

#[test]
fn connection_to_an_ended_game_sees_no_legal_moves() {
    let mut game = active(AFTER_E4);
    game.status = GameStatus::Resigned;
    game.result = Some("white".to_string());
    game.moves = vec!["e4".to_string()];
    assert_eq!(
        ws::ws_handler(Some(game)).unwrap(),
        ServerMessage::GameState {
            id: 5,
            fen: AFTER_E4.to_string(),
            moves: vec!["e4".to_string()],
            status: "resigned".to_string(),
            result: Some("white".to_string()),
            legal_moves: vec![],
            white_connected: true,
            black_connected: true,
        }
    );
}

#[test]
fn connection_fails_without_a_game_or_a_position() {
    assert_eq!(ws::ws_handler(None), Err(AppError::NotFound("Game not found".to_string())));
    assert_eq!(
        ws::ws_handler(Some(active("not a fen"))),
        Err(AppError::BadRequest("Invalid FEN: invalid board part in fen".to_string()))
    );
}

#[test]
fn snapshot_takes_the_moves_it_is_given() {
    let event = ws::game_state(active(START), vec!["a2a3".to_string()]);
    match event {
        ServerMessage::GameState { legal_moves, .. } => {
            assert_eq!(legal_moves, vec!["a2a3".to_string()])
        }
        other => panic!("unexpected event {:?}", other),
    }
}

#[test]
fn accepted_command_writes_and_publishes() {
    let msg = ClientMessage::MakeMove { mv: "d8h4".to_string(), secret: BLACK };
    let reaction = ws::handle_client_message(Some(active(BEFORE_FOOLS_MATE)), msg);
    let update = reaction.update.unwrap();
    assert_eq!(update.status, GameStatus::Checkmate);
    assert_eq!(update.result, Some("black".to_string()));
    assert_eq!(update.moves, vec!["Qh4#".to_string()]);
    assert_eq!(reaction.events.len(), 2);
    assert!(matches!(reaction.events[0], ServerMessage::MoveMade { .. }));
    assert_eq!(
        reaction.events[1],
        ServerMessage::GameOver {
            status: "checkmate".to_string(),
            result: Some("black".to_string())
        }
    );
}

#[test]
fn refused_command_writes_nothing_and_publishes_the_error() {
    let msg = ClientMessage::MakeMove { mv: "e2e4".to_string(), secret: BLACK };
    assert_eq!(
        ws::handle_client_message(Some(active(START)), msg),
        Reaction {
            update: None,
            events: vec![ServerMessage::Error { message: "Bad request: Not your turn".to_string() }],
        }
    );
    let msg = ClientMessage::Resign { secret: 77 };
    assert_eq!(
        ws::handle_client_message(Some(active(START)), msg),
        Reaction {
            update: None,
            events: vec![ServerMessage::Error {
                message: "Unauthorized: Invalid secret".to_string()
            }],
        }
    );
    let msg = ClientMessage::Resign { secret: WHITE };
    assert_eq!(
        ws::handle_client_message(None, msg),
        Reaction {
            update: None,
            events: vec![ServerMessage::Error { message: "Not found: Game not found".to_string() }],
        }
    );
}

#[test]
fn resignation_command_ends_the_game() {
    let msg = ClientMessage::Resign { secret: BLACK };
    assert_eq!(
        ws::handle_client_message(Some(active(AFTER_E4)), msg),
        Reaction {
            update: Some(GameUpdate {
                fen: AFTER_E4.to_string(),
                moves: vec![],
                status: GameStatus::Resigned,
                result: Some("white".to_string()),
            }),
            events: vec![ServerMessage::GameOver {
                status: "resigned".to_string(),
                result: Some("white".to_string()),
            }],
        }
    );
    assert_eq!(
        ws::handle_resign(Some(active(AFTER_E4)), 77),
        Err(AppError::Unauthorized("Invalid secret".to_string()))
    );
}

#[test]
fn failure_of_the_store_is_published_without_its_words() {
    let e = AppError::Database("pool timed out".to_string());
    assert_eq!(
        ws::error_event(&e),
        ServerMessage::Error { message: "Internal server error".to_string() }
    );
    assert_eq!(ws::refuse(&e), Reaction { update: None, events: error("Internal server error") });
    let e = AppError::Internal("Failed to generate black secret".to_string());
    assert_eq!(ws::refuse(&e), Reaction { update: None, events: error("Internal server error") });
}

#[test]
fn fault_of_the_sender_is_published_in_full() {
    let cases = [
        (AppError::NotFound("Game not found".to_string()), "Not found: Game not found"),
        (AppError::BadRequest("Not your turn".to_string()), "Bad request: Not your turn"),
        (AppError::Unauthorized("Invalid secret".to_string()), "Unauthorized: Invalid secret"),
        (
            AppError::Conflict("Game already has two players".to_string()),
            "Conflict: Game already has two players",
        ),
    ];
    for (e, text) in cases {
        assert_eq!(e.published_message(), text);
        assert_eq!(ws::refuse(&e), Reaction { update: None, events: error(text) });
    }
}

#[test]
fn events_of_a_command_are_published_once_it_is_written() {
    let msg = ClientMessage::MakeMove { mv: "e2e4".to_string(), secret: WHITE };
    let decided = ws::handle_client_message(Some(active(START)), msg);
    assert!(decided.update.is_some());
    assert_eq!(ws::after_write(decided.clone(), Ok(())), decided.events);
    assert_eq!(decided.events.len(), 1);
}

#[test]
fn failed_write_publishes_the_failure_alone() {
    let msg = ClientMessage::MakeMove { mv: "d8h4".to_string(), secret: BLACK };
    let decided = ws::handle_client_message(Some(active(BEFORE_FOOLS_MATE)), msg);
    assert_eq!(decided.events.len(), 2);
    assert_eq!(
        ws::after_write(decided, Err(AppError::Database("connection reset".to_string()))),
        error("Internal server error")
    );
}

#[test]
fn refused_command_is_published_as_it_is_where_nothing_was_written() {
    let msg = ClientMessage::Resign { secret: 77 };
    let decided = ws::handle_client_message(Some(active(START)), msg);
    assert_eq!(decided.update, None);
    assert_eq!(ws::after_write(decided, Ok(())), error("Unauthorized: Invalid secret"));
}

#[test]
fn stalemating_move_on_a_connection_ends_as_stalemate() {
    let game = active("7k/8/6K1/8/8/8/8/5Q2 w - - 0 1");
    let reaction = ws::handle_make_move(Some(game), "f1f7", WHITE).unwrap();
    assert_eq!(
        reaction.update,
        Some(GameUpdate {
            fen: "7k/5Q2/6K1/8/8/8/8/8 b - - 1 1".to_string(),
            moves: vec!["Qf7".to_string()],
            status: GameStatus::Stalemate,
            result: None,
        })
    );
    assert_eq!(
        reaction.events,
        vec![
            ServerMessage::MoveMade {
                mv: "f1f7".to_string(),
                san: "Qf7".to_string(),
                fen: "7k/5Q2/6K1/8/8/8/8/8 b - - 1 1".to_string(),
                moves: vec!["Qf7".to_string()],
                status: "stalemate".to_string(),
                result: None,
                legal_moves: vec![],
            },
            ServerMessage::GameOver { status: "stalemate".to_string(), result: None },
        ]
    );
}

#[test]
fn lost_join_is_a_conflict() {
    assert_eq!(
        games::join_answer(None),
        Err(AppError::Conflict("Game already has two players".to_string()))
    );
}

#[test]
fn won_join_is_answered_like_a_joined_game() {
    let game = active(START);
    assert_eq!(games::join_answer(Some(game.clone())), games::player_joined(&game));
    let (seat, event) = games::join_answer(Some(game)).unwrap();
    assert_eq!(seat.secret, BLACK);
    assert_eq!(seat.color, "black");
    assert!(matches!(event, ServerMessage::PlayerJoined { .. }));
    assert_eq!(
        games::join_answer(Some(active("not a fen"))),
        Err(AppError::BadRequest("Invalid FEN: invalid board part in fen".to_string()))
    );
    assert_eq!(
        games::join_answer(Some(create_game(5, WHITE, 100))),
        Err(AppError::Internal("Failed to generate black secret".to_string()))
    );
}

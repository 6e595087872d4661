//! What the viewers of a game are sent, and what a player may send.

use vstd::prelude::*;

verus! {

/// An event that the viewers of a game are sent.
#[derive(Debug, Clone, PartialEq, Eq)]
pub enum ServerMessage {
    /// The whole game, sent once to a viewer who connects.
    GameState {
        id: u128,
        fen: String,
        moves: Vec<String>,
        status: String,
        result: Option<String>,
        legal_moves: Vec<String>,
        white_connected: bool,
        black_connected: bool,
    },
    /// A move was accepted.
    MoveMade {
        mv: String,
        san: String,
        fen: String,
        moves: Vec<String>,
        status: String,
        result: Option<String>,
        legal_moves: Vec<String>,
    },
    /// The second player has joined.
    PlayerJoined { color: String, fen: String, status: String, legal_moves: Vec<String> },
    /// The game has ended.
    GameOver { status: String, result: Option<String> },
    /// A command was refused.
    Error { message: String },
}

/// A [`ServerMessage`] with its texts as sequences of characters.
pub enum Event {
    GameState {
        id: u128,
        fen: Seq<char>,
        moves: Seq<Seq<char>>,
        status: Seq<char>,
        result: Option<Seq<char>>,
        legal_moves: Seq<Seq<char>>,
        white_connected: bool,
        black_connected: bool,
    },
    MoveMade {
        mv: Seq<char>,
        san: Seq<char>,
        fen: Seq<char>,
        moves: Seq<Seq<char>>,
        status: Seq<char>,
        result: Option<Seq<char>>,
        legal_moves: Seq<Seq<char>>,
    },
    PlayerJoined { color: Seq<char>, fen: Seq<char>, status: Seq<char>, legal_moves: Seq<Seq<char>> },
    GameOver { status: Seq<char>, result: Option<Seq<char>> },
    Error { message: Seq<char> },
}

impl View for ServerMessage {
    type V = Event;

    open spec fn view(&self) -> Event {
        match self {
            ServerMessage::GameState {
                id,
                fen,
                moves,
                status,
                result,
                legal_moves,
                white_connected,
                black_connected,
            } => Event::GameState {
                id: *id,
                fen: fen@,
                moves: moves.deep_view(),
                status: status@,
                result: result.deep_view(),
                legal_moves: legal_moves.deep_view(),
                white_connected: *white_connected,
                black_connected: *black_connected,
            },
            ServerMessage::MoveMade { mv, san, fen, moves, status, result, legal_moves } => {
                Event::MoveMade {
                    mv: mv@,
                    san: san@,
                    fen: fen@,
                    moves: moves.deep_view(),
                    status: status@,
                    result: result.deep_view(),
                    legal_moves: legal_moves.deep_view(),
                }
            },
            ServerMessage::PlayerJoined { color, fen, status, legal_moves } => Event::PlayerJoined {
                color: color@,
                fen: fen@,
                status: status@,
                legal_moves: legal_moves.deep_view(),
            },
            ServerMessage::GameOver { status, result } => Event::GameOver {
                status: status@,
                result: result.deep_view(),
            },
            ServerMessage::Error { message } => Event::Error { message: message@ },
        }
    }
}

impl DeepView for ServerMessage {
    type V = Event;

    open spec fn deep_view(&self) -> Event {
        self@
    }
}

/// A command that a player sends over a connection.
#[derive(Debug, Clone, PartialEq, Eq)]
pub enum ClientMessage {
    /// Play the move given in UCI notation.
    MakeMove { mv: String, secret: u128 },
    /// Give the game up.
    Resign { secret: u128 },
}

/// A [`ClientMessage`] with its text as a sequence of characters.
pub enum Command {
    MakeMove { mv: Seq<char>, secret: u128 },
    Resign { secret: u128 },
}

impl View for ClientMessage {
    type V = Command;

    open spec fn view(&self) -> Command {
        match self {
            ClientMessage::MakeMove { mv, secret } => Command::MakeMove { mv: mv@, secret: *secret },
            ClientMessage::Resign { secret } => Command::Resign { secret: *secret },
        }
    }
}

} // verus!

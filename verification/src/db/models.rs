//! The stored game and its projections.

use vstd::prelude::*;

verus! {

/// Where a game stands in its lifecycle.
///
/// A game starts `Waiting`, becomes `Active` when the second player joins,
/// and ends in one of the other four.
#[derive(Debug, Clone, Copy, PartialEq, Eq, Structural)]
pub enum GameStatus {
    Waiting,
    Active,
    Checkmate,
    Stalemate,
    Draw,
    Resigned,
}

impl GameStatus {
    /// The lower-case name under which the status is stored and sent.
    pub open spec fn text(self) -> Seq<char> {
        match self {
            GameStatus::Waiting => "waiting"@,
            GameStatus::Active => "active"@,
            GameStatus::Checkmate => "checkmate"@,
            GameStatus::Stalemate => "stalemate"@,
            GameStatus::Draw => "draw"@,
            GameStatus::Resigned => "resigned"@,
        }
    }

    /// A status that no move, join or resignation leaves.
    pub open spec fn is_terminal(self) -> bool {
        self == GameStatus::Checkmate || self == GameStatus::Stalemate || self == GameStatus::Draw
            || self == GameStatus::Resigned
    }

    /// The position of the status in the order `waiting`, `active`, ended.
    pub open spec fn rank(self) -> nat {
        match self {
            GameStatus::Waiting => 0,
            GameStatus::Active => 1,
            _ => 2,
        }
    }

    pub fn to_string(&self) -> (text: String)
        ensures
            text@ == self.text(),
    {
        match self {
            GameStatus::Waiting => "waiting".to_owned(),
            GameStatus::Active => "active".to_owned(),
            GameStatus::Checkmate => "checkmate".to_owned(),
            GameStatus::Stalemate => "stalemate".to_owned(),
            GameStatus::Draw => "draw".to_owned(),
            GameStatus::Resigned => "resigned".to_owned(),
        }
    }
}

/// A game as the store holds it.
///
/// Identifiers and secrets are 128-bit numbers; a secret is compared, never
/// read. Times are microseconds since the Unix epoch.
#[derive(Debug, Clone, PartialEq, Eq)]
pub struct GameRow {
    pub id: u128,
    pub white_secret: u128,
    pub black_secret: Option<u128>,
    pub fen: String,
    pub moves: Vec<String>,
    pub status: GameStatus,
    pub result: Option<String>,
    pub created_at: i64,
    pub updated_at: i64,
}

/// A [`GameRow`] with its texts as sequences of characters.
pub struct Session {
    pub id: u128,
    pub white_secret: u128,
    pub black_secret: Option<u128>,
    pub fen: Seq<char>,
    pub moves: Seq<Seq<char>>,
    pub status: GameStatus,
    pub result: Option<Seq<char>>,
    pub created_at: i64,
    pub updated_at: i64,
}

impl View for GameRow {
    type V = Session;

    open spec fn view(&self) -> Session {
        Session {
            id: self.id,
            white_secret: self.white_secret,
            black_secret: self.black_secret,
            fen: self.fen@,
            moves: self.moves.deep_view(),
            status: self.status,
            result: self.result.deep_view(),
            created_at: self.created_at,
            updated_at: self.updated_at,
        }
    }
}

/// What anyone may see of a game: all of it but the secrets.
#[derive(Debug, Clone, PartialEq, Eq)]
pub struct GameResponse {
    pub id: u128,
    pub fen: String,
    pub moves: Vec<String>,
    pub status: String,
    pub result: Option<String>,
    pub created_at: i64,
    pub updated_at: i64,
    pub has_black: bool,
}

/// A [`GameResponse`] with its texts as sequences of characters.
pub struct Projection {
    pub id: u128,
    pub fen: Seq<char>,
    pub moves: Seq<Seq<char>>,
    pub status: Seq<char>,
    pub result: Option<Seq<char>>,
    pub created_at: i64,
    pub updated_at: i64,
    pub has_black: bool,
}

impl View for GameResponse {
    type V = Projection;

    open spec fn view(&self) -> Projection {
        Projection {
            id: self.id,
            fen: self.fen@,
            moves: self.moves.deep_view(),
            status: self.status@,
            result: self.result.deep_view(),
            created_at: self.created_at,
            updated_at: self.updated_at,
            has_black: self.has_black,
        }
    }
}

impl DeepView for GameResponse {
    type V = Projection;

    open spec fn deep_view(&self) -> Projection {
        self@
    }
}

/// What a player is told on creating or joining a game: the game, the
/// player's secret and the player's side.
#[derive(Debug, Clone, PartialEq, Eq)]
pub struct GameWithSecret {
    pub game: GameResponse,
    pub secret: u128,
    pub color: String,
}

/// A [`GameWithSecret`] with its texts as sequences of characters.
pub struct Seat {
    pub game: Projection,
    pub secret: u128,
    pub color: Seq<char>,
}

impl View for GameWithSecret {
    type V = Seat;

    open spec fn view(&self) -> Seat {
        Seat { game: self.game@, secret: self.secret, color: self.color@ }
    }
}

impl Session {
    /// The second player's secret is there exactly when the game has left
    /// `waiting`.
    pub open spec fn well_formed(self) -> bool {
        self.black_secret is Some <==> self.status != GameStatus::Waiting
    }

    /// What anyone may see of the game.
    pub open spec fn response(self) -> Projection {
        Projection {
            id: self.id,
            fen: self.fen,
            moves: self.moves,
            status: self.status.text(),
            result: self.result,
            created_at: self.created_at,
            updated_at: self.updated_at,
            has_black: self.black_secret is Some,
        }
    }

    /// What the player with `secret` on side `color` is told of the game.
    pub open spec fn with_secret(self, secret: u128, color: Seq<char>) -> Seat {
        Seat { game: self.response(), secret, color }
    }
}

/// A copy of a list of texts.
pub fn clone_texts(texts: &Vec<String>) -> (copy: Vec<String>)
    ensures
        copy.deep_view() == texts.deep_view(),
{
    let mut copy: Vec<String> = Vec::new();
    let mut i: usize = 0;
    while i < texts.len()
        invariant
            i <= texts.len(),
            copy.len() == i,
            forall|k: int| 0 <= k < i ==> copy[k]@ == texts[k]@,
        decreases texts.len() - i,
    {
        copy.push(texts[i].clone());
        i += 1;
    }
    assert(copy.deep_view() =~= texts.deep_view());
    copy
}

/// A copy of a text that may be missing.
pub fn clone_text(text: &Option<String>) -> (copy: Option<String>)
    ensures
        copy.deep_view() == text.deep_view(),
{
    match text {
        Some(t) => Some(t.clone()),
        None => None,
    }
}

impl GameRow {
    /// A copy of the game.
    pub fn duplicate(&self) -> (copy: GameRow)
        ensures
            copy@ == self@,
    {
        GameRow {
            id: self.id,
            white_secret: self.white_secret,
            black_secret: self.black_secret,
            fen: self.fen.clone(),
            moves: clone_texts(&self.moves),
            status: self.status,
            result: clone_text(&self.result),
            created_at: self.created_at,
            updated_at: self.updated_at,
        }
    }

    /// What anyone may see of the game.
    pub fn to_response(&self) -> (response: GameResponse)
        ensures
            response@ == self@.response(),
    {
        GameResponse {
            id: self.id,
            fen: self.fen.clone(),
            moves: clone_texts(&self.moves),
            status: self.status.to_string(),
            result: clone_text(&self.result),
            created_at: self.created_at,
            updated_at: self.updated_at,
            has_black: self.black_secret.is_some(),
        }
    }

    /// What the player with `secret` on side `color` is told of the game.
    pub fn to_with_secret(&self, secret: u128, color: &str) -> (seat: GameWithSecret)
        ensures
            seat@ == self@.with_secret(secret, color@),
    {
        GameWithSecret { game: self.to_response(), secret, color: color.to_owned() }
    }
}

} // verus!

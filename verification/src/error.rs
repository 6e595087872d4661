//! The failures that a request can end in.

use vstd::prelude::*;
use vstd::string::StringExecFns;

verus! {

/// Why a request was refused.
#[derive(Debug, Clone, PartialEq, Eq)]
pub enum AppError {
    /// No game has the given identifier.
    NotFound(String),
    /// The request cannot be carried out on the game as it stands.
    BadRequest(String),
    /// The secret is that of neither player.
    Unauthorized(String),
    /// The game already has its second player.
    Conflict(String),
    /// The store failed; the text is for the server's log.
    Database(String),
    /// Something that should not happen did; the text is for the server's log.
    Internal(String),
}

/// An [`AppError`] with its text as a sequence of characters.
pub enum Failure {
    NotFound(Seq<char>),
    BadRequest(Seq<char>),
    Unauthorized(Seq<char>),
    Conflict(Seq<char>),
    Database(Seq<char>),
    Internal(Seq<char>),
}

impl View for AppError {
    type V = Failure;

    open spec fn view(&self) -> Failure {
        match self {
            AppError::NotFound(msg) => Failure::NotFound(msg@),
            AppError::BadRequest(msg) => Failure::BadRequest(msg@),
            AppError::Unauthorized(msg) => Failure::Unauthorized(msg@),
            AppError::Conflict(msg) => Failure::Conflict(msg@),
            AppError::Database(msg) => Failure::Database(msg@),
            AppError::Internal(msg) => Failure::Internal(msg@),
        }
    }
}

impl Failure {
    /// The text that the error carries.
    pub open spec fn detail(self) -> Seq<char> {
        match self {
            Failure::NotFound(msg) => msg,
            Failure::BadRequest(msg) => msg,
            Failure::Unauthorized(msg) => msg,
            Failure::Conflict(msg) => msg,
            Failure::Database(msg) => msg,
            Failure::Internal(msg) => msg,
        }
    }

    /// The words that name the kind of error in its full text.
    pub open spec fn label(self) -> Seq<char> {
        match self {
            Failure::NotFound(_) => "Not found: "@,
            Failure::BadRequest(_) => "Bad request: "@,
            Failure::Unauthorized(_) => "Unauthorized: "@,
            Failure::Conflict(_) => "Conflict: "@,
            Failure::Database(_) => "Database error: "@,
            Failure::Internal(_) => "Internal error: "@,
        }
    }

    /// The full text of the error: its kind, then what it carries.
    pub open spec fn full_text(self) -> Seq<char> {
        self.label() + self.detail()
    }

    /// The HTTP status under which the error is answered.
    pub open spec fn status_code(self) -> u16 {
        match self {
            Failure::NotFound(_) => 404,
            Failure::BadRequest(_) => 400,
            Failure::Unauthorized(_) => 401,
            Failure::Conflict(_) => 409,
            Failure::Database(_) => 500,
            Failure::Internal(_) => 500,
        }
    }

    /// Whether the error's text stays on the server.
    pub open spec fn is_internal(self) -> bool {
        self is Database || self is Internal
    }

    /// The message that the caller is shown: the error's own text, unless the
    /// error is internal.
    pub open spec fn public_message(self) -> Seq<char> {
        if self.is_internal() {
            "Internal server error"@
        } else {
            self.detail()
        }
    }

    /// The message that the viewers of a game are sent: the error's full
    /// text, unless the error is internal. Of an internal error they are
    /// sent what a caller is shown, and nothing of its own text.
    pub open spec fn published_message(self) -> Seq<char> {
        if self.is_internal() {
            self.public_message()
        } else {
            self.full_text()
        }
    }
}

/// Nothing of an internal error's own text is shown or published: whatever
/// two internal errors carry, the caller is shown the same message of both,
/// and the viewers are sent the same message of both.
pub proof fn lemma_internal_text_stays_inside(a: Failure, b: Failure)
    requires
        a.is_internal(),
        b.is_internal(),
    ensures
        a.public_message() == b.public_message(),
        a.published_message() == b.published_message(),
        a.status_code() == b.status_code(),
{
}

/// A result with its failure's text as a sequence of characters.
pub open spec fn with_failure<T>(r: Result<T, AppError>) -> Result<T, Failure> {
    match r {
        Ok(value) => Ok(value),
        Err(e) => Err(e@),
    }
}

/// A result with its texts as sequences of characters.
pub open spec fn result_view<T: View>(r: Result<T, AppError>) -> Result<T::V, Failure> {
    match r {
        Ok(value) => Ok(value@),
        Err(e) => Err(e@),
    }
}

impl AppError {
    /// The text that the error carries.
    pub fn detail(&self) -> (msg: &String)
        ensures
            msg@ == self@.detail(),
    {
        match self {
            AppError::NotFound(msg) => msg,
            AppError::BadRequest(msg) => msg,
            AppError::Unauthorized(msg) => msg,
            AppError::Conflict(msg) => msg,
            AppError::Database(msg) => msg,
            AppError::Internal(msg) => msg,
        }
    }

    /// The full text of the error: its kind, then what it carries.
    pub fn to_string(&self) -> (text: String)
        ensures
            text@ == self@.full_text(),
    {
        let label = match self {
            AppError::NotFound(_) => "Not found: ",
            AppError::BadRequest(_) => "Bad request: ",
            AppError::Unauthorized(_) => "Unauthorized: ",
            AppError::Conflict(_) => "Conflict: ",
            AppError::Database(_) => "Database error: ",
            AppError::Internal(_) => "Internal error: ",
        };
        label.to_owned().concat(self.detail().as_str())
    }

    /// The message that the viewers of a game are sent. The text of an
    /// internal error is not part of it.
    pub fn published_message(&self) -> (text: String)
        ensures
            text@ == self@.published_message(),
    {
        match self {
            AppError::Database(_) => "Internal server error".to_owned(),
            AppError::Internal(_) => "Internal server error".to_owned(),
            _ => self.to_string(),
        }
    }

    /// The HTTP status under which the error is answered.
    pub fn status_code(&self) -> (code: u16)
        ensures
            code == self@.status_code(),
    {
        match self {
            AppError::NotFound(_) => 404,
            AppError::BadRequest(_) => 400,
            AppError::Unauthorized(_) => 401,
            AppError::Conflict(_) => 409,
            AppError::Database(_) => 500,
            AppError::Internal(_) => 500,
        }
    }

    /// The status and the message under which the error is answered. The text
    /// of an internal error is not part of the answer.
    pub fn into_response(self) -> (answer: (u16, String))
        ensures
            answer.0 == self@.status_code(),
            answer.1@ == self@.public_message(),
    {
        match self {
            AppError::NotFound(msg) => (404, msg),
            AppError::BadRequest(msg) => (400, msg),
            AppError::Unauthorized(msg) => (401, msg),
            AppError::Conflict(msg) => (409, msg),
            AppError::Database(_) => (500, "Internal server error".to_owned()),
            AppError::Internal(_) => (500, "Internal server error".to_owned()),
        }
    }
}

} // verus!

//! Error values of the service: the fixed error messages, the database
//! failures the handlers react to, and the HTTP error a handler answers with.
use vstd::prelude::*;

verus! {

/// The service's fixed error messages. Their wording is rendered at the edge.
#[derive(Clone, Copy, Debug, PartialEq, Eq, Structural)]
pub enum ErrorMessage {
    ServerError,
    HashingError,
    EmptyPin,
    PasswordTooShort(usize),
    PinTooShort(usize),
    ExceededMaxPinLength(usize),
    InvalidHashFormat,
    UserNoLongerExist,
    WrongCredentials,
    WrongPin,
}

/// A failed database operation, as far as the handlers look into it.
#[derive(Debug)]
pub enum DbError {
    /// No row matched where one was expected.
    RowNotFound,
    /// The request was refused before it reached the database.
    Protocol(String),
    /// The database answered with an error; `message` is its own text.
    Database { message: String, unique_violation: bool },
    /// Any other failure, by its text.
    Other(String),
}

pub enum DbErrorView {
    RowNotFound,
    Protocol(Seq<char>),
    Database { message: Seq<char>, unique_violation: bool },
    Other(Seq<char>),
}

impl View for DbError {
    type V = DbErrorView;

    open spec fn view(&self) -> DbErrorView {
        match self {
            DbError::RowNotFound => DbErrorView::RowNotFound,
            DbError::Protocol(s) => DbErrorView::Protocol(s@),
            DbError::Database { message, unique_violation } => DbErrorView::Database {
                message: message@,
                unique_violation: *unique_violation,
            },
            DbError::Other(s) => DbErrorView::Other(s@),
        }
    }
}

/// The text of an HTTP error answer.
#[derive(Debug)]
pub enum HttpMessage {
    /// A text given as it is.
    Text(String),
    /// One of the fixed messages.
    Known(ErrorMessage),
    /// The text of a database failure.
    Db(DbError),
    /// A fixed text followed by the text of a database failure.
    TextThenDb(String, DbError),
}

pub enum HttpMessageView {
    Text(Seq<char>),
    Known(ErrorMessage),
    Db(DbErrorView),
    TextThenDb(Seq<char>, DbErrorView),
}

impl View for HttpMessage {
    type V = HttpMessageView;

    open spec fn view(&self) -> HttpMessageView {
        match self {
            HttpMessage::Text(s) => HttpMessageView::Text(s@),
            HttpMessage::Known(m) => HttpMessageView::Known(*m),
            HttpMessage::Db(e) => HttpMessageView::Db(e@),
            HttpMessage::TextThenDb(t, e) => HttpMessageView::TextThenDb(t@, e@),
        }
    }
}

pub const STATUS_OK: u16 = 200;
pub const STATUS_CREATED: u16 = 201;
pub const STATUS_FOUND: u16 = 302;
pub const STATUS_BAD_REQUEST: u16 = 400;
pub const STATUS_UNAUTHORIZED: u16 = 401;
pub const STATUS_NOT_FOUND: u16 = 404;
pub const STATUS_CONFLICT: u16 = 409;
pub const STATUS_INTERNAL_SERVER_ERROR: u16 = 500;

/// An HTTP error answer: a message and a status code.
#[derive(Debug)]
pub struct HttpError {
    pub message: HttpMessage,
    pub status: u16,
}

pub struct HttpErrorView {
    pub message: HttpMessageView,
    pub status: u16,
}

impl View for HttpError {
    type V = HttpErrorView;

    open spec fn view(&self) -> HttpErrorView {
        HttpErrorView { message: self.message@, status: self.status }
    }
}

/// The error answer with `message` and `status`.
pub open spec fn http_error(message: HttpMessageView, status: u16) -> HttpErrorView {
    HttpErrorView { message, status }
}

impl HttpError {
    pub fn new(message: HttpMessage, status: u16) -> (r: HttpError)
        ensures
            r@ == http_error(message@, status),
    {
        HttpError { message, status }
    }

    pub fn bad_request(message: HttpMessage) -> (r: HttpError)
        ensures
            r@ == http_error(message@, STATUS_BAD_REQUEST),
    {
        HttpError { message, status: STATUS_BAD_REQUEST }
    }

    pub fn server_error(message: HttpMessage) -> (r: HttpError)
        ensures
            r@ == http_error(message@, STATUS_INTERNAL_SERVER_ERROR),
    {
        HttpError { message, status: STATUS_INTERNAL_SERVER_ERROR }
    }

    pub fn not_found(message: HttpMessage) -> (r: HttpError)
        ensures
            r@ == http_error(message@, STATUS_NOT_FOUND),
    {
        HttpError { message, status: STATUS_NOT_FOUND }
    }

    pub fn unauthorized(message: HttpMessage) -> (r: HttpError)
        ensures
            r@ == http_error(message@, STATUS_UNAUTHORIZED),
    {
        HttpError { message, status: STATUS_UNAUTHORIZED }
    }

    pub fn unique_constraint_violation(message: HttpMessage) -> (r: HttpError)
        ensures
            r@ == http_error(message@, STATUS_CONFLICT),
    {
        HttpError { message, status: STATUS_CONFLICT }
    }
}

/// A message given by a fixed text.
pub fn text(s: &str) -> (r: HttpMessage)
    ensures
        r@ == HttpMessageView::Text(s@),
{
    HttpMessage::Text(s.to_owned())
}

} // verus!

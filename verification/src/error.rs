//! The failures of the backend, and the one place where they become answers.

use crate::reply::{
    error_reply, Body, Reply, ReplyView, STATUS_INTERNAL_SERVER_ERROR, STATUS_NOT_FOUND,
};
use vstd::prelude::*;

verus! {

/// A failure of one of the two outside services. Each variant carries the
/// cause as the service's client worded it.
#[derive(Debug, PartialEq, Eq)]
pub enum Error {
    /// The relational store failed.
    Database(String),
    /// The object store failed, could not be reached, or refused the request.
    S3(String),
}

/// What an [`Error`] holds, as mathematical values.
pub enum ErrorView {
    Database(Seq<char>),
    S3(Seq<char>),
}

impl View for Error {
    type V = ErrorView;

    open spec fn view(&self) -> ErrorView {
        match self {
            Error::Database(cause) => ErrorView::Database(cause@),
            Error::S3(cause) => ErrorView::S3(cause@),
        }
    }
}

impl ErrorView {
    /// The failure in words: the service, then the cause.
    pub open spec fn text(self) -> Seq<char> {
        match self {
            ErrorView::Database(cause) => "database error: "@ + cause,
            ErrorView::S3(cause) => "S3 error: "@ + cause,
        }
    }
}

impl Error {
    /// The failure in words: the service, then the cause.
    pub fn to_string(&self) -> (text: String)
        ensures
            text@ == self@.text(),
    {
        match self {
            Error::Database(cause) => {
                "database error: ".to_owned().concat(cause.as_str())
            },
            Error::S3(cause) => {
                "S3 error: ".to_owned().concat(cause.as_str())
            },
        }
    }
}

/// A result that carries a text, seen as mathematical values.
pub open spec fn text_result_view(result: Result<String, Error>) -> Result<Seq<char>, ErrorView> {
    match result {
        Ok(text) => Ok(text@),
        Err(error) => Err(error@),
    }
}

/// Why a request got no answer from any route.
#[derive(Debug, PartialEq, Eq)]
pub enum Rejection {
    /// No route takes requests with this method and this path.
    NotFound,
    /// The route was found, but its query string could not be read.
    InvalidQuery,
    /// The route was found and ran into a failure of an outside service.
    Custom(Error),
    /// Anything else that went wrong while the request was served.
    Unhandled,
}

/// What a [`Rejection`] holds, as mathematical values.
pub enum RejectionView {
    NotFound,
    InvalidQuery,
    Custom(ErrorView),
    Unhandled,
}

impl View for Rejection {
    type V = RejectionView;

    open spec fn view(&self) -> RejectionView {
        match self {
            Rejection::NotFound => RejectionView::NotFound,
            Rejection::InvalidQuery => RejectionView::InvalidQuery,
            Rejection::Custom(error) => RejectionView::Custom(error@),
            Rejection::Unhandled => RejectionView::Unhandled,
        }
    }
}

/// The answer that a rejection is turned into. The message names the kind of
/// failure and nothing of its cause, so that no connection string or other
/// secret can reach a client through it.
pub open spec fn rejection_reply(rejection: RejectionView) -> ReplyView {
    match rejection {
        RejectionView::NotFound => error_reply(STATUS_NOT_FOUND, "Not Found"@),
        RejectionView::Custom(ErrorView::Database(_)) => error_reply(
            STATUS_INTERNAL_SERVER_ERROR,
            "Database Error"@,
        ),
        RejectionView::Custom(ErrorView::S3(_)) => error_reply(
            STATUS_INTERNAL_SERVER_ERROR,
            "S3 Error"@,
        ),
        _ => error_reply(STATUS_INTERNAL_SERVER_ERROR, "Internal Server Error"@),
    }
}

/// Turns a rejection into the answer that the client gets.
pub fn handle_rejection(err: &Rejection) -> (reply: Reply)
    ensures
        reply@ == rejection_reply(err@),
{
    let code: u16;
    let message: &str;
    match err {
        Rejection::NotFound => {
            code = STATUS_NOT_FOUND;
            message = "Not Found";
        },
        Rejection::Custom(Error::Database(_)) => {
            code = STATUS_INTERNAL_SERVER_ERROR;
            message = "Database Error";
        },
        Rejection::Custom(Error::S3(_)) => {
            code = STATUS_INTERNAL_SERVER_ERROR;
            message = "S3 Error";
        },
        _ => {
            code = STATUS_INTERNAL_SERVER_ERROR;
            message = "Internal Server Error";
        },
    }
    Reply { status: code, body: Body::Error { code, message: message.to_owned() } }
}

/// The answer to a failure of an outside service tells which service failed
/// and nothing of the cause: two failures of one service get the same answer.
pub proof fn lemma_answer_hides_cause(first: ErrorView, second: ErrorView)
    requires
        first is Database <==> second is Database,
    ensures
        rejection_reply(RejectionView::Custom(first)) == rejection_reply(
            RejectionView::Custom(second),
        ),
{
}

} // verus!

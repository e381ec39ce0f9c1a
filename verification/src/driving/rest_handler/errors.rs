//! The errors that the REST interface answers with, their text and their HTTP responses.
use vstd::prelude::*;
use vstd::string::*;

use crate::text::{clone_strings, strings_view};

verus! {

/// An error answered to a REST client.
#[derive(Debug, PartialEq)]
pub enum ApiError {
    BadRequest(String),
    InternalServerError(String),
    NotFound(String),
    InvalidData(String),
    Unknown(String),
    Conflict(String),
    ValidationError(Vec<String>),
}

/// An error as mathematical values.
pub enum ApiErrorView {
    BadRequest(Seq<char>),
    InternalServerError(Seq<char>),
    NotFound(Seq<char>),
    InvalidData(Seq<char>),
    Unknown(Seq<char>),
    Conflict(Seq<char>),
    ValidationError(Seq<Seq<char>>),
}

impl View for ApiError {
    type V = ApiErrorView;

    open spec fn view(&self) -> ApiErrorView {
        match self {
            ApiError::BadRequest(m) => ApiErrorView::BadRequest(m@),
            ApiError::InternalServerError(m) => ApiErrorView::InternalServerError(m@),
            ApiError::NotFound(m) => ApiErrorView::NotFound(m@),
            ApiError::InvalidData(m) => ApiErrorView::InvalidData(m@),
            ApiError::Unknown(m) => ApiErrorView::Unknown(m@),
            ApiError::Conflict(m) => ApiErrorView::Conflict(m@),
            ApiError::ValidationError(v) => ApiErrorView::ValidationError(strings_view(v@)),
        }
    }
}

/// The text of a list of validation messages: each message followed by `", "` and a newline.
pub open spec fn validation_text(messages: Seq<Seq<char>>) -> Seq<char>
    decreases messages.len(),
{
    if messages.len() == 0 {
        Seq::empty()
    } else {
        validation_text(messages.drop_last()) + messages.last() + ", \n"@
    }
}

/// The text of an error: its message followed by `","` and a newline, or the text of its
/// validation messages.
pub open spec fn api_error_text(e: ApiErrorView) -> Seq<char> {
    match e {
        ApiErrorView::BadRequest(m) => m + ",\n"@,
        ApiErrorView::InternalServerError(m) => m + ",\n"@,
        ApiErrorView::NotFound(m) => m + ",\n"@,
        ApiErrorView::InvalidData(m) => m + ",\n"@,
        ApiErrorView::Unknown(m) => m + ",\n"@,
        ApiErrorView::Conflict(m) => m + ",\n"@,
        ApiErrorView::ValidationError(messages) => validation_text(messages),
    }
}

/// The HTTP status of the response for an error.
pub open spec fn api_error_status(e: ApiErrorView) -> u16 {
    match e {
        ApiErrorView::BadRequest(_) => 400,
        ApiErrorView::NotFound(_) => 404,
        ApiErrorView::ValidationError(_) => 422,
        ApiErrorView::InternalServerError(_) => 500,
        ApiErrorView::Conflict(_) => 409,
        ApiErrorView::InvalidData(_) => 400,
        ApiErrorView::Unknown(_) => 500,
    }
}

/// The JSON payload of an error response.
#[derive(Debug, PartialEq)]
pub enum ErrorBody {
    /// A JSON string.
    Message(String),
    /// A JSON array of strings.
    Messages(Vec<String>),
    /// No body.
    Empty,
}

/// A payload as mathematical values.
pub enum ErrorBodyView {
    Message(Seq<char>),
    Messages(Seq<Seq<char>>),
    Empty,
}

impl View for ErrorBody {
    type V = ErrorBodyView;

    open spec fn view(&self) -> ErrorBodyView {
        match self {
            ErrorBody::Message(m) => ErrorBodyView::Message(m@),
            ErrorBody::Messages(v) => ErrorBodyView::Messages(strings_view(v@)),
            ErrorBody::Empty => ErrorBodyView::Empty,
        }
    }
}

/// The payload of the response for an error: its message, its messages, or nothing for
/// an unknown error.
pub open spec fn api_error_body(e: ApiErrorView) -> ErrorBodyView {
    match e {
        ApiErrorView::BadRequest(m) => ErrorBodyView::Message(m),
        ApiErrorView::InternalServerError(m) => ErrorBodyView::Message(m),
        ApiErrorView::NotFound(m) => ErrorBodyView::Message(m),
        ApiErrorView::InvalidData(m) => ErrorBodyView::Message(m),
        ApiErrorView::Conflict(m) => ErrorBodyView::Message(m),
        ApiErrorView::ValidationError(messages) => ErrorBodyView::Messages(messages),
        ApiErrorView::Unknown(_) => ErrorBodyView::Empty,
    }
}

/// The HTTP response for an error: a status and a JSON payload.
#[derive(Debug, PartialEq)]
pub struct ErrorResponse {
    pub status: u16,
    pub body: ErrorBody,
}

fn validation_text_of(messages: &Vec<String>) -> (r: String)
    ensures
        r@ == validation_text(strings_view(messages@)),
{
    let mut text = String::new();
    let mut i: usize = 0;
    while i < messages.len()
        invariant
            i <= messages.len(),
            text@ == validation_text(strings_view(messages@).take(i as int)),
        decreases messages.len() - i,
    {
        proof {
            let taken = strings_view(messages@).take(i as int + 1);
            assert(taken.drop_last() =~= strings_view(messages@).take(i as int));
        }
        text.append(messages[i].as_str());
        text.append(", \n");
        i = i + 1;
    }
    proof {
        assert(strings_view(messages@).take(messages@.len() as int) =~= strings_view(messages@));
    }
    text
}

impl ApiError {
    /// The error's text, as its `Display` writes it.
    pub fn to_string(&self) -> (r: String)
        ensures
            r@ == api_error_text(self@),
    {
        match self {
            ApiError::BadRequest(m)
            | ApiError::InternalServerError(m)
            | ApiError::NotFound(m)
            | ApiError::InvalidData(m)
            | ApiError::Conflict(m)
            | ApiError::Unknown(m) => {
                let mut text = m.clone();
                text.append(",\n");
                text
            },
            ApiError::ValidationError(messages) => validation_text_of(messages),
        }
    }

    /// The HTTP response for the error.
    pub fn error_response(&self) -> (r: ErrorResponse)
        ensures
            r.status == api_error_status(self@),
            r.body@ == api_error_body(self@),
    {
        match self {
            ApiError::BadRequest(m) => ErrorResponse { status: 400, body: ErrorBody::Message(m.clone()) },
            ApiError::NotFound(m) => ErrorResponse { status: 404, body: ErrorBody::Message(m.clone()) },
            ApiError::ValidationError(messages) => ErrorResponse {
                status: 422,
                body: ErrorBody::Messages(clone_strings(messages)),
            },
            ApiError::InternalServerError(m) => ErrorResponse { status: 500, body: ErrorBody::Message(m.clone()) },
            ApiError::Conflict(m) => ErrorResponse { status: 409, body: ErrorBody::Message(m.clone()) },
            ApiError::InvalidData(m) => ErrorResponse { status: 400, body: ErrorBody::Message(m.clone()) },
            ApiError::Unknown(_) => ErrorResponse { status: 500, body: ErrorBody::Empty },
        }
    }
}

} // verus!

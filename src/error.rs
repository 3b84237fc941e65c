//! The library's failures and the HTTP status and text that each one maps to.
use std::num::ParseIntError;
use vstd::prelude::*;
use vstd::string::to_string_from_display_ensures;

verus! {

#[verifier::external_type_specification]
#[verifier::external_body]
pub struct ExParseIntError(ParseIntError);

/// A failure of the store or of reading the pagination parameters.
#[derive(Debug)]
pub enum CustomError {
    ParseError(ParseIntError),
    MissingParameters,
    QuestionNotFound,
}

/// A pagination window that does not fit the listing.
#[derive(Debug, Clone, Copy)]
pub struct InvalidPagination;

/// Every failure that a request can end with: the library's own, and those
/// that the web framework reports (a forbidden cross-origin request, a body
/// that does not decode, with the decoder's text, and a route that matches
/// nothing).
#[derive(Debug)]
pub enum Failure {
    Custom(CustomError),
    InvalidPagination(InvalidPagination),
    CorsForbidden,
    BodyDeserialize(String),
    RouteNotFound,
}

/// A plain-text reply with its HTTP status.
#[derive(Debug, Clone)]
pub struct TextReply {
    pub status: u16,
    pub text: String,
}

pub const OK: u16 = 200;

pub const BAD_REQUEST: u16 = 400;

pub const FORBIDDEN: u16 = 403;

pub const NOT_FOUND: u16 = 404;

pub const RANGE_NOT_SATISFIABLE: u16 = 416;

pub const UNPROCESSABLE_ENTITY: u16 = 422;

/// The HTTP status that a failure maps to.
pub open spec fn status_of(f: Failure) -> u16 {
    match f {
        Failure::Custom(CustomError::MissingParameters) => BAD_REQUEST,
        Failure::Custom(_) => RANGE_NOT_SATISFIABLE,
        Failure::InvalidPagination(_) => BAD_REQUEST,
        Failure::CorsForbidden => FORBIDDEN,
        Failure::BodyDeserialize(_) => UNPROCESSABLE_ENTITY,
        Failure::RouteNotFound => NOT_FOUND,
    }
}

/// Whether `text` is the message of a custom error. The message of a parse
/// failure is a fixed prefix followed by the parse error's own display text.
pub open spec fn custom_message(e: CustomError, text: Seq<char>) -> bool {
    match e {
        CustomError::ParseError(p) => exists|d: String|
            to_string_from_display_ensures::<ParseIntError>(&p, d) && text
                == "Cannot parse parameter: "@ + d@,
        CustomError::MissingParameters => text == "Missing paramters"@,
        CustomError::QuestionNotFound => text == "Question not found"@,
    }
}

/// Whether `text` is the reply text for a failure.
pub open spec fn failure_message(f: Failure, text: Seq<char>) -> bool {
    match f {
        Failure::Custom(e) => custom_message(e, text),
        Failure::InvalidPagination(_) => text
            == "Invalid pagination range: start cannot be greater than end or out of bounds"@,
        Failure::CorsForbidden => text == "CORS request forbidden"@,
        Failure::BodyDeserialize(m) => text == m@,
        Failure::RouteNotFound => text == "Route not found"@,
    }
}

impl CustomError {
    /// The human-readable message of this error.
    pub fn message(&self) -> (r: String)
        ensures
            custom_message(*self, r@),
    {
        match self {
            CustomError::ParseError(p) => {
                let detail = p.to_string();
                let r = "Cannot parse parameter: ".to_owned().concat(detail.as_str());
                assert(to_string_from_display_ensures::<ParseIntError>(p, detail));
                r
            },
            CustomError::MissingParameters => "Missing paramters".to_owned(),
            CustomError::QuestionNotFound => "Question not found".to_owned(),
        }
    }
}

/// Turns a failure into the reply that the client receives.
pub fn return_error(failure: &Failure) -> (r: TextReply)
    ensures
        r.status == status_of(*failure),
        failure_message(*failure, r.text@),
{
    match failure {
        Failure::Custom(e) => {
            let status = match e {
                CustomError::MissingParameters => BAD_REQUEST,
                _ => RANGE_NOT_SATISFIABLE,
            };
            TextReply { status, text: e.message() }
        },
        Failure::InvalidPagination(_) => TextReply {
            status: BAD_REQUEST,
            text: "Invalid pagination range: start cannot be greater than end or out of bounds".to_owned(),
        },
        Failure::CorsForbidden => TextReply {
            status: FORBIDDEN,
            text: "CORS request forbidden".to_owned(),
        },
        Failure::BodyDeserialize(m) => TextReply { status: UNPROCESSABLE_ENTITY, text: m.clone() },
        Failure::RouteNotFound => TextReply {
            status: NOT_FOUND,
            text: "Route not found".to_owned(),
        },
    }
}

} // verus!

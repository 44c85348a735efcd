//! The data model of a question-and-answer API, and its error kinds.
use vstd::prelude::*;

verus! {

/// A question.
#[derive(Clone, Debug, PartialEq, Eq)]
pub struct Question {
    /// The author of the question; "anonymous" marks an anonymous question.
    pub author: String,
    /// The recipient of the question; cannot be anonymous.
    pub recipient: String,
    /// The content of the question.
    pub content: String,
    /// The identifier of the question.
    pub id: String,
    /// When the question was asked.
    pub timestamp: u128,
}

/// A response to a question.
#[derive(Clone, Debug, PartialEq, Eq)]
pub struct QuestionResponse {
    /// The author of the response; cannot be anonymous.
    pub author: String,
    /// The question this response replies to.
    pub question: Question,
    /// The content of the response.
    pub content: String,
    /// The identifier of the response.
    pub id: String,
    /// When the response was created.
    pub timestamp: u128,
}

/// The fields a client sends to ask a question.
#[derive(Clone, Debug, PartialEq, Eq)]
pub struct QuestionCreate {
    pub recipient: String,
    pub content: String,
    pub anonymous: bool,
}

/// The fields a client sends to answer a question.
#[derive(Clone, Debug, PartialEq, Eq)]
pub struct ResponseCreate {
    pub question: String,
    pub content: String,
}

/// General API errors.
#[derive(Clone, Copy, Debug, PartialEq, Eq, Structural)]
pub enum DatabaseError {
    NotAllowed,
    ValueError,
    NotFound,
    Other,
}

impl DatabaseError {
    /// The message shown for each error.
    pub open spec fn message(&self) -> Seq<char> {
        match self {
            DatabaseError::NotAllowed => "You are not allowed to do this!"@,
            DatabaseError::ValueError => "One of the field values given is invalid!"@,
            DatabaseError::NotFound => "Nothing with this ID could be found!"@,
            DatabaseError::Other => "An unspecified error has occured"@,
        }
    }

    /// The HTTP status each error is answered with.
    pub open spec fn spec_status_code(&self) -> u16 {
        match self {
            DatabaseError::NotAllowed => 401,
            DatabaseError::NotFound => 404,
            _ => 500,
        }
    }

    /// The message of this error.
    pub fn to_string(&self) -> (r: String)
        ensures
            r@ == self.message(),
    {
        match self {
            DatabaseError::NotAllowed => "You are not allowed to do this!".to_owned(),
            DatabaseError::ValueError => "One of the field values given is invalid!".to_owned(),
            DatabaseError::NotFound => "Nothing with this ID could be found!".to_owned(),
            DatabaseError::Other => "An unspecified error has occured".to_owned(),
        }
    }

    /// The HTTP status of this error: 401 when not allowed, 404 when nothing
    /// was found, 500 otherwise.
    pub fn status_code(&self) -> (r: u16)
        ensures
            r == self.spec_status_code(),
    {
        match self {
            DatabaseError::NotAllowed => 401,
            DatabaseError::NotFound => 404,
            _ => 500,
        }
    }
}

} // verus!

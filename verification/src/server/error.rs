//! API errors and the HTTP status and message each one is answered with.
use vstd::prelude::*;
use crate::db::RepoError;
use crate::domain::persona::CardImportError;
use crate::llm::ollama::OllamaError;

verus! {

/// An error answered by the HTTP API.
#[derive(Debug)]
pub enum ApiError {
    BadRequest(String),
    UnprocessableEntity(String),
    Conflict(String),
    NotFound,
    Internal,
    ServiceUnavailable,
    BadGateway,
}

/// The HTTP status code of each error.
pub open spec fn status_of(e: ApiError) -> u16 {
    match e {
        ApiError::BadRequest(_) => 400,
        ApiError::UnprocessableEntity(_) => 422,
        ApiError::Conflict(_) => 409,
        ApiError::NotFound => 404,
        ApiError::Internal => 500,
        ApiError::ServiceUnavailable => 503,
        ApiError::BadGateway => 502,
    }
}

/// The text of the `error` member of each error's JSON body.
pub open spec fn message_of(e: ApiError) -> Seq<char> {
    match e {
        ApiError::BadRequest(m) => m@,
        ApiError::UnprocessableEntity(m) => m@,
        ApiError::Conflict(m) => m@,
        ApiError::NotFound => "not found"@,
        ApiError::Internal => "internal server error"@,
        ApiError::ServiceUnavailable => "service unavailable"@,
        ApiError::BadGateway => "bad gateway"@,
    }
}

/// The conflict message of a duplicate persona name.
pub open spec fn duplicate_name_message() -> Seq<char> {
    "a persona with this name already exists"@
}

impl ApiError {
    /// The HTTP status and the `error` message of the response to this error.
    pub fn status_and_message(self) -> (r: (u16, String))
        ensures
            r.0 == status_of(self),
            r.1@ == message_of(self),
    {
        match self {
            ApiError::BadRequest(m) => (400, m),
            ApiError::UnprocessableEntity(m) => (422, m),
            ApiError::Conflict(m) => (409, m),
            ApiError::NotFound => (404, "not found".to_owned()),
            ApiError::Internal => (500, "internal server error".to_owned()),
            ApiError::ServiceUnavailable => (503, "service unavailable".to_owned()),
            ApiError::BadGateway => (502, "bad gateway".to_owned()),
        }
    }

    /// A failed persona write: a duplicate name is a conflict, anything else internal.
    pub fn from_repo_error(e: RepoError) -> (r: ApiError)
        ensures
            match e {
                RepoError::Duplicate => r matches ApiError::Conflict(m) && m@ == duplicate_name_message(),
                RepoError::Db(_) => r is Internal,
            },
    {
        match e {
            RepoError::Duplicate => ApiError::Conflict("a persona with this name already exists".to_owned()),
            RepoError::Db(_) => ApiError::Internal,
        }
    }

    /// A refused card import: a wrong spec is unprocessable (`invalid spec: ` and the
    /// spec), a serialization failure internal.
    pub fn from_card_import_error(e: CardImportError) -> (r: ApiError)
        ensures
            match e {
                CardImportError::InvalidSpec(s) => r matches ApiError::UnprocessableEntity(m) && m@ == "invalid spec: "@ + s@,
                CardImportError::Serialization(_) => r is Internal,
            },
    {
        match e {
            CardImportError::InvalidSpec(s) => ApiError::UnprocessableEntity(crate::text::concat2("invalid spec: ", s.as_str())),
            CardImportError::Serialization(_) => ApiError::Internal,
        }
    }

    /// A failed Ollama completion: a network failure makes the service unavailable, a
    /// model error is a bad gateway, a parse failure internal.
    pub fn from_ollama_error(e: &OllamaError) -> (r: ApiError)
        ensures
            match e {
                OllamaError::Network(_) => r is ServiceUnavailable,
                OllamaError::Model(_) => r is BadGateway,
                OllamaError::Parse(_) => r is Internal,
            },
    {
        match e {
            OllamaError::Network(_) => ApiError::ServiceUnavailable,
            OllamaError::Model(_) => ApiError::BadGateway,
            OllamaError::Parse(_) => ApiError::Internal,
        }
    }
}

} // verus!

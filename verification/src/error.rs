//! The errors that the API reports to clients, and their HTTP status codes.
use vstd::prelude::*;

verus! {

/// A value that maps to an HTTP status code.
pub trait Status {
    /// The status code of this value.
    spec fn status_code(&self) -> u16;

    /// The status code of this value.
    fn get_status(&self) -> (code: u16)
        ensures
            code == self.status_code(),
    ;
}

/// An error reported to a client.
#[derive(Clone, Debug, PartialEq, Eq)]
pub enum ApiResponseError {
    AuthError { content: String },
    PokemonError { content: String },
    NotFound,
}

/// Turns a missing value into an authentication error with a fixed message.
#[derive(Clone, Debug, PartialEq, Eq)]
pub struct AuthContainer(pub String);

impl Status for ApiResponseError {
    /// Authentication and vote errors are client errors (400); a missing
    /// resource is 404.
    open spec fn status_code(&self) -> u16 {
        match self {
            ApiResponseError::AuthError { .. } => 400,
            ApiResponseError::PokemonError { .. } => 400,
            ApiResponseError::NotFound => 404,
        }
    }

    fn get_status(&self) -> (code: u16) {
        match self {
            ApiResponseError::AuthError { .. } => 400,
            ApiResponseError::PokemonError { .. } => 400,
            ApiResponseError::NotFound => 404,
        }
    }
}

impl ApiResponseError {
    /// An authentication error with the given message.
    pub fn new_auth(content: String) -> (r: ApiResponseError)
        ensures
            r == (ApiResponseError::AuthError { content }),
    {
        ApiResponseError::AuthError { content }
    }

    /// An authentication error carrying the text of an underlying error.
    pub fn into_auth(message: String) -> (r: ApiResponseError)
        ensures
            r == (ApiResponseError::AuthError { content: message }),
    {
        ApiResponseError::AuthError { content: message }
    }

    /// A vote error carrying the text of an underlying error.
    pub fn into_pokemon(message: String) -> (r: ApiResponseError)
        ensures
            r == (ApiResponseError::PokemonError { content: message }),
    {
        ApiResponseError::PokemonError { content: message }
    }

    /// A converter that reports a missing value as an authentication error
    /// with message `s`.
    pub fn auth_result_builder(s: String) -> (r: AuthContainer)
        ensures
            r == AuthContainer(s),
    {
        AuthContainer(s)
    }
}

impl AuthContainer {
    /// The value when there is one, else an authentication error with this
    /// container's message.
    pub fn call_once<T>(self, args: Option<T>) -> (r: Result<T, ApiResponseError>)
        ensures
            r == match args {
                Some(v) => Ok(v),
                None => Err(ApiResponseError::AuthError { content: self.0 }),
            },
    {
        match args {
            Some(v) => Ok(v),
            None => Err(ApiResponseError::AuthError { content: self.0 }),
        }
    }
}

} // verus!

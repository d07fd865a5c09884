//! The envelope of every API response: data or an error, with an optional
//! session token, and the HTTP status it is sent with.
use vstd::prelude::*;
use crate::error::{ApiResponseError, Status};
use crate::token::{renewal, Token};
use crate::time::{is_clock_reading, utc_now, Instant};

verus! {

/// A response: data, or an error; each with the session token to hand back.
#[derive(Clone, Debug, PartialEq, Eq)]
pub enum ApiResult<D, E: Status = ApiResponseError> {
    Success { token: Option<Token>, data: D },
    Failure { token: Option<Token>, error: E },
}

/// The status codes that the HTTP layer has a name for.
pub open spec fn is_known_http_code(code: u16) -> bool {
    ||| 100 <= code <= 102
    ||| 200 <= code <= 208
    ||| code == 226
    ||| 300 <= code <= 305
    ||| code == 307
    ||| code == 308
    ||| 400 <= code <= 418
    ||| 421 <= code <= 424
    ||| code == 426
    ||| code == 428
    ||| code == 429
    ||| code == 431
    ||| code == 451
    ||| 500 <= code <= 508
    ||| code == 510
    ||| code == 511
}

/// `rocket::http::Status::from_code(code).is_some()`: whether the HTTP layer
/// knows the status code; it knows exactly the codes of its list.
#[verifier::external_body]
fn http_code_known(code: u16) -> (known: bool)
    ensures
        known == is_known_http_code(code),
{
    rocket::http::Status::from_code(code).is_some()
}

impl<D, E: Status> ApiResult<D, E> {
    /// The status code of this response: 200 for data, the error's own code
    /// for an error.
    pub open spec fn status_spec(&self) -> u16 {
        match self {
            ApiResult::Success { .. } => 200,
            ApiResult::Failure { error, .. } => error.status_code(),
        }
    }

    /// The token this response carries.
    pub open spec fn token_spec(&self) -> Option<Token> {
        match self {
            ApiResult::Success { token, .. } => *token,
            ApiResult::Failure { token, .. } => *token,
        }
    }

    /// This response with its token replaced by `t`.
    pub open spec fn with_token(self, t: Option<Token>) -> Self {
        match self {
            ApiResult::Success { data, .. } => ApiResult::Success { token: t, data },
            ApiResult::Failure { error, .. } => ApiResult::Failure { token: t, error },
        }
    }

    /// A data response.
    pub fn new(data: D, token: Option<Token>) -> (r: Self)
        ensures
            r == (ApiResult::<D, E>::Success { token, data }),
    {
        ApiResult::Success { token, data }
    }

    /// An error response.
    pub fn new_err(error: E, token: Option<Token>) -> (r: Self)
        ensures
            r == (ApiResult::<D, E>::Failure { token, error }),
    {
        ApiResult::Failure { token, error }
    }

    /// The status code of this response.
    pub fn status(&self) -> (code: u16)
        ensures
            code == self.status_spec(),
    {
        match self {
            ApiResult::Success { .. } => 200,
            ApiResult::Failure { error, .. } => error.get_status(),
        }
    }

    /// The token this response carries.
    pub fn get_token(&self) -> (r: &Option<Token>)
        ensures
            *r == self.token_spec(),
    {
        match self {
            ApiResult::Success { token, .. } => token,
            ApiResult::Failure { token, .. } => token,
        }
    }

    /// Replaces the token this response carries.
    pub fn set_token(&mut self, t: Option<Token>)
        ensures
            *final(self) == old(self).with_token(t),
    {
        match self {
            ApiResult::Success { token, .. } => {
                *token = t;
            },
            ApiResult::Failure { token, .. } => {
                *token = t;
            },
        }
    }

    /// The response for a computed result: its data, or its error, with no
    /// token.
    pub fn from_result(x: Result<D, E>) -> (r: Self)
        ensures
            r == match x {
                Ok(data) => ApiResult::<D, E>::Success { token: None, data },
                Err(error) => ApiResult::<D, E>::Failure { token: None, error },
            },
    {
        match x {
            Ok(data) => ApiResult::new(data, None),
            Err(error) => ApiResult::new_err(error, None),
        }
    }

    /// The response for an early exit on `error`: that error, with no token.
    pub fn from_residual(error: E) -> (r: Self)
        ensures
            r == (ApiResult::<D, E>::Failure { token: None, error }),
    {
        ApiResult::Failure { token: None, error }
    }

    /// Before sending at `now`: a response that carries no token gets the
    /// request's token renewed when that is due at `now` (else still none); a
    /// response that carries a token keeps it.
    pub open spec fn with_request_token(self, request_token: Option<Token>, now: Instant) -> Self {
        match self.token_spec() {
            Some(_) => self,
            None => self.with_token(
                match request_token {
                    Some(t) => renewal(t, now),
                    None => None,
                },
            ),
        }
    }

    /// Before sending at `now`: a response that carries no token gets the
    /// request's token renewed when that is due at `now` (else still none); a
    /// response that carries a token keeps it.
    pub fn attach_request_token_at(&mut self, request_token: Option<Token>, now: Instant)
        requires
            request_token matches Some(t) ==> t.exp.wf(),
            now.wf(),
        ensures
            *final(self) == old(self).with_request_token(request_token, now),
    {
        if self.get_token().is_none() {
            let renewed = match request_token {
                Some(t) => t.renew_at(now),
                None => None,
            };
            self.set_token(renewed);
        }
    }

    /// Before sending: as [`ApiResult::attach_request_token_at`], at one
    /// reading of the system clock.
    pub fn attach_request_token(&mut self, request_token: Option<Token>)
        requires
            request_token matches Some(t) ==> t.exp.wf(),
        ensures
            exists|now: Instant|
                #![trigger old(self).with_request_token(request_token, now)]
                is_clock_reading(now) && now.wf() && now.secs >= 0 && *final(self) == old(self).with_request_token(
                    request_token,
                    now,
                ),
    {
        let now = utc_now();
        self.attach_request_token_at(request_token, now);
    }

    /// The HTTP status to send this response with: its status code when the
    /// HTTP layer knows it, else `None` (the response cannot be sent as is).
    pub fn http_status(&self) -> (r: Option<u16>)
        ensures
            r == if is_known_http_code(self.status_spec()) {
                Some(self.status_spec())
            } else {
                None
            },
    {
        let code = self.status();
        if http_code_known(code) {
            Some(code)
        } else {
            None
        }
    }
}

/// Before sending at `now`, a response without a token whose request
/// carried a token that expired more than seven days before `now` gets a
/// token for the same user that expires three days after `now`; one whose
/// request token is not yet due still carries none; a response that
/// already has a token keeps it.
pub proof fn lemma_attach_renews_due_token<D, E: Status>(resp: ApiResult<D, E>, t: Token, now: Instant)
    requires
        now.wf(),
        now.secs + 259_200 <= crate::time::MAX_TIMESTAMP,
    ensures
        resp.token_spec() is Some ==> resp.with_request_token(Some(t), now) == resp,
        resp.token_spec() is None ==> {
            let sent = resp.with_request_token(Some(t), now);
            &&& (now.total_nanos() - t.exp.total_nanos() > 604_800_000_000_000) ==> (
            sent.token_spec() matches Some(n) && n.user == t.user && n.exp.total_nanos()
                == now.total_nanos() + 259_200_000_000_000)
            &&& !(now.total_nanos() - t.exp.total_nanos() > 604_800_000_000_000)
                ==> sent.token_spec() is None
        },
{
    crate::token::lemma_renewal_at(t, now);
}

/// Every response with data, or with one of the API's own errors, can be
/// sent with its status code: 200, 400 or 404.
pub proof fn lemma_api_statuses_known<D>(r: ApiResult<D, ApiResponseError>)
    ensures
        is_known_http_code(r.status_spec()),
        r.status_spec() == match r {
            ApiResult::Success { .. } => 200u16,
            ApiResult::Failure { error, .. } => match error {
                ApiResponseError::NotFound => 404u16,
                _ => 400u16,
            },
        },
{
}

} // verus!

//! The responses of the API's routes, given what the store answered.
use vstd::prelude::*;
use crate::api::ApiResult;
use crate::error::ApiResponseError;
use crate::pokemon::Pokemon;
use crate::sop::SmashOrPass;
use crate::text::string_of;
use crate::token::{issue_outcome, Token};
use crate::time::{is_clock_reading, utc_now, Instant};
use crate::user::{PasswordHashError, PublicUser, User};

verus! {

/// The answer to a sign-up at `now`, once the account was created: when
/// storing it failed, an authentication error with the store's message and
/// no token; else the account's public view with the token issued to it at
/// `now`.
pub open spec fn sign_up_answer(user: User, saved: Result<(), String>, now: Instant) -> ApiResult<
    PublicUser,
> {
    match saved {
        Err(m) => ApiResult::Failure {
            token: None,
            error: ApiResponseError::AuthError { content: m },
        },
        Ok(_) => ApiResult::Success {
            token: issue_outcome(PublicUser::of(user), now),
            data: PublicUser::of(user),
        },
    }
}

/// `r` is the answer to a sign-in at `now`, given the lookup of the account
/// by name and password: a lookup failure is an authentication error with
/// its message; no matching account is an authentication error with an
/// empty message; a matching account gets its public view and the token
/// issued to it at `now`. None of these carries the request's token.
pub open spec fn is_sign_in_answer(
    lookup: Result<Option<User>, String>,
    now: Instant,
    r: ApiResult<PublicUser>,
) -> bool {
    match lookup {
        Err(m) => r == (ApiResult::<PublicUser>::Failure {
            token: None,
            error: ApiResponseError::AuthError { content: m },
        }),
        Ok(None) => r matches ApiResult::Failure {
            token: None,
            error: ApiResponseError::AuthError { content },
        } && content@.len() == 0,
        Ok(Some(u)) => r == (ApiResult::<PublicUser>::Success {
            token: issue_outcome(PublicUser::of(u), now),
            data: PublicUser::of(u),
        }),
    }
}

/// The answer to a sign-up whose password could not be hashed: an
/// authentication error with the hasher's message, and no token.
pub fn sign_up_hashing_failed(e: PasswordHashError) -> (r: ApiResult<PublicUser>)
    ensures
        r == (ApiResult::<PublicUser>::Failure {
            token: None,
            error: ApiResponseError::AuthError { content: e.message },
        }),
{
    ApiResult::from_residual(ApiResponseError::into_auth(e.message))
}

/// The answer to a sign-up at `now` whose account was created; see
/// [`sign_up_answer`].
pub fn sign_up_response_at(user: User, saved: Result<(), String>, now: Instant) -> (r: ApiResult<
    PublicUser,
>)
    requires
        now.wf(),
    ensures
        r == sign_up_answer(user, saved, now),
{
    match saved {
        Err(m) => ApiResult::from_residual(ApiResponseError::into_auth(m)),
        Ok(()) => {
            let public = PublicUser::from(user);
            let token = Token::issue(public.duplicate(), now);
            ApiResult::new(public, token)
        },
    }
}

/// The answer to a sign-up whose account was created, at one reading of
/// the system clock; see [`sign_up_answer`].
pub fn sign_up_response(user: User, saved: Result<(), String>) -> (r: ApiResult<PublicUser>)
    ensures
        exists|now: Instant|
            #![trigger sign_up_answer(user, saved, now)]
            is_clock_reading(now) && now.wf() && now.secs >= 0 && r == sign_up_answer(user, saved, now),
{
    let now = utc_now();
    sign_up_response_at(user, saved, now)
}

/// The answer to a sign-in at `now`; see [`is_sign_in_answer`].
pub fn sign_in_response_at(lookup: Result<Option<User>, String>, now: Instant) -> (r: ApiResult<
    PublicUser,
>)
    requires
        now.wf(),
    ensures
        is_sign_in_answer(lookup, now, r),
{
    let found = match lookup {
        Err(m) => {
            return ApiResult::from_residual(ApiResponseError::into_auth(m));
        },
        Ok(found) => found,
    };
    let user = match ApiResponseError::auth_result_builder(String::new()).call_once(found) {
        Err(e) => {
            return ApiResult::from_residual(e);
        },
        Ok(user) => user,
    };
    let public = PublicUser::from(user);
    let token = Token::issue(public.duplicate(), now);
    ApiResult::new(public, token)
}

/// The answer to a sign-in, at one reading of the system clock; see
/// [`is_sign_in_answer`].
pub fn sign_in_response(lookup: Result<Option<User>, String>) -> (r: ApiResult<PublicUser>)
    ensures
        exists|now: Instant|
            #![trigger is_sign_in_answer(lookup, now, r)]
            is_clock_reading(now) && now.wf() && now.secs >= 0 && is_sign_in_answer(lookup, now, r),
{
    let now = utc_now();
    sign_in_response_at(lookup, now)
}

/// A sign-in at `now` that found an account whose password matched
/// answers with that account's public view and a token for it that expires
/// three days after `now` (whenever a token can be issued at `now`).
pub proof fn lemma_sign_in_token_expires_three_days_later(
    u: User,
    now: Instant,
    r: ApiResult<PublicUser>,
)
    requires
        now.wf(),
        now.secs + 259_200 <= crate::time::MAX_TIMESTAMP,
        is_sign_in_answer(Ok(Some(u)), now, r),
    ensures
        r matches ApiResult::Success { token: Some(t), data } && {
            &&& data == PublicUser::of(u)
            &&& t.user == data
            &&& t.exp.total_nanos() == now.total_nanos() + 259_200_000_000_000
        },
{
    crate::token::lemma_issue_expires_three_days_later(PublicUser::of(u), now);
}

/// Whatever answer a sign-in that found an account gives by one reading of
/// the system clock, its token expires three days after that reading
/// (whenever a token can be issued then).
pub proof fn lemma_sign_in_token_follows_clock(u: User, r: ApiResult<PublicUser>)
    requires
        exists|now: Instant| #[trigger] is_clock_reading(now) && is_sign_in_answer(Ok(Some(u)), now, r),
    ensures
        exists|now: Instant|
            #[trigger] is_clock_reading(now) && (now.secs + 259_200 <= crate::time::MAX_TIMESTAMP
                ==> (r matches ApiResult::Success { token: Some(t), data } && t.user == data
                && t.exp.total_nanos() == now.total_nanos() + 259_200_000_000_000)),
{
    let now = choose|now: Instant| #[trigger] is_clock_reading(now) && is_sign_in_answer(Ok(Some(u)), now, r);
    crate::time::lemma_clock_reading_wf(now);
    if now.secs + 259_200 <= crate::time::MAX_TIMESTAMP {
        lemma_sign_in_token_expires_three_days_later(u, now, r);
    }
}

/// The answer when a vote could not be counted: a vote error with the
/// store's message, and no token.
pub fn vote_failure(message: String) -> (r: ApiResult<Option<Pokemon>>)
    ensures
        r == (ApiResult::<Option<Pokemon>>::Failure {
            token: None,
            error: ApiResponseError::PokemonError { content: message },
        }),
{
    ApiResult::from_residual(ApiResponseError::into_pokemon(message))
}

/// The answer to a vote that was counted, given the Pokémon's tallies as
/// the store holds them after the vote (`None` when the store holds no such
/// Pokémon) and the outcome of storing the vote: when storing failed, a vote
/// error with the store's message and no token; else the tallies, with the
/// request's token.
pub fn submit_sop_response(tallies: Option<Pokemon>, saved: Result<(), String>, token: Token) -> (r:
    ApiResult<Option<Pokemon>>)
    ensures
        r == match saved {
            Err(m) => ApiResult::<Option<Pokemon>>::Failure {
                token: None,
                error: ApiResponseError::PokemonError { content: m },
            },
            Ok(_) => ApiResult::<Option<Pokemon>>::Success { token: Some(token), data: tallies },
        },
{
    match saved {
        Err(m) => ApiResult::from_residual(ApiResponseError::into_pokemon(m)),
        Ok(()) => ApiResult::new(tallies, Some(token)),
    }
}

/// The answer to a request for the user's vote on a Pokémon: a lookup
/// failure is a vote error with its message and no token; else the vote
/// found (if any), with the request's token.
pub fn sop_result_response(lookup: Result<Option<SmashOrPass>, String>, token: Token) -> (r:
    ApiResult<Option<SmashOrPass>>)
    ensures
        r == match lookup {
            Err(m) => ApiResult::<Option<SmashOrPass>>::Failure {
                token: None,
                error: ApiResponseError::PokemonError { content: m },
            },
            Ok(found) => ApiResult::<Option<SmashOrPass>>::Success {
                token: Some(token),
                data: found,
            },
        },
{
    match lookup {
        Err(m) => ApiResult::from_residual(ApiResponseError::into_pokemon(m)),
        Ok(found) => ApiResult::new(found, Some(token)),
    }
}

/// The answer to a request for a vote without a session: an authentication
/// error "Unauthenticated", with no token.
pub fn unauthenticated_response() -> (r: ApiResult<()>)
    ensures
        (r matches ApiResult::Failure { token: None, error: ApiResponseError::AuthError { content } }
            && content@ == "Unauthenticated"@),
{
    ApiResult::new_err(ApiResponseError::new_auth(string_of("Unauthenticated")), None)
}

/// The answer to any request that no route serves: "not found", with no
/// token.
pub fn not_found_response() -> (r: ApiResult<()>)
    ensures
        r == (ApiResult::<()>::Failure { token: None, error: ApiResponseError::NotFound }),
{
    ApiResult::new_err(ApiResponseError::NotFound, None)
}

} // verus!

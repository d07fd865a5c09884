use pksmash::api::ApiResult;
use pksmash::error::ApiResponseError;
use pksmash::ids::ObjectId;
use pksmash::pokemon::Pokemon;
use pksmash::routes::{
    not_found_response, sign_in_response, sign_in_response_at, sign_up_hashing_failed,
    sign_up_response, sign_up_response_at, sop_result_response, submit_sop_response,
    unauthenticated_response, vote_failure,
};
use pksmash::user::{HashFailure, PasswordHashError};
use pksmash::sop::SmashOrPass;
use pksmash::time::Instant;
use pksmash::token::Token;
use pksmash::user::{PublicUser, User};

fn user() -> User {
    User {
        object_id: ObjectId { bytes: [7; 12] },
        username: "ash".to_string(),
        displayname: "Ash".to_string(),
        created_at: 1_600_000_000,
        password_hash: "h".to_string(),
    }
}

fn public() -> PublicUser {
    PublicUser::from(user())
}

fn session() -> Token {
    Token { exp: Instant { secs: 99, nanos: 0 }, user: public() }
}

fn vote() -> SmashOrPass {
    SmashOrPass { object_id: ObjectId { bytes: [1; 12] }, user_id: public().object_id, pokemon_id: 4, smash: true }
}

#[test]
fn sign_up_answers() {
    assert_eq!(
        sign_up_response(user(), Err("dup key".to_string())),
        ApiResult::Failure { token: None, error: ApiResponseError::AuthError { content: "dup key".to_string() } }
    );
    match sign_up_response(user(), Ok(())) {
        ApiResult::Success { token: Some(t), data } => {
            assert_eq!(data, public());
            assert_eq!(t.user, public());
            assert!(t.exp.secs > 259_200);
        }
        other => panic!("unexpected {other:?}"),
    }
}

#[test]
fn sign_up_answers_at_a_time() {
    let now = Instant { secs: 1_000, nanos: 3 };
    assert_eq!(
        sign_up_response_at(user(), Ok(()), now),
        ApiResult::Success { token: Some(Token::new_at(public(), now)), data: public() }
    );
    let late = Instant { secs: 8_210_266_876_799, nanos: 0 };
    assert_eq!(sign_up_response_at(user(), Ok(()), late), ApiResult::Success { token: None, data: public() });
    assert_eq!(
        sign_up_hashing_failed(PasswordHashError { kind: HashFailure::RandomSource, message: "no entropy".to_string() }),
        ApiResult::Failure { token: None, error: ApiResponseError::AuthError { content: "no entropy".to_string() } }
    );
}

#[test]
fn sign_in_answers_at_a_time() {
    let now = Instant { secs: 5_000, nanos: 0 };
    assert_eq!(
        sign_in_response_at(Ok(Some(user())), now),
        ApiResult::Success { token: Some(Token::new_at(public(), now)), data: public() }
    );
    assert_eq!(
        sign_in_response_at(Ok(None), now),
        ApiResult::Failure { token: None, error: ApiResponseError::AuthError { content: String::new() } }
    );
}

#[test]
fn sign_in_answers() {
    assert_eq!(
        sign_in_response(Err("db".to_string())),
        ApiResult::Failure { token: None, error: ApiResponseError::AuthError { content: "db".to_string() } }
    );
    assert_eq!(
        sign_in_response(Ok(None)),
        ApiResult::Failure { token: None, error: ApiResponseError::AuthError { content: String::new() } }
    );
    match sign_in_response(Ok(Some(user()))) {
        ApiResult::Success { token: Some(t), data } => {
            assert_eq!(data, public());
            assert_eq!(t.user, public());
        }
        other => panic!("unexpected {other:?}"),
    }
}

#[test]
fn vote_answers() {
    let tallies = Pokemon { object_id: 4, totalsmash: 3, totalpass: 1, views: 0 };
    assert_eq!(
        vote_failure("down".to_string()),
        ApiResult::Failure { token: None, error: ApiResponseError::PokemonError { content: "down".to_string() } }
    );
    assert_eq!(
        submit_sop_response(Some(tallies), Err("w".to_string()), session()),
        ApiResult::Failure { token: None, error: ApiResponseError::PokemonError { content: "w".to_string() } }
    );
    assert_eq!(
        submit_sop_response(Some(tallies), Ok(()), session()),
        ApiResult::Success { token: Some(session()), data: Some(tallies) }
    );
    let unknown = submit_sop_response(None, Ok(()), session());
    assert_eq!(unknown, ApiResult::Success { token: Some(session()), data: None });
    assert_eq!(unknown.status(), 200);
    assert_eq!(
        sop_result_response(Ok(Some(vote())), session()),
        ApiResult::Success { token: Some(session()), data: Some(vote()) }
    );
    assert_eq!(
        sop_result_response(Ok(None), session()),
        ApiResult::Success { token: Some(session()), data: None }
    );
    assert_eq!(
        sop_result_response(Err("r".to_string()), session()),
        ApiResult::Failure { token: None, error: ApiResponseError::PokemonError { content: "r".to_string() } }
    );
}

#[test]
fn fallback_answers() {
    let u = unauthenticated_response();
    assert_eq!(
        u,
        ApiResult::Failure { token: None, error: ApiResponseError::AuthError { content: "Unauthenticated".to_string() } }
    );
    assert_eq!(u.status(), 400);
    let n = not_found_response();
    assert_eq!(n, ApiResult::Failure { token: None, error: ApiResponseError::NotFound });
    assert_eq!(n.status(), 404);
}

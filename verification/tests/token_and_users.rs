use pksmash::db::{ensure_index_step, index_name_matches, IndexScanAction, IndexScanEvent, IndexSpec};
use pksmash::ids::ObjectId;
use pksmash::pokemon::{Counter, CounterIncrement, Pokemon};
use pksmash::sop::SmashOrPass;
use pksmash::time::Instant;
use pksmash::token::{serialize, Token, TokenError};
use pksmash::user::{account_from_hash, HashFailure, PasswordHashError, PublicUser, User};

fn oid(last: u8) -> ObjectId {
    ObjectId { bytes: [0x65, 0x0f, 0, 0, 0, 0, 0, 0, 0, 0, 0xab, last] }
}

fn public(name: &str) -> PublicUser {
    PublicUser { object_id: oid(1), username: name.to_string(), displayname: name.to_string(), created_at: 1_650_000_000 }
}

fn token_at(secs: i64, user: PublicUser) -> Token {
    Token { exp: Instant { secs, nanos: 0 }, user }
}

#[test]
fn object_id_hex() {
    assert_eq!(oid(0x3c).to_hex(), "650f0000000000000000ab3c");
}

#[test]
fn get_secret_is_secret() {
    assert_eq!(Token::get_secret(), b"secret");
}

#[test]
fn claims_json_layout() {
    let t = Token {
        exp: Instant { secs: 1_700_000_000, nanos: 5 },
        user: PublicUser {
            object_id: oid(2),
            username: "mi\"sty".to_string(),
            displayname: "Misty\n".to_string(),
            created_at: -7,
        },
    };
    assert_eq!(
        t.claims_json(),
        "{\"exp\":1700000000,\"id\":{\"$oid\":\"650f0000000000000000ab02\"},\"username\":\"mi\\\"sty\",\"displayname\":\"Misty\\n\",\"createdAt\":-7}"
    );
    let v: serde_json::Value = serde_json::from_str(&t.claims_json()).unwrap();
    assert_eq!(v["exp"], 1_700_000_000i64);
    assert_eq!(v["username"], "mi\"sty");
    assert_eq!(v["id"]["$oid"], "650f0000000000000000ab02");
    assert_eq!(v["createdAt"], -7);
}

#[test]
fn new_at_expires_three_days_later() {
    let now = Instant { secs: 1_000, nanos: 7 };
    let t = Token::new_at(public("ash"), now);
    assert_eq!(t.exp, Instant { secs: 260_200, nanos: 7 });
    assert_eq!(t.user, public("ash"));
}

#[test]
fn new_uses_the_clock() {
    let t = Token::new(public("ash")).expect("the clock is far from year 262142");
    assert_eq!(t.user, public("ash"));
    assert!(t.exp.secs > 1_600_000_000 + 259_200);
    assert!(t.exp.nanos < 1_000_000_000);
}

#[test]
fn renewal_is_due_seven_days_after_expiry() {
    let t = token_at(1_000_000, public("ash"));
    let seven_days = Instant { secs: 1_000_000 + 604_800, nanos: 0 };
    assert!(!t.should_renew_at(seven_days));
    assert!(t.should_renew_at(Instant { secs: 1_000_000 + 604_800, nanos: 1 }));
    assert!(!t.should_renew_at(Instant { secs: 0, nanos: 0 }));
    assert_eq!(t.clone().renew_at(seven_days), None);
    let later = Instant { secs: 1_000_000 + 604_801, nanos: 0 };
    assert_eq!(t.renew_at(later), Some(Token::new_at(public("ash"), later)));
    let very_late = Instant { secs: 8_210_266_876_799, nanos: 0 };
    assert_eq!(token_at(0, public("ash")).renew_at(very_late), None);
    assert_eq!(Token::issue(public("ash"), later), Some(Token::new_at(public("ash"), later)));
    assert_eq!(Token::issue(public("ash"), very_late), None);
}

#[test]
fn fresh_tokens_are_due_after_ten_days() {
    let issued = Instant { secs: 50_000, nanos: 500 };
    let t = Token::new_at(public("ash"), issued);
    assert!(!t.should_renew_at(Instant { secs: 50_000 + 864_000, nanos: 500 }));
    assert!(t.should_renew_at(Instant { secs: 50_000 + 864_000, nanos: 501 }));
}

#[test]
fn clock_renewal() {
    assert!(token_at(0, public("a")).should_renew());
    assert!(!token_at(4_000_000_000, public("a")).should_renew());
    assert_eq!(token_at(4_000_000_000, public("a")).renew(), None);
    let r = token_at(0, public("a")).renew().expect("expired in 1970");
    assert_eq!(r.user, public("a"));
}

#[test]
fn encode_then_decode_gives_the_claims() {
    let t = Token::new(public("brock")).unwrap();
    let claims = t.claims_json();
    let jwt = t.clone().encode().expect("claims are JSON");
    assert_ne!(jwt, claims);
    assert_eq!(jwt.split('.').count(), 3);
    assert!(jwt.starts_with("eyJ"));
    assert_eq!(Token::decode(jwt.clone()).expect("fresh token"), claims);
    let header = format!("Basic {jwt}");
    let credentials = Token::authorization_credentials(Some(&header)).unwrap();
    assert_eq!(Token::decode(credentials).unwrap(), claims);
}

#[test]
fn decode_refuses_bad_tokens() {
    assert_eq!(Token::decode("not a token".to_string()), Err(TokenError::Decoding));
    // Expired long ago.
    let old = token_at(1_000, public("gary")).encode().unwrap();
    assert_eq!(Token::decode(old), Err(TokenError::Decoding));
    // Tampered signature.
    let mut jwt = Token::new(public("gary")).unwrap().encode().unwrap();
    let last = jwt.pop().unwrap();
    jwt.push(if last == 'A' { 'B' } else { 'A' });
    assert_eq!(Token::decode(jwt), Err(TokenError::Decoding));
}

#[test]
fn serialize_token_field() {
    assert_eq!(serialize(&None), None);
    let t = token_at(123, public("ash"));
    assert_eq!(serialize(&Some(t.clone())), Some(t.clone().encode().unwrap()));
    assert_eq!(serialize(&Some(t.clone())), Some(t.encode().unwrap()));
}

#[test]
fn authorization_credentials_cases() {
    assert_eq!(Token::authorization_credentials(None), None);
    assert_eq!(Token::authorization_credentials(Some("Bearer abc")), None);
    assert_eq!(Token::authorization_credentials(Some("basic abc")), None);
    assert_eq!(Token::authorization_credentials(Some("Basic abc.def")), Some("abc.def".to_string()));
    assert_eq!(Token::authorization_credentials(Some("Basic aBasic b")), Some("ab".to_string()));
    assert_eq!(Token::authorization_credentials(Some("Basic ")), Some(String::new()));
}

#[test]
fn credentials_roundtrip() {
    let jwt = Token::new(public("ash")).unwrap().encode().unwrap();
    let header = format!("Basic {jwt}");
    assert_eq!(Token::authorization_credentials(Some(&header)), Some(jwt));
}

#[test]
fn new_user_accepts_its_password() {
    let u = User::new("ash".to_string(), "Ash".to_string(), "pikachu").expect("hashing works");
    assert_eq!(u.username, "ash");
    assert_eq!(u.displayname, "Ash");
    assert_ne!(u.password_hash, "pikachu");
    assert!(u.password_hash.starts_with("$2b$10$"));
    assert_eq!(u.password_hash.len(), 60);
    assert!(u.created_at > 1_600_000_000);
    assert!(u.passwords_match("pikachu"));
    assert!(!u.passwords_match("raichu"));
    assert_eq!(u.try_passwords_match("pikachu"), Some(true));
    assert_eq!(u.try_passwords_match("raichu"), Some(false));
}

#[test]
fn unreadable_hash_has_no_answer() {
    let u = User {
        object_id: oid(3),
        username: "x".to_string(),
        displayname: "x".to_string(),
        created_at: 0,
        password_hash: "plain".to_string(),
    };
    assert_eq!(u.try_passwords_match("plain"), None);
    assert_eq!(User::try_authenticate(Some(u), "plain"), None);
}

#[test]
fn authenticate_keeps_only_matching_accounts() {
    let u = User::new("misty".to_string(), "Misty".to_string(), "starmie").unwrap();
    assert_eq!(User::try_authenticate(Some(u.clone()), "starmie"), Some(Some(u.clone())));
    assert_eq!(User::try_authenticate(Some(u), "psyduck"), Some(None));
    assert_eq!(User::try_authenticate(None, "x"), Some(None));
}

#[test]
fn public_view_of_user() {
    let u = User {
        object_id: oid(4),
        username: "brock".to_string(),
        displayname: "Brock".to_string(),
        created_at: 42,
        password_hash: "h".to_string(),
    };
    let p = PublicUser::from(u);
    assert_eq!(
        p,
        PublicUser { object_id: oid(4), username: "brock".to_string(), displayname: "Brock".to_string(), created_at: 42 }
    );
    assert_eq!(p.duplicate(), p);
}

#[test]
fn pokemon_tallies() {
    assert_eq!(Pokemon::new(25), Pokemon { object_id: 25, totalsmash: 0, totalpass: 0, views: 0 });
    assert_eq!(
        Pokemon::vote_update(25, true),
        CounterIncrement { pokemon_id: 25, counter: Counter::TotalSmash, amount: 1 }
    );
    assert_eq!(Pokemon::vote_update(7, false), Pokemon::pass_update(7));
    assert_eq!(Pokemon::smash_update(7).counter.field(), "totalsmash");
    assert_eq!(Pokemon::pass_update(7).counter.field(), "totalpass");
}

#[test]
fn votes_get_fresh_identifiers() {
    let a = SmashOrPass::new(oid(9), 150, true);
    let b = SmashOrPass::new(oid(9), 150, false);
    assert_eq!((a.user_id, a.pokemon_id, a.smash), (oid(9), 150, true));
    assert!(!b.smash);
    assert_ne!(a.object_id, b.object_id);
}

#[test]
fn user_index() {
    assert_eq!(
        User::index_spec(),
        IndexSpec { key: "username", direction: 1, sparse: true, unique: true, name: "usernameIndex" }
    );
    assert!(index_name_matches(Some("usernameIndex"), "usernameIndex"));
    assert!(!index_name_matches(Some("_id_"), "usernameIndex"));
    assert!(!index_name_matches(None, "usernameIndex"));
}

#[test]
fn ensure_index_steps() {
    let wanted = "usernameIndex";
    assert_eq!(ensure_index_step(wanted, &IndexScanEvent::ListingUnavailable), IndexScanAction::Create);
    assert_eq!(ensure_index_step(wanted, &IndexScanEvent::Exhausted), IndexScanAction::Create);
    assert_eq!(
        ensure_index_step(wanted, &IndexScanEvent::Listed(Some("_id_".to_string()))),
        IndexScanAction::KeepScanning
    );
    assert_eq!(ensure_index_step(wanted, &IndexScanEvent::Listed(None)), IndexScanAction::KeepScanning);
    assert_eq!(
        ensure_index_step(wanted, &IndexScanEvent::Listed(Some("usernameIndex".to_string()))),
        IndexScanAction::AlreadyPresent
    );
}

#[test]
fn accounts_from_hash_outcomes() {
    let made = account_from_hash("ash".to_string(), "Ash".to_string(), Ok("$2b$10$h".to_string()), oid(5), 77);
    assert_eq!(
        made,
        Ok(User {
            object_id: oid(5),
            username: "ash".to_string(),
            displayname: "Ash".to_string(),
            created_at: 77,
            password_hash: "$2b$10$h".to_string(),
        })
    );
    let e = PasswordHashError { kind: HashFailure::RandomSource, message: "Rand error".to_string() };
    assert_eq!(account_from_hash("a".to_string(), "a".to_string(), Err(e.clone()), oid(5), 1), Err(e));
}

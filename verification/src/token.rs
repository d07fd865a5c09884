//! Session tokens: a user's public view with an expiry, signed as an
//! HS256 JSON web token.
use vstd::prelude::*;
use crate::json::{is_json_text, json_string, lemma_render_members_push, push_json_string, render, render_member, render_members, JsonMember, JsonValue};
use crate::text::{
    format_i64, has_prefix, occurs_in, push_char, push_str, remove_all, remove_occurrences,
    signed_decimal, starts_with,
};
use crate::time::{is_clock_reading, utc_now, Instant, MAX_TIMESTAMP, SECS_PER_DAY};
use crate::user::PublicUser;

verus! {

/// A session token: the signed-in user and when the token expires.
#[derive(Clone, Debug, PartialEq, Eq)]
pub struct Token {
    pub exp: Instant,
    pub user: PublicUser,
}

/// Why a token could not be signed or read.
#[derive(Clone, Copy, Debug, PartialEq, Eq)]
pub enum TokenError {
    Encoding,
    Decoding,
}

/// How long a new token lives: three days, in seconds.
pub const TOKEN_LIFETIME_SECS: i64 = 259_200;

/// How long after expiry a token is renewed: seven days, in nanoseconds.
pub const RENEW_AFTER_NANOS: i128 = 604_800_000_000_000;

/// The authorization scheme that a request's credentials carry.
pub open spec fn basic_scheme() -> Seq<char> {
    "Basic "@
}

/// The signing secret: the bytes of "secret".
pub open spec fn secret_bytes() -> Seq<u8> {
    seq![115u8, 101u8, 99u8, 114u8, 101u8, 116u8]
}

/// The token signed with `secret` over the claims JSON text `claims`, with
/// the default header (HS256), or `None` when `claims` is not JSON.
pub uninterp spec fn jwt_hs256(claims: Seq<char>, secret: Seq<u8>) -> Option<Seq<char>>;

#[verifier::external_type_specification]
#[verifier::external_body]
pub struct ExJwtError(jsonwebtoken::errors::Error);

/// The claims JSON text that the token `token` carries when its header names
/// HS256, its signature checks out under `secret`, and its payload is JSON;
/// `None` otherwise. Claims and expiry are not checked.
pub uninterp spec fn jwt_hs256_claims(token: Seq<char>, secret: Seq<u8>) -> Option<Seq<char>>;

/// A JSON whitespace character.
pub open spec fn is_json_space(c: char) -> bool {
    c == ' ' || c == '\t' || c == '\n' || c == '\r'
}

/// `s` neither starts nor ends with JSON whitespace.
pub open spec fn json_trimmed(s: Seq<char>) -> bool {
    s.len() > 0 && !is_json_space(s[0]) && !is_json_space(s.last())
}

/// `jsonwebtoken::encode` with the default header and an HMAC key made from
/// `secret`, over the claims JSON text `claims` (handed over as raw JSON,
/// checked by `serde_json::value::RawValue::from_string`). The token is a
/// function of the claims text and the secret; it fails exactly when the
/// claims text is not JSON (so it succeeds on the text of any JSON value of
/// the kinds the library writes). The crate's source also shows that the token is
/// base64url text joined by '.', so it holds no space, and that checking it
/// with the same secret reads back the claims (the raw JSON value, which is
/// the claims text itself when it has no surrounding whitespace).
#[verifier::external_body]
fn jwt_encode_hs256(claims: &str, secret: &[u8]) -> (r: Result<String, jsonwebtoken::errors::Error>)
    ensures
        r is Ok <==> jwt_hs256(claims@, secret@) is Some,
        is_json_text(claims@) ==> r is Ok,
        r matches Ok(s) ==> jwt_hs256(claims@, secret@) == Some(s@),
        r matches Ok(s) ==> forall|i: int| 0 <= i < s@.len() ==> s@[i] != ' ',
        r matches Ok(s) ==> (json_trimmed(claims@) ==> jwt_hs256_claims(s@, secret@) == Some(
            claims@,
        )),
{
    let raw = serde_json::value::RawValue::from_string(claims.to_string())?;
    let key = jsonwebtoken::EncodingKey::from_secret(secret);
    jsonwebtoken::encode(&jsonwebtoken::Header::default(), &raw, &key)
}


/// `jsonwebtoken::decode` with an HMAC key made from `secret` and the HS256
/// validation (signature checked; `exp` required and checked against the
/// current time with 60 seconds of leeway), giving the claims JSON text.
/// Whether it succeeds depends on the clock as well, so success is not
/// stated; what is stated is that a token whose header, signature or
/// payload does not check out is refused, and that the claims it gives are
/// the ones that the token carries, a function of the token and the secret
/// alone.
#[verifier::external_body]
fn jwt_decode_hs256(token: &str, secret: &[u8]) -> (r: Result<String, jsonwebtoken::errors::Error>)
    ensures
        jwt_hs256_claims(token@, secret@) is None ==> r is Err,
        r matches Ok(c) ==> jwt_hs256_claims(token@, secret@) == Some(c@),
{
    let key = jsonwebtoken::DecodingKey::from_secret(secret);
    let validation = jsonwebtoken::Validation::new(jsonwebtoken::Algorithm::HS256);
    let data = jsonwebtoken::decode::<Box<serde_json::value::RawValue>>(token, &key, &validation)?;
    Ok(data.claims.get().to_string())
}

/// The token that `user` gets when signing in at `now`: it expires three
/// days later.
pub open spec fn issued_at(user: PublicUser, now: Instant) -> Token {
    Token {
        exp: Instant { secs: (now.secs + TOKEN_LIFETIME_SECS) as i64, nanos: now.nanos },
        user,
    }
}

/// `now` is early enough that a token issued then has a representable expiry.
pub open spec fn can_issue_at(now: Instant) -> bool {
    now.wf() && now.secs <= MAX_TIMESTAMP - TOKEN_LIFETIME_SECS
}

/// The token that `user` gets when signing in at `now`, or `None` when
/// `now` is so late that the expiry could not be represented.
pub open spec fn issue_outcome(user: PublicUser, now: Instant) -> Option<Token> {
    if can_issue_at(now) {
        Some(issued_at(user, now))
    } else {
        None
    }
}

/// What renewing `token` at `now` gives: a token for the same user issued
/// at `now` when `token` is due for renewal then, else nothing.
pub open spec fn renewal(token: Token, now: Instant) -> Option<Token> {
    if due_for_renewal(token, now) {
        issue_outcome(token.user, now)
    } else {
        None
    }
}

/// At `now`, the token expired more than seven days ago.
pub open spec fn due_for_renewal(token: Token, now: Instant) -> bool {
    now.total_nanos() - token.exp.total_nanos() > RENEW_AFTER_NANOS
}

/// The members of a token's claims: the expiry in whole seconds, then the
/// user's identifier (as `{"$oid": hex}`), name, display name and creation
/// time (whole seconds).
pub open spec fn claims_members(token: Token) -> Seq<JsonMember> {
    seq![
        JsonMember { key: "exp"@, value: JsonValue::Integer(token.exp.secs) },
        JsonMember {
            key: "id"@,
            value: JsonValue::Object(
                seq![JsonMember { key: "$oid"@, value: JsonValue::Text(token.user.object_id.hex()) }],
            ),
        },
        JsonMember { key: "username"@, value: JsonValue::Text(token.user.username@) },
        JsonMember { key: "displayname"@, value: JsonValue::Text(token.user.displayname@) },
        JsonMember { key: "createdAt"@, value: JsonValue::Integer(token.user.created_at) },
    ]
}

/// The claims of a token as JSON text.
pub open spec fn claims_text(token: Token) -> Seq<char> {
    render(JsonValue::Object(claims_members(token)))
}

/// Appends a member whose value is an integer.
fn push_integer_member(out: &mut String, key: &str, n: i64)
    ensures
        final(out)@ == old(out)@ + render_member(
            JsonMember { key: key@, value: JsonValue::Integer(n) },
        ),
{
    let ghost start = out@;
    push_json_string(out, key);
    push_char(out, ':');
    let text = format_i64(n);
    push_str(out, text.as_str());
    assert(out@ =~= start + (json_string(key@) + seq![':'] + signed_decimal(n as int)));
}

/// Appends a member whose value is a string.
fn push_text_member(out: &mut String, key: &str, value: &str)
    ensures
        final(out)@ == old(out)@ + render_member(
            JsonMember { key: key@, value: JsonValue::Text(value@) },
        ),
{
    let ghost start = out@;
    push_json_string(out, key);
    push_char(out, ':');
    push_json_string(out, value);
    assert(out@ =~= start + (json_string(key@) + seq![':'] + json_string(value@)));
}

/// Appends the identifier member: `"id":{"$oid":hex}`.
fn push_id_member(out: &mut String, hex: &str)
    ensures
        final(out)@ == old(out)@ + json_string("id"@) + seq![':'] + seq!['{'] + render_member(
            JsonMember { key: "$oid"@, value: JsonValue::Text(hex@) },
        ) + seq!['}'],
{
    let ghost start = out@;
    push_json_string(out, "id");
    push_char(out, ':');
    push_char(out, '{');
    let ghost mid = out@;
    push_text_member(out, "$oid", hex);
    push_char(out, '}');
    assert(out@ =~= start + json_string("id"@) + seq![':'] + seq!['{'] + render_member(
        JsonMember { key: "$oid"@, value: JsonValue::Text(hex@) },
    ) + seq!['}']);
}

/// Writing member `k` of an object after the first `k` members (with a
/// comma unless it is the first) gives the text of the first `k + 1`.
proof fn lemma_member_step(ms: Seq<JsonMember>, k: int, before: Seq<char>, after: Seq<char>)
    requires
        0 <= k < ms.len(),
        before == seq!['{'] + render_members(ms.take(k)),
        after == before + (if k == 0 {
            Seq::<char>::empty()
        } else {
            seq![',']
        }) + render_member(ms[k]),
    ensures
        after == seq!['{'] + render_members(ms.take(k + 1)),
{
    lemma_render_members_push(ms.take(k), ms[k]);
    assert(ms.take(k).push(ms[k]) =~= ms.take(k + 1));
    assert(after =~= seq!['{'] + render_members(ms.take(k + 1)));
}

/// The signed form of a token.
pub open spec fn signed_token(token: Token) -> Option<Seq<char>> {
    jwt_hs256(claims_text(token), secret_bytes())
}

/// The credentials in an `Authorization` header value: present only when
/// the value starts with "Basic ", and then the value with every "Basic "
/// taken out.
pub open spec fn header_credentials(header: Seq<char>) -> Option<Seq<char>> {
    if has_prefix(header, basic_scheme()) {
        Some(remove_all(header, basic_scheme()))
    } else {
        None
    }
}

impl Token {
    /// The signing secret.
    pub fn get_secret() -> (s: &'static [u8])
        ensures
            s@ == secret_bytes(),
    {
        let s: &'static [u8] = &[115u8, 101u8, 99u8, 114u8, 101u8, 116u8];
        assert(s@ =~= secret_bytes());
        s
    }

    /// A field-for-field copy.
    pub fn duplicate(&self) -> (r: Token)
        ensures
            r == *self,
    {
        Token { exp: self.exp, user: self.user.duplicate() }
    }

    /// The token for `user` issued at `now`.
    pub fn new_at(user: PublicUser, now: Instant) -> (t: Token)
        requires
            can_issue_at(now),
        ensures
            t == issued_at(user, now),
    {
        Token { exp: Instant { secs: now.secs + TOKEN_LIFETIME_SECS, nanos: now.nanos }, user }
    }

    /// The token for `user` issued at `now`, or `None` when `now` is so late
    /// that its expiry could not be represented.
    pub fn issue(user: PublicUser, now: Instant) -> (r: Option<Token>)
        requires
            now.wf(),
        ensures
            r == issue_outcome(user, now),
    {
        if now.secs <= MAX_TIMESTAMP - TOKEN_LIFETIME_SECS {
            Some(Token::new_at(user, now))
        } else {
            None
        }
    }

    /// The token for `user` issued now, by one reading of the system clock:
    /// it expires three days later. `None` when the clock reads a time so
    /// late that the expiry could not be represented.
    pub fn new(user: PublicUser) -> (r: Option<Token>)
        ensures
            exists|now: Instant|
                #![trigger issue_outcome(user, now)]
                is_clock_reading(now) && now.wf() && now.secs >= 0 && r == issue_outcome(user, now),
    {
        let now = utc_now();
        Token::issue(user, now)
    }

    /// Whether the token is due for renewal at `now`: it expired more than
    /// seven days before.
    pub fn should_renew_at(&self, now: Instant) -> (r: bool)
        requires
            self.exp.wf(),
            now.wf(),
        ensures
            r == due_for_renewal(*self, now),
    {
        let diff: i128 = (now.secs as i128 - self.exp.secs as i128) * 1_000_000_000i128 + (
        now.nanos as i128 - self.exp.nanos as i128);
        diff > RENEW_AFTER_NANOS
    }

    /// Whether the token is due for renewal now (by the system clock).
    pub fn should_renew(&self) -> (r: bool)
        requires
            self.exp.wf(),
        ensures
            exists|now: Instant|
                #![trigger due_for_renewal(*self, now)]
                is_clock_reading(now) && now.wf() && now.secs >= 0 && r == due_for_renewal(*self, now),
    {
        let now = utc_now();
        self.should_renew_at(now)
    }

    /// A fresh token for the same user, issued at `now`, when this one is due
    /// for renewal at `now`; else `None` (also when `now` is too late to
    /// issue a token).
    pub fn renew_at(self, now: Instant) -> (r: Option<Token>)
        requires
            self.exp.wf(),
            now.wf(),
        ensures
            r == renewal(self, now),
    {
        if self.should_renew_at(now) {
            Token::issue(self.user, now)
        } else {
            None
        }
    }

    /// A fresh token for the same user when this one is due for renewal now,
    /// by one reading of the system clock; else `None`.
    pub fn renew(self) -> (r: Option<Token>)
        requires
            self.exp.wf(),
        ensures
            exists|now: Instant|
                #![trigger renewal(self, now)]
                is_clock_reading(now) && now.wf() && now.secs >= 0 && r == renewal(self, now),
    {
        let now = utc_now();
        self.renew_at(now)
    }

    /// The claims of this token as JSON text.
    pub fn claims_json(&self) -> (r: String)
        ensures
            r@ == claims_text(*self),
    {
        let ghost ms = claims_members(*self);
        let mut out = String::new();
        push_char(&mut out, '{');
        proof {
            assert(ms.take(0) =~= Seq::<JsonMember>::empty());
            assert(out@ =~= seq!['{'] + render_members(ms.take(0)));
        }
        let ghost before = out@;
        push_integer_member(&mut out, "exp", self.exp.secs);
        proof {
            assert(out@ =~= before + Seq::<char>::empty() + render_member(ms[0]));
            lemma_member_step(ms, 0, before, out@);
        }
        let ghost before = out@;
        push_char(&mut out, ',');
        let id = self.user.object_id.to_hex();
        push_id_member(&mut out, id.as_str());
        proof {
            let inner = seq![JsonMember { key: "$oid"@, value: JsonValue::Text(self.user.object_id.hex()) }];
            assert(render_members(inner) == render_member(inner[0]));
            assert(render_member(ms[1]) =~= json_string("id"@) + seq![':'] + seq!['{']
                + render_member(inner[0]) + seq!['}']);
            assert(out@ =~= before + seq![','] + render_member(ms[1]));
            lemma_member_step(ms, 1, before, out@);
        }
        let ghost before = out@;
        push_char(&mut out, ',');
        push_text_member(&mut out, "username", self.user.username.as_str());
        proof {
            assert(out@ =~= before + seq![','] + render_member(ms[2]));
            lemma_member_step(ms, 2, before, out@);
        }
        let ghost before = out@;
        push_char(&mut out, ',');
        push_text_member(&mut out, "displayname", self.user.displayname.as_str());
        proof {
            assert(out@ =~= before + seq![','] + render_member(ms[3]));
            lemma_member_step(ms, 3, before, out@);
        }
        let ghost before = out@;
        push_char(&mut out, ',');
        push_integer_member(&mut out, "createdAt", self.user.created_at);
        proof {
            assert(out@ =~= before + seq![','] + render_member(ms[4]));
            lemma_member_step(ms, 4, before, out@);
            assert(ms.take(5) =~= ms);
        }
        push_char(&mut out, '}');
        assert(out@ =~= claims_text(*self));
        out
    }

    /// The token signed with the secret: a JSON web token over its claims.
    /// Its claims are always JSON, so signing always succeeds.
    pub fn encode(self) -> (r: Result<String, TokenError>)
        ensures
            r matches Ok(s) && signed_token(self) == Some(s@),
            r matches Ok(s) ==> jwt_hs256_claims(s@, secret_bytes()) == Some(claims_text(self)),
            r matches Ok(s) ==> header_credentials(basic_scheme() + s@) == Some(s@),
    {
        let claims = self.claims_json();
        proof {
            lemma_claims_trimmed(self);
            assert(is_json_text(claims@)) by {
                let v = JsonValue::Object(claims_members(self));
                assert(render(v) == claims@);
            }
        }
        match jwt_encode_hs256(claims.as_str(), Token::get_secret()) {
            Ok(s) => {
                proof {
                    lemma_spaceless_credentials_roundtrip(s@);
                }
                Ok(s)
            },
            Err(_) => Err(TokenError::Encoding),
        }
    }

    /// Checks a JSON web token's signature against the secret and its expiry
    /// against the clock, giving its claims as JSON text. Whether it passes
    /// is decided by the clock as well as the token; a token whose header,
    /// signature or payload does not check out is always refused, and the
    /// claims it gives are those that the token carries.
    pub fn decode(string: String) -> (r: Result<String, TokenError>)
        ensures
            jwt_hs256_claims(string@, secret_bytes()) is None ==> r is Err,
            r matches Ok(c) ==> jwt_hs256_claims(string@, secret_bytes()) == Some(c@),
            r matches Err(e) ==> e == TokenError::Decoding,
    {
        match jwt_decode_hs256(string.as_str(), Token::get_secret()) {
            Ok(claims) => Ok(claims),
            Err(_) => Err(TokenError::Decoding),
        }
    }

    /// The credentials that a request's `Authorization` header carries: the
    /// header's value when it starts with "Basic ", with every "Basic "
    /// taken out; `None` when there is no header or another scheme.
    pub fn authorization_credentials(header: Option<&str>) -> (r: Option<String>)
        ensures
            match header {
                Some(h) => match header_credentials(h@) {
                    Some(c) => r matches Some(s) && s@ == c,
                    None => r is None,
                },
                None => r is None,
            },
    {
        match header {
            Some(h) => {
                if starts_with(h, "Basic ") {
                    Some(remove_occurrences(h, "Basic "))
                } else {
                    None
                }
            },
            None => None,
        }
    }
}

/// The token field of a response: the signed token when there is one.
pub fn serialize(maybe_token: &Option<Token>) -> (r: Option<String>)
    ensures
        match maybe_token {
            Some(t) => r matches Some(s) && signed_token(*t) == Some(s@),
            None => r is None,
        },
{
    match maybe_token {
        Some(token) => match token.duplicate().encode() {
            Ok(s) => Some(s),
            Err(_) => None,
        },
        None => None,
    }
}

/// A token issued at `now` is for the user it was issued to and expires
/// exactly three days (259 200 seconds) after `now`; issuing gives nothing
/// only when that expiry would lie past the last representable second.
pub proof fn lemma_issue_expires_three_days_later(user: PublicUser, now: Instant)
    requires
        now.wf(),
    ensures
        issue_outcome(user, now) is None <==> now.secs + 259_200 > MAX_TIMESTAMP,
        issue_outcome(user, now) matches Some(t) ==> {
            &&& t.user == user
            &&& t.exp.wf()
            &&& t.exp.total_nanos() == now.total_nanos() + 259_200_000_000_000
        },
{
}

/// Whatever a token issued by one reading of the system clock is, it
/// expires three days after that reading: a token for `user` that
/// `Token::new` may give expires three days after some clock reading, and
/// it gives none only at a clock reading too late for its expiry.
pub proof fn lemma_new_token_follows_clock(user: PublicUser, r: Option<Token>)
    requires
        exists|now: Instant| #[trigger] is_clock_reading(now) && r == issue_outcome(user, now),
    ensures
        r matches Some(t) ==> t.user == user && exists|now: Instant|
            #[trigger] is_clock_reading(now) && t.exp.total_nanos() == now.total_nanos()
                + 259_200_000_000_000,
        r is None ==> exists|now: Instant|
            #[trigger] is_clock_reading(now) && now.secs + 259_200 > MAX_TIMESTAMP,
{
    let now = choose|now: Instant| #[trigger] is_clock_reading(now) && r == issue_outcome(user, now);
    crate::time::lemma_clock_reading_wf(now);
    lemma_issue_expires_three_days_later(user, now);
}

/// Renewing `token` at `now` gives a token exactly when `token` expired
/// more than seven days before `now` (and a token can still be issued at
/// `now`); the new token is for the same user and expires three days after
/// `now`.
pub proof fn lemma_renewal_at(token: Token, now: Instant)
    requires
        now.wf(),
    ensures
        renewal(token, now) is Some <==> (now.total_nanos() - token.exp.total_nanos()
            > 604_800_000_000_000 && now.secs + 259_200 <= MAX_TIMESTAMP),
        renewal(token, now) matches Some(t) ==> {
            &&& t.user == token.user
            &&& t.exp.total_nanos() == now.total_nanos() + 259_200_000_000_000
        },
{
    lemma_issue_expires_three_days_later(token.user, now);
}

/// Whatever renewing `token` by one reading of the system clock gives: a
/// new token only when, at that reading, `token` had expired more than
/// seven days before, and then for the same user, expiring three days after
/// that reading.
pub proof fn lemma_renew_follows_clock(token: Token, r: Option<Token>)
    requires
        exists|now: Instant| #[trigger] is_clock_reading(now) && r == renewal(token, now),
    ensures
        exists|now: Instant|
            #[trigger] is_clock_reading(now) && (r is Some ==> now.total_nanos()
                - token.exp.total_nanos() > 604_800_000_000_000) && (r matches Some(t)
                ==> t.user == token.user && t.exp.total_nanos() == now.total_nanos()
                + 259_200_000_000_000),
{
    let now = choose|now: Instant| #[trigger] is_clock_reading(now) && r == renewal(token, now);
    crate::time::lemma_clock_reading_wf(now);
    lemma_renewal_at(token, now);
}

/// A token issued at one instant falls due for renewal exactly when more
/// than ten days (its three-day lifetime plus seven) have passed since.
pub proof fn lemma_issued_token_renewal(user: PublicUser, issued: Instant, checked: Instant)
    requires
        can_issue_at(issued),
    ensures
        due_for_renewal(issued_at(user, issued), checked) <==> checked.total_nanos()
            - issued.total_nanos() > 864_000_000_000_000,
{
}

/// Credentials sent as "Basic " followed by a token in which "Basic " does
/// not occur come back unchanged.
pub proof fn lemma_credentials_roundtrip(credentials: Seq<char>)
    requires
        !occurs_in(credentials, basic_scheme()),
    ensures
        header_credentials(basic_scheme() + credentials) == Some(credentials),
{
    let pat = basic_scheme();
    let h = pat + credentials;
    assert(h.take(pat.len() as int) =~= pat);
    assert(h.skip(pat.len() as int) =~= credentials);
    lemma_remove_absent(credentials, pat);
}

/// A token that holds no space (as every JSON web token does), sent as
/// "Basic " followed by the token, comes back unchanged.
pub proof fn lemma_spaceless_credentials_roundtrip(credentials: Seq<char>)
    requires
        forall|i: int| 0 <= i < credentials.len() ==> credentials[i] != ' ',
    ensures
        header_credentials(basic_scheme() + credentials) == Some(credentials),
{
    reveal_strlit("Basic ");
    let pat = basic_scheme();
    assert(pat[5] == ' ');
    assert forall|i: int| 0 <= i <= credentials.len() - pat.len() implies !#[trigger] has_prefix(
        credentials.skip(i),
        pat,
    ) by {
        if has_prefix(credentials.skip(i), pat) {
            assert(credentials.skip(i).take(6)[5] == pat[5]);
            assert(credentials[i + 5] == ' ');
        }
    }
    lemma_credentials_roundtrip(credentials);
}

/// The claims text of a token starts with '{' and ends with '}'.
proof fn lemma_claims_trimmed(token: Token)
    ensures
        json_trimmed(claims_text(token)),
{
    reveal_strlit("{\"exp\":");
    reveal_strlit("}");
    let c = claims_text(token);
    let head = "{\"exp\":"@;
    assert(c[0] == head[0]);
    assert(c.last() == '}');
}

/// Taking out a pattern that does not occur leaves the text unchanged.
proof fn lemma_remove_absent(s: Seq<char>, pat: Seq<char>)
    requires
        !occurs_in(s, pat),
    ensures
        remove_all(s, pat) == s,
    decreases s.len(),
{
    if s.len() > 0 && pat.len() > 0 {
        assert(s.skip(0) =~= s);
        assert(!has_prefix(s.skip(0), pat));
        let t = s.skip(1);
        assert forall|i: int| 0 <= i <= t.len() - pat.len() implies !#[trigger] has_prefix(
            t.skip(i),
            pat,
        ) by {
            assert(t.skip(i) =~= s.skip(i + 1));
            assert(!has_prefix(s.skip(i + 1), pat));
        }
        lemma_remove_absent(t, pat);
        assert(seq![s[0]] + t =~= s);
    }
}

} // verus!

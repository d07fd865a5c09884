//! Accounts: the stored user with its password hash, its public view, and
//! the password check.
use vstd::prelude::*;
use crate::ids::{fresh_object_id, is_generated_id, ObjectId};
use crate::text::{digit_char, has_prefix};
use crate::time::{is_clock_reading, utc_now, Instant, MAX_TIMESTAMP};

verus! {

/// What others may see of an account.
#[derive(Clone, Debug, PartialEq, Eq)]
pub struct PublicUser {
    pub object_id: ObjectId,
    pub username: String,
    pub displayname: String,
    /// When the account was created, in whole seconds since the Unix epoch.
    pub created_at: i64,
}

/// A stored account.
#[derive(Clone, Debug, PartialEq, Eq)]
pub struct User {
    pub object_id: ObjectId,
    pub username: String,
    pub displayname: String,
    /// When the account was created, in whole seconds since the Unix epoch.
    pub created_at: i64,
    pub password_hash: String,
}

/// What made hashing a password fail.
#[derive(Clone, Copy, Debug, PartialEq, Eq, Structural)]
pub enum HashFailure {
    /// The operating system's random source could not give a salt.
    RandomSource,
    /// The cost factor is outside 4..=31.
    CostNotAllowed,
    /// Any other failure of the hasher.
    Other,
}

/// Why a password could not be hashed: the kind of failure, and the
/// hasher's words for it.
#[derive(Clone, Debug, PartialEq, Eq)]
pub struct PasswordHashError {
    pub kind: HashFailure,
    pub message: String,
}

/// The bcrypt cost factor used for new password hashes.
pub const PASSWORD_HASH_COST: u32 = 10;

#[verifier::external_type_specification]
#[verifier::external_body]
pub struct ExBcryptError(bcrypt::BcryptError);

/// What checking `password` against the stored bcrypt `hash` gives:
/// `Some(matches)`, or `None` when `hash` is not a readable bcrypt hash.
pub uninterp spec fn bcrypt_verify_outcome(password: Seq<char>, hash: Seq<char>) -> Option<bool>;

/// How a bcrypt hash at `cost` (below 100) begins: "$2b$", the cost in two
/// digits, then "$".
pub open spec fn bcrypt_hash_prefix(cost: u32) -> Seq<char> {
    "$2b$"@ + seq![digit_char((cost / 10) as int), digit_char((cost % 10) as int)] + "$"@
}

/// `bcrypt::hash`: hashes `password` with a random salt at the given cost,
/// its error told apart by kind and given with its `Display` text. The salt
/// is random, so the hash itself is not stated; what is stated is what the
/// crate's source shows: a cost outside 4..=31 is refused; at an allowed cost
/// the only failure is the random source's; a hash is 60 characters, "$2b$",
/// the two-digit cost and "$" followed by the salt and the digest; and
/// checking the same password against the hash it produced reads the hash
/// and reports a match. Whether the random source fails, and the error's
/// text, are not stated.
#[verifier::external_body]
fn bcrypt_hash(password: &str, cost: u32) -> (r: Result<String, PasswordHashError>)
    ensures
        !(4 <= cost <= 31) ==> r is Err,
        r matches Err(e) ==> if 4 <= cost <= 31 {
            e.kind == HashFailure::RandomSource
        } else {
            e.kind == HashFailure::RandomSource || e.kind == HashFailure::CostNotAllowed
        },
        r matches Ok(h) ==> {
            &&& bcrypt_verify_outcome(password@, h@) == Some(true)
            &&& h@.len() == 60
            &&& has_prefix(h@, bcrypt_hash_prefix(cost))
        },
{
    match bcrypt::hash(password, cost) {
        Ok(h) => Ok(h),
        Err(e) => {
            let kind = match &e {
                bcrypt::BcryptError::Rand(_) => HashFailure::RandomSource,
                bcrypt::BcryptError::CostNotAllowed(_) => HashFailure::CostNotAllowed,
                _ => HashFailure::Other,
            };
            Err(PasswordHashError { kind, message: e.to_string() })
        },
    }
}

/// `bcrypt::verify`: checks `password` against a stored hash; an error
/// exactly when the hash cannot be read.
#[verifier::external_body]
fn bcrypt_verify(password: &str, hash: &str) -> (r: Result<bool, bcrypt::BcryptError>)
    ensures
        match r {
            Ok(b) => bcrypt_verify_outcome(password@, hash@) == Some(b),
            Err(_) => bcrypt_verify_outcome(password@, hash@) is None,
        },
{
    bcrypt::verify(password, hash)
}

/// A stored hash with its identifier and creation time makes an account;
/// a failed hash is the failure.
pub open spec fn account_from_hash_spec(
    username: String,
    displayname: String,
    hashed: Result<String, PasswordHashError>,
    object_id: ObjectId,
    created_at: i64,
) -> Result<User, PasswordHashError> {
    match hashed {
        Ok(h) => Ok(User { object_id, username, displayname, created_at, password_hash: h }),
        Err(e) => Err(e),
    }
}

/// The account made from a password hash outcome, an identifier and a
/// creation time; see [`account_from_hash_spec`].
pub fn account_from_hash(
    username: String,
    displayname: String,
    hashed: Result<String, PasswordHashError>,
    object_id: ObjectId,
    created_at: i64,
) -> (r: Result<User, PasswordHashError>)
    ensures
        r == account_from_hash_spec(username, displayname, hashed, object_id, created_at),
{
    match hashed {
        Ok(password_hash) => Ok(User { object_id, username, displayname, created_at, password_hash }),
        Err(e) => Err(e),
    }
}

impl PublicUser {
    /// The public view of a stored account.
    pub open spec fn of(user: User) -> PublicUser {
        PublicUser {
            object_id: user.object_id,
            username: user.username,
            displayname: user.displayname,
            created_at: user.created_at,
        }
    }

    /// A field-for-field copy.
    pub fn duplicate(&self) -> (r: PublicUser)
        ensures
            r == *self,
    {
        PublicUser {
            object_id: self.object_id,
            username: self.username.clone(),
            displayname: self.displayname.clone(),
            created_at: self.created_at,
        }
    }
}

impl From<User> for PublicUser {
    fn from(user: User) -> (r: PublicUser) {
        PublicUser {
            object_id: user.object_id,
            username: user.username,
            displayname: user.displayname,
            created_at: user.created_at,
        }
    }
}

impl vstd::std_specs::convert::FromSpecImpl<User> for PublicUser {
    open spec fn obeys_from_spec() -> bool {
        true
    }

    open spec fn from_spec(user: User) -> PublicUser {
        PublicUser::of(user)
    }
}

/// The account a sign-in finds: the account looked up by name, when there
/// is one and it accepts `password`.
pub open spec fn authenticated(found: Option<User>, password: Seq<char>) -> Option<User> {
    match found {
        Some(u) => if u.accepts(password) {
            Some(u)
        } else {
            None
        },
        None => None,
    }
}

/// An account created with a password is found again by a sign-in with
/// that password.
pub proof fn lemma_sign_up_then_sign_in(user: User, password: Seq<char>)
    requires
        user.accepts(password),
    ensures
        authenticated(Some(user), password) == Some(user),
{
}

/// A sign-in with a password that the account does not accept finds
/// nothing.
pub proof fn lemma_wrong_password_finds_nothing(user: User, password: Seq<char>)
    requires
        bcrypt_verify_outcome(password, user.password_hash@) == Some(false),
    ensures
        authenticated(Some(user), password) is None,
{
}

impl User {
    /// `password` is accepted for this account.
    pub open spec fn accepts(self, password: Seq<char>) -> bool {
        bcrypt_verify_outcome(password, self.password_hash@) == Some(true)
    }

    /// A new account under a fresh identifier, created now (by the system
    /// clock), storing a bcrypt hash at cost 10 of `password`: exactly the
    /// account that the hash outcome makes. A hash has the form "$2b$10$..."
    /// of 60 characters and accepts `password`; hashing fails only when the
    /// random source does, and the failure is reported with the hasher's
    /// message.
    pub fn new(username: String, displayname: String, password: &str) -> (r: Result<
        User,
        PasswordHashError,
    >)
        ensures
            exists|hashed: Result<String, PasswordHashError>, object_id: ObjectId, created_at: i64|
                #![trigger account_from_hash_spec(username, displayname, hashed, object_id, created_at)]
                {
                    &&& 0 <= created_at <= MAX_TIMESTAMP
                    &&& is_generated_id(object_id)
                    &&& exists|c: Instant| #[trigger] is_clock_reading(c) && c.secs == created_at
                    &&& hashed matches Ok(h) ==> {
                        &&& bcrypt_verify_outcome(password@, h@) == Some(true)
                        &&& has_prefix(h@, "$2b$10$"@)
                        &&& h@.len() == 60
                    }
                    &&& hashed matches Err(e) ==> e.kind == HashFailure::RandomSource
                    &&& r == account_from_hash_spec(username, displayname, hashed, object_id, created_at)
                },
            r matches Err(e) ==> e.kind == HashFailure::RandomSource,
            r matches Ok(u) ==> {
                &&& u.username == username
                &&& u.displayname == displayname
                &&& is_generated_id(u.object_id)
                &&& exists|c: Instant| #[trigger] is_clock_reading(c) && c.secs == u.created_at
                &&& 0 <= u.created_at <= MAX_TIMESTAMP
                &&& u.accepts(password@)
                &&& has_prefix(u.password_hash@, "$2b$10$"@)
                &&& u.password_hash@.len() == 60
            },
    {
        let hashed = bcrypt_hash(password, PASSWORD_HASH_COST);
        proof {
            reveal_strlit("$2b$");
            reveal_strlit("$");
            reveal_strlit("$2b$10$");
            assert(bcrypt_hash_prefix(PASSWORD_HASH_COST) =~= "$2b$10$"@);
        }
        let object_id = fresh_object_id();
        let created = utc_now();
        account_from_hash(username, displayname, hashed, object_id, created.secs)
    }

    /// Whether `pw` matches the stored hash. The stored hash must be
    /// readable (where it is not, the check has no answer).
    pub fn passwords_match(&self, pw: &str) -> (r: bool)
        requires
            bcrypt_verify_outcome(pw@, self.password_hash@) is Some,
        ensures
            Some(r) == bcrypt_verify_outcome(pw@, self.password_hash@),
    {
        match bcrypt_verify(pw, self.password_hash.as_str()) {
            Ok(b) => b,
            Err(_) => false,
        }
    }

    /// Whether `pw` matches the stored hash; `None` when the stored hash
    /// cannot be read.
    pub fn try_passwords_match(&self, pw: &str) -> (r: Option<bool>)
        ensures
            r == bcrypt_verify_outcome(pw@, self.password_hash@),
    {
        match bcrypt_verify(pw, self.password_hash.as_str()) {
            Ok(_) => Some(self.passwords_match(pw)),
            Err(_) => None,
        }
    }

    /// The account that a sign-in finds, given the account looked up by
    /// name: `Some` of it when `pw` matches its stored hash, `Some(None)` when
    /// it does not or no account was found, and `None` when the found
    /// account's stored hash cannot be read. The password is checked once.
    pub fn try_authenticate(found: Option<User>, pw: &str) -> (r: Option<Option<User>>)
        ensures
            r == match found {
                Some(u) => match bcrypt_verify_outcome(pw@, u.password_hash@) {
                    Some(_) => Some(authenticated(found, pw@)),
                    None => None,
                },
                None => Some(None),
            },
    {
        match found {
            Some(user) => match bcrypt_verify(pw, user.password_hash.as_str()) {
                Ok(true) => Some(Some(user)),
                Ok(false) => Some(None),
                Err(_) => None,
            },
            None => Some(None),
        }
    }
}

} // verus!

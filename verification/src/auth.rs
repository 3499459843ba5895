//! User registration, login verification, session management and role
//! checking. Session state lives in an explicitly owned [`SessionStore`]
//! rather than in ambient process-wide state.

use vstd::prelude::*;

use crate::crypto;
use rand::distributions::Alphanumeric;
use rand::{thread_rng, Rng};

verus! {

/// A user of the system: a name, an opaque password hash and a single role
/// tag.
#[derive(Clone, Debug)]
pub struct User {
    pub username: String,
    pub password_hash: String,
    pub role: String,
}

impl User {
    /// A field-for-field copy.
    pub fn duplicate(&self) -> (r: User)
        ensures
            r == *self,
    {
        User {
            username: self.username.clone(),
            password_hash: self.password_hash.clone(),
            role: self.role.clone(),
        }
    }
}

/// Issues opaque session tokens and validates them. Tokens never expire and
/// are never revoked; the store lives for as long as its owner keeps it.
pub struct SessionStore {
    sessions: vstd::hash_map::StringHashMap<String>,
}

impl View for SessionStore {
    type V = Map<Seq<char>, Seq<char>>;

    /// The store viewed as a map from token to owner name.
    closed spec fn view(&self) -> Map<Seq<char>, Seq<char>> {
        Map::new(
            |t: Seq<char>| self.sessions@.contains_key(t),
            |t: Seq<char>| self.sessions@[t]@,
        )
    }
}

impl SessionStore {
    /// Creates an empty session store.
    pub fn new() -> (r: Self)
        ensures
            r@ == Map::<Seq<char>, Seq<char>>::empty(),
    {
        let r = SessionStore { sessions: vstd::hash_map::StringHashMap::new() };
        proof {
            assert(r@ =~= Map::<Seq<char>, Seq<char>>::empty());
        }
        r
    }

    /// Generates a fresh token, records the association from the token to
    /// the owner, and returns the token. Never fails. Token uniqueness is
    /// probabilistic, not guaranteed: a colliding token replaces the older
    /// association.
    pub fn issue(&mut self, owner: &str) -> (token: String)
        ensures
            token@.len() == 48,
            forall|i: int| 0 <= i < token@.len() ==> alphanumeric_char(#[trigger] token@[i]),
            final(self)@ == old(self)@.insert(token@, owner@),
    {
        let token = generate_session_token();
        self.sessions.insert(token.clone(), owner.to_owned());
        proof {
            assert(self@ =~= old(self)@.insert(token@, owner@));
        }
        token
    }

    /// Returns true exactly when the token was issued by this store.
    pub fn validate(&self, token: &str) -> (r: bool)
        ensures
            r == self@.contains_key(token@),
    {
        self.sessions.contains_key(token)
    }
}

/// A token recorded by `issue` validates immediately afterwards, whatever
/// the store held before: recording the association makes the token a key
/// of the store.
pub proof fn lemma_issued_token_validates(
    sessions: Map<Seq<char>, Seq<char>>,
    token: Seq<char>,
    owner: Seq<char>,
)
    ensures
        sessions.insert(token, owner).contains_key(token),
{
}

/// A character of the token alphabet: an ASCII letter or digit.
pub open spec fn alphanumeric_char(c: char) -> bool {
    ('A' <= c && c <= 'Z') || ('a' <= c && c <= 'z') || ('0' <= c && c <= '9')
}

/// Relies on `rand::Rng::sample_iter` over `rand::distributions::Alphanumeric`:
/// taking 48 samples yields a string of exactly 48 characters, each drawn
/// from the distribution's alphabet of ASCII letters and digits.
#[verifier::external_body]
pub fn generate_session_token() -> (r: String)
    ensures
        r@.len() == 48,
        forall|i: int| 0 <= i < r@.len() ==> alphanumeric_char(#[trigger] r@[i]),
{
    thread_rng().sample_iter(&Alphanumeric).take(48).map(char::from).collect()
}

/// What a freshly registered user's password hash must view to, given the
/// choice of algorithm.
pub open spec fn registered_hash(
    password: Seq<char>,
    salt: Seq<char>,
    use_argon2: bool,
) -> Result<Seq<char>, Seq<char>> {
    if use_argon2 {
        crypto::argon2id_of(password, salt)
    } else {
        Ok(crypto::sha256_hex_of(password))
    }
}

/// Registers a new user with the chosen hashing algorithm. Succeeds exactly
/// when the hash computation does; with SHA-256 it always succeeds.
pub fn register_user(
    username: &str,
    password: &str,
    role: &str,
    salt: &str,
    use_argon2: bool,
) -> (r: Result<User, String>)
    ensures
        match (r, registered_hash(password@, salt@, use_argon2)) {
            (Ok(user), Ok(h)) => {
                &&& user.username@ == username@
                &&& user.role@ == role@
                &&& user.password_hash@ == h
            },
            (Err(e), Err(h)) => e@ == h,
            _ => false,
        },
{
    let password_hash = if use_argon2 {
        match crypto::hash_argon2id(password, salt) {
            Ok(h) => h,
            Err(e) => {
                return Err(e);
            },
        }
    } else {
        crypto::hash_sha256(password)
    };
    Ok(User { username: username.to_owned(), password_hash, role: role.to_owned() })
}

/// Whether a password is accepted for a user under the chosen algorithm.
pub open spec fn login_accepted(user: User, password: Seq<char>, use_argon2: bool) -> bool {
    if use_argon2 {
        crypto::argon2id_verifies(password, user.password_hash@)
    } else {
        crypto::sha256_hex_of(password) == user.password_hash@
    }
}

/// Attempts a login. On success a fresh session token is recorded for the
/// user and returned; on failure the store is untouched. The salt parameter
/// is kept for interface compatibility: verification reads the salt embedded
/// in the stored hash.
pub fn login_user(
    user: &User,
    password: &str,
    _salt: &str,
    use_argon2: bool,
    store: &mut SessionStore,
) -> (r: Option<String>)
    ensures
        r is Some <==> login_accepted(*user, password@, use_argon2),
        match r {
            Some(token) => {
                &&& token@.len() == 48
                &&& forall|i: int|
                    0 <= i < token@.len() ==> alphanumeric_char(#[trigger] token@[i])
                &&& final(store)@ == old(store)@.insert(token@, user.username@)
            },
            None => final(store)@ == old(store)@,
        },
{
    let valid = if use_argon2 {
        crypto::verify_argon2id(password, user.password_hash.as_str())
    } else {
        let hashed = crypto::hash_sha256(password);
        hashed == user.password_hash
    };
    if valid {
        let token = store.issue(user.username.as_str());
        Some(token)
    } else {
        None
    }
}

/// Returns true exactly when the token is recorded in the store.
pub fn validate_session(store: &SessionStore, token: &str) -> (r: bool)
    ensures
        r == store@.contains_key(token@),
{
    store.validate(token)
}

/// Exact string equality between the user's role tag and the required role.
pub fn user_has_role(user: &User, required: &str) -> (r: bool)
    ensures
        r == (user.role@ == required@),
{
    crate::strutil::str_eq(user.role.as_str(), required)
}

} // verus!

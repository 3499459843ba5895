//! The backend orchestrator: one place that ties together authentication,
//! session state, cryptography, data handling, templating and role-based
//! view resolution.

use vstd::prelude::*;

use crate::auth::{self, SessionStore, User};
use crate::crypto;
use crate::data::SQLHandler;
use crate::gui::{container_like, GUIContainer, Renderable};
use crate::roles::RoleViews;
use crate::template::{apply_vars, pairs_view, Template};

verus! {

/// The main backend orchestrator. It owns the role-view mapping and the
/// session store; the session store replaces ambient process-wide state
/// with an explicitly owned instance.
pub struct Work {
    /// The role-to-view mapping.
    pub roles: RoleViews,
    /// The session store used by login and validation.
    pub sessions: SessionStore,
}

impl Work {
    /// Creates a backend orchestrator with no roles and no sessions.
    pub fn new() -> (r: Work)
        ensures
            r.roles@ == Map::<Seq<char>, GUIContainer>::empty(),
            r.sessions@ == Map::<Seq<char>, Seq<char>>::empty(),
    {
        Work { roles: RoleViews::new(), sessions: SessionStore::new() }
    }

    /// Registers a role-to-view mapping, replacing any earlier one.
    pub fn register_role_view(self, role: String, view: GUIContainer) -> (r: Work)
        ensures
            r.roles@ == self.roles@.insert(role@, view),
            r.sessions == self.sessions,
    {
        let Work { roles, sessions } = self;
        Work { roles: roles.register_role_view(role, view), sessions }
    }

    /// Registers a new user with the chosen hashing algorithm.
    pub fn register_user(
        &self,
        username: &str,
        password: &str,
        role: &str,
        salt: &str,
        use_argon2: bool,
    ) -> (r: Result<User, String>)
        ensures
            match (r, auth::registered_hash(password@, salt@, use_argon2)) {
                (Ok(user), Ok(h)) => {
                    &&& user.username@ == username@
                    &&& user.role@ == role@
                    &&& user.password_hash@ == h
                },
                (Err(e), Err(h)) => e@ == h,
                _ => false,
            },
    {
        auth::register_user(username, password, role, salt, use_argon2)
    }

    /// Attempts a login; on success a fresh session token is recorded in
    /// the owned store and returned.
    pub fn login_user(&mut self, user: &User, password: &str, salt: &str, use_argon2: bool) -> (r:
        Option<String>)
        ensures
            r is Some <==> auth::login_accepted(*user, password@, use_argon2),
            match r {
                Some(token) => {
                    &&& token@.len() == 48
                    &&& forall|i: int|
                        0 <= i < token@.len() ==> auth::alphanumeric_char(#[trigger] token@[i])
                    &&& final(self).sessions@ == old(self).sessions@.insert(
                        token@,
                        user.username@,
                    )
                },
                None => final(self).sessions@ == old(self).sessions@,
            },
            final(self).roles == old(self).roles,
    {
        auth::login_user(user, password, salt, use_argon2, &mut self.sessions)
    }

    /// Returns true exactly when the token is recorded in the owned store.
    pub fn validate_session(&self, token: &str) -> (r: bool)
        ensures
            r == self.sessions@.contains_key(token@),
    {
        auth::validate_session(&self.sessions, token)
    }

    /// Exact string equality between the user's role and the required one.
    pub fn user_has_role(&self, user: &User, role: &str) -> (r: bool)
        ensures
            r == (user.role@ == role@),
    {
        auth::user_has_role(user, role)
    }

    /// Echoes the query through the SQL connector placeholder.
    pub fn sql_query(&self, query: &str) -> (r: Result<String, String>)
        ensures
            r matches Ok(s) && s@ == "Executed SQL: "@ + query@,
    {
        SQLHandler.query(query)
    }

    /// Hashes a password with Argon2id under a developer-provided salt.
    pub fn hash_argon2id(&self, password: &str, salt: &str) -> (r: Result<String, String>)
        ensures
            crypto::str_result_view(r) == crypto::argon2id_of(password@, salt@),
    {
        crypto::hash_argon2id(password, salt)
    }

    /// Hashes input with SHA-256, rendered as hexadecimal digits.
    pub fn hash_sha256(&self, input: &str) -> (r: String)
        ensures
            r@ == crypto::sha256_hex_of(input@),
            r@.len() == 64,
    {
        crypto::hash_sha256(input)
    }

    /// Encrypts a plaintext with AES-256-GCM.
    pub fn encrypt_aes256(&self, key: &[u8; 32], nonce: &[u8; 12], plaintext: &str) -> (r: Result<
        Vec<u8>,
        String,
    >)
        ensures
            crypto::bytes_result_view(r) == crypto::aes256gcm_seal(key@, nonce@, plaintext@),
    {
        crypto::encrypt_aes256(key, nonce, plaintext)
    }

    /// Decrypts an AES-256-GCM ciphertext back into text.
    pub fn decrypt_aes256(&self, key: &[u8; 32], nonce: &[u8; 12], ciphertext: &[u8]) -> (r:
        Result<String, String>)
        ensures
            crypto::str_result_view(r) == crypto::aes256gcm_open(key@, nonce@, ciphertext@),
    {
        crypto::decrypt_aes256(key, nonce, ciphertext)
    }

    /// Substitutes variables into a template, pair by pair in order.
    pub fn apply_template(&self, template: Template, vars: &Vec<(String, String)>) -> (r: Template)
        ensures
            r.html@ == apply_vars(template.html@, pairs_view(vars@)),
            r.css@ == apply_vars(template.css@, pairs_view(vars@)),
            r.js@ == apply_vars(template.js@, pairs_view(vars@)),
    {
        template.apply(vars)
    }

    /// Resolves the view registered for the user's role, or a copy of the
    /// fallback; the result renders exactly as the chosen container does.
    pub fn resolve_view(&self, user: &User, fallback: &GUIContainer) -> (r: GUIContainer)
        ensures
            self.roles@.contains_key(user.role@) ==> container_like(
                r,
                self.roles@[user.role@],
            ) && r.spec_render() == self.roles@[user.role@].spec_render(),
            !self.roles@.contains_key(user.role@) ==> container_like(r, *fallback)
                && r.spec_render() == fallback.spec_render(),
    {
        match self.roles.resolve(user) {
            Some(v) => v.duplicate(),
            None => fallback.duplicate(),
        }
    }
}

} // verus!

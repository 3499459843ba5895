//! Runtime checks bundled behind one façade: session validity, role
//! possession, input safety, path safety and intrusion detection.

use vstd::prelude::*;

use crate::auth::{SessionStore, User};
use crate::security::{
    detect_intrusion, detect_intrusion_spec, enforce_role, enforce_session, is_malicious_spec,
    safe_path, sanitize_seq, unsafe_path_spec, validate_input, PolicyError,
};

verus! {

/// The façade for runtime checks.
pub struct Checker;

impl Checker {
    /// Checks that a session token is recorded in the store.
    pub fn check_session(store: &SessionStore, token: &str) -> (r: Result<(), PolicyError>)
        ensures
            store@.contains_key(token@) ==> r == Ok::<(), PolicyError>(()),
            !store@.contains_key(token@) ==> r == Err::<(), PolicyError>(
                PolicyError::InvalidSession,
            ),
    {
        enforce_session(store, token)
    }

    /// Checks that a user carries the required role.
    pub fn check_role(user: &User, role: &str) -> (r: Result<(), PolicyError>)
        ensures
            user.role@ == role@ ==> r == Ok::<(), PolicyError>(()),
            user.role@ != role@ ==> r == Err::<(), PolicyError>(PolicyError::Unauthorized),
    {
        enforce_role(user, role)
    }

    /// Checks that input is safe, returning its sanitized form.
    pub fn check_input(input: &str) -> (r: Result<String, PolicyError>)
        ensures
            is_malicious_spec(input@) ==> r == Err::<String, PolicyError>(
                PolicyError::MaliciousInput,
            ),
            !is_malicious_spec(input@) ==> (match r {
                Ok(s) => s@ == sanitize_seq(input@),
                Err(_) => false,
            }),
    {
        validate_input(input)
    }

    /// Checks that a path is free of traversal patterns.
    pub fn check_path(path: &str) -> (r: Result<String, PolicyError>)
        ensures
            unsafe_path_spec(path@) ==> r == Err::<String, PolicyError>(PolicyError::UnsafePath),
            !unsafe_path_spec(path@) ==> (match r {
                Ok(s) => s@ == path@,
                Err(_) => false,
            }),
    {
        safe_path(path)
    }

    /// Checks whether a route and payload look suspicious together.
    pub fn check_intrusion(route: &str, payload: &str) -> (r: bool)
        ensures
            r == detect_intrusion_spec(route@, payload@),
    {
        detect_intrusion(route, payload)
    }
}

} // verus!

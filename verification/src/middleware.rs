//! The policy pipeline: rate check, session check, role check and input
//! sanitization composed into one ordered, short-circuiting evaluation over
//! a request context.

use vstd::prelude::*;

use crate::auth::{SessionStore, User};
use crate::security::{
    is_malicious_spec, rate_admitted, rate_step, sanitize_seq, PolicyError, RateLimiter,
    SecurityPolicy,
};

verus! {

/// The ephemeral, per-call request context a pipeline evaluates.
pub struct MiddlewareContext {
    /// The opaque session token, if the caller presented one.
    pub session_token: Option<String>,
    /// The caller's identity, if known.
    pub user: Option<User>,
    /// The raw input to be checked, if any.
    pub input: Option<String>,
    /// The client id used for rate limiting.
    pub client_id: String,
}

/// A policy pipeline: a policy plus the rate limiter it was configured with.
pub struct Middleware {
    /// The configuration this pipeline enforces.
    pub policy: SecurityPolicy,
    /// The rate limiter, present exactly when the policy configures one.
    pub rate_limiter: Option<RateLimiter>,
}

/// Whether the rate stage of a pipeline admits the client's request at
/// `now`; a pipeline without a rate limiter admits every request.
pub open spec fn spec_rate_admits(m: Middleware, client: Seq<char>, now: u64) -> bool {
    match m.rate_limiter {
        Some(rl) => rate_admitted(rl.window_of(client), now, rl.max_requests as int,
        rl.window_secs),
        None => true,
    }
}

impl MiddlewareContext {
    /// The view of the session token.
    pub open spec fn token_view(&self) -> Option<Seq<char>> {
        match self.session_token {
            Some(t) => Some(t@),
            None => None,
        }
    }

    /// The view of the raw input.
    pub open spec fn input_view(&self) -> Option<Seq<char>> {
        match self.input {
            Some(s) => Some(s@),
            None => None,
        }
    }
}

/// The outcome of the four pipeline stages, given whether the rate stage admitted the request:
/// the first failing stage decides the error, later stages are not
/// evaluated, and on success the sanitized input (when stage four ran) is
/// exposed.
pub open spec fn spec_pipeline(
    policy: SecurityPolicy,
    rate_ok: bool,
    token: Option<Seq<char>>,
    user: Option<User>,
    input: Option<Seq<char>>,
    sessions: Map<Seq<char>, Seq<char>>,
) -> Result<Option<Seq<char>>, PolicyError> {
    if !rate_ok {
        Err(PolicyError::RateLimitExceeded)
    } else {
        match (policy.require_session, token) {
            (true, None) => Err(PolicyError::SessionRequired),
            (true, Some(t)) if !sessions.contains_key(t) => Err(PolicyError::InvalidSession),
            _ => match (policy.require_role, user) {
                (Some(_), None) => Err(PolicyError::IdentityRequired),
                (Some(required), Some(u)) if u.role@ != required@ => Err(
                    PolicyError::Unauthorized,
                ),
                _ => match (policy.sanitize_inputs, input) {
                    (true, Some(text)) => if is_malicious_spec(text) {
                        Err(PolicyError::MaliciousInput)
                    } else {
                        Ok(Some(sanitize_seq(text)))
                    },
                    _ => Ok(None),
                },
            },
        }
    }
}

/// The view of a pipeline outcome.
pub open spec fn outcome_view(r: Result<Option<String>, PolicyError>) -> Result<
    Option<Seq<char>>,
    PolicyError,
> {
    match r {
        Ok(Some(s)) => Ok(Some(s@)),
        Ok(None) => Ok(None),
        Err(e) => Err(e),
    }
}

/// Short-circuiting (one instance of it): when a session is required and the
/// context carries no token, the pipeline fails with `SessionRequired`, and
/// neither the role stage nor the sanitize stage influences the outcome,
/// whatever the identity and the input hold.
pub proof fn lemma_session_required_short_circuits(
    policy: SecurityPolicy,
    rate_ok: bool,
    user: Option<User>,
    input: Option<Seq<char>>,
    sessions: Map<Seq<char>, Seq<char>>,
)
    requires
        rate_ok,
        policy.require_session,
    ensures
        spec_pipeline(policy, rate_ok, None, user, input, sessions) == Err::<
            Option<Seq<char>>,
            PolicyError,
        >(PolicyError::SessionRequired),
{
}

impl Middleware {
    /// Builds a pipeline from a policy, constructing a rate limiter exactly
    /// when the policy configures one.
    pub fn new(policy: SecurityPolicy) -> (r: Middleware)
        ensures
            r.policy == policy,
            match policy.rate_limit {
                Some((max, window)) => {
                    &&& r.rate_limiter matches Some(rl)
                    &&& rl.max_requests == max
                    &&& rl.window_secs == window
                    &&& forall|c: Seq<char>| rl.window_of(c) == Seq::<u64>::empty()
                },
                None => r.rate_limiter is None,
            },
    {
        let rate_limiter = match policy.rate_limit {
            Some((max, window)) => Some(RateLimiter::new(max, window)),
            None => None,
        };
        Middleware { policy, rate_limiter }
    }

    /// Runs the pipeline stages in their fixed order, stopping at the first
    /// failure. Only the rate stage mutates state: the client's window is
    /// evicted and, on admission, extended, whether or not a later stage
    /// fails; all other clients' windows are untouched.
    pub fn run(&mut self, ctx: &MiddlewareContext, sessions: &SessionStore, now_secs: u64) -> (r:
        Result<Option<String>, PolicyError>)
        ensures
            outcome_view(r) == spec_pipeline(
                old(self).policy,
                spec_rate_admits(*old(self), ctx.client_id@, now_secs),
                ctx.token_view(),
                ctx.user,
                ctx.input_view(),
                sessions@,
            ),
            final(self).policy == old(self).policy,
            old(self).rate_limiter is None ==> final(self).rate_limiter is None,
            old(self).rate_limiter matches Some(rl0) ==> {
                &&& final(self).rate_limiter matches Some(rl1)
                &&& rl1.max_requests == rl0.max_requests
                &&& rl1.window_secs == rl0.window_secs
                &&& rl1.window_of(ctx.client_id@) == rate_step(
                    rl0.window_of(ctx.client_id@),
                    now_secs,
                    rl0.max_requests as int,
                    rl0.window_secs,
                )
                &&& forall|c: Seq<char>|
                    c != ctx.client_id@ ==> rl1.window_of(c) == rl0.window_of(c)
            },
    {
        // Stage 1: rate limiting.
        match self.rate_limiter.take() {
            Some(mut limiter) => {
                let ok = limiter.allow(ctx.client_id.as_str(), now_secs);
                self.rate_limiter = Some(limiter);
                if !ok {
                    return Err(PolicyError::RateLimitExceeded);
                }
            },
            None => {},
        }
        // Stage 2: session enforcement.
        if self.policy.require_session {
            match &ctx.session_token {
                Some(token) => {
                    if !crate::auth::validate_session(sessions, token.as_str()) {
                        return Err(PolicyError::InvalidSession);
                    }
                },
                None => {
                    return Err(PolicyError::SessionRequired);
                },
            }
        }
        // Stage 3: role enforcement.
        match &self.policy.require_role {
            Some(required) => {
                match &ctx.user {
                    Some(user) => {
                        match crate::security::enforce_role(user, required.as_str()) {
                            Ok(()) => {},
                            Err(e) => {
                                return Err(e);
                            },
                        }
                    },
                    None => {
                        return Err(PolicyError::IdentityRequired);
                    },
                }
            },
            None => {},
        }
        // Stage 4: input sanitization.
        if self.policy.sanitize_inputs {
            match &ctx.input {
                Some(input) => {
                    match crate::security::validate_input(input.as_str()) {
                        Ok(sanitized) => Ok(Some(sanitized)),
                        Err(e) => Err(e),
                    }
                },
                None => Ok(None),
            }
        } else {
            Ok(None)
        }
    }
}

} // verus!

use sentinel::auth::{SessionStore, User};
use sentinel::middleware::{Middleware, MiddlewareContext};
use sentinel::security::{PolicyError, SecurityPolicy};

fn admin_user() -> User {
    User {
        username: "alice".to_string(),
        password_hash: "h".to_string(),
        role: "admin".to_string(),
    }
}

fn strict_policy() -> SecurityPolicy {
    SecurityPolicy {
        require_session: true,
        require_role: Some("admin".to_string()),
        sanitize_inputs: true,
        rate_limit: None,
    }
}

fn ctx(
    token: Option<&str>,
    user: Option<User>,
    input: Option<&str>,
) -> MiddlewareContext {
    MiddlewareContext {
        session_token: token.map(|t| t.to_string()),
        user,
        input: input.map(|i| i.to_string()),
        client_id: "client".to_string(),
    }
}

#[test]
fn default_policy_requires_session_and_sanitizes() {
    let policy = SecurityPolicy::default();
    assert!(policy.require_session);
    assert!(policy.require_role.is_none());
    assert!(policy.sanitize_inputs);
    assert!(policy.rate_limit.is_none());
}

#[test]
fn missing_token_fails_before_role_and_sanitize_stages() {
    let mut pipeline = Middleware::new(strict_policy());
    let store = SessionStore::new();
    // The context would also fail the role check (no identity) and the
    // sanitize check (malicious input); the session stage must win.
    let context = ctx(None, None, Some("'; DROP TABLE users; --"));
    assert_eq!(
        pipeline.run(&context, &store, 0),
        Err(PolicyError::SessionRequired)
    );
}

#[test]
fn unrecognized_token_is_an_invalid_session() {
    let mut pipeline = Middleware::new(strict_policy());
    let store = SessionStore::new();
    let context = ctx(Some("made-up"), Some(admin_user()), None);
    assert_eq!(
        pipeline.run(&context, &store, 0),
        Err(PolicyError::InvalidSession)
    );
}

#[test]
fn missing_identity_fails_the_role_stage() {
    let mut pipeline = Middleware::new(strict_policy());
    let mut store = SessionStore::new();
    let token = store.issue("alice");
    let context = ctx(Some(&token), None, None);
    assert_eq!(
        pipeline.run(&context, &store, 0),
        Err(PolicyError::IdentityRequired)
    );
}

#[test]
fn wrong_role_is_unauthorized() {
    let mut pipeline = Middleware::new(strict_policy());
    let mut store = SessionStore::new();
    let token = store.issue("bob");
    let mut user = admin_user();
    user.role = "viewer".to_string();
    let context = ctx(Some(&token), Some(user), None);
    assert_eq!(
        pipeline.run(&context, &store, 0),
        Err(PolicyError::Unauthorized)
    );
}

#[test]
fn malicious_input_fails_the_sanitize_stage() {
    let mut pipeline = Middleware::new(strict_policy());
    let mut store = SessionStore::new();
    let token = store.issue("alice");
    let context = ctx(Some(&token), Some(admin_user()), Some("<script>alert(1)</script>"));
    assert_eq!(
        pipeline.run(&context, &store, 0),
        Err(PolicyError::MaliciousInput)
    );
}

#[test]
fn successful_evaluation_exposes_the_sanitized_input() {
    let mut pipeline = Middleware::new(strict_policy());
    let mut store = SessionStore::new();
    let token = store.issue("alice");
    let context = ctx(Some(&token), Some(admin_user()), Some("a < b"));
    assert_eq!(
        pipeline.run(&context, &store, 0),
        Ok(Some("a &lt; b".to_string()))
    );
}

#[test]
fn success_without_input_returns_nothing() {
    let mut pipeline = Middleware::new(strict_policy());
    let mut store = SessionStore::new();
    let token = store.issue("alice");
    let context = ctx(Some(&token), Some(admin_user()), None);
    assert_eq!(pipeline.run(&context, &store, 0), Ok(None));
}

#[test]
fn rate_stage_runs_first_and_sticks() {
    let policy = SecurityPolicy {
        require_session: false,
        require_role: None,
        sanitize_inputs: false,
        rate_limit: Some((1, 10)),
    };
    let mut pipeline = Middleware::new(policy);
    let store = SessionStore::new();
    let context = ctx(None, None, None);
    assert_eq!(pipeline.run(&context, &store, 100), Ok(None));
    assert_eq!(
        pipeline.run(&context, &store, 101),
        Err(PolicyError::RateLimitExceeded)
    );
    // After the window passes, the client is admitted again.
    assert_eq!(pipeline.run(&context, &store, 111), Ok(None));
}

#[test]
fn runtime_runs_middleware_against_its_own_sessions() {
    let mut runtime: sentinel::runtime::Runtime<sentinel::extensions::PassThrough> =
        sentinel::runtime::Runtime::new("proj");
    let user = runtime
        .backend
        .register_user("zoe", "pw", "admin", "saltsalt", false)
        .unwrap();
    let token = runtime.backend.login_user(&user, "pw", "saltsalt", false).unwrap();
    let mut pipeline = Middleware::new(strict_policy());
    let outcome = runtime.run_middleware(
        &mut pipeline,
        Some(&token),
        Some(&user),
        Some("x > y"),
        "client",
        0,
    );
    assert_eq!(outcome, Ok(Some("x &gt; y".to_string())));
    let denied = runtime.run_middleware(&mut pipeline, None, None, None, "client", 0);
    assert_eq!(denied, Err(PolicyError::SessionRequired));
}

//! The core security layer: input sanitization, a malicious-input heuristic,
//! session and role enforcement, path safety, sliding-window rate limiting,
//! basic intrusion detection and the security policy value object.

use vstd::prelude::*;

use crate::auth::{SessionStore, User};
use crate::strutil::{
    chars_of, contains_sub, is_sub, lower_seq, lower_vec, to_uppercase_str, unicode_upper,
};

verus! {

use vstd::string::StringExecFns;

/// The error kinds a policy evaluation can surface.
#[derive(Clone, Copy, Debug, PartialEq, Eq, Structural)]
pub enum PolicyError {
    /// Admission denied by the rate limiter.
    RateLimitExceeded,
    /// A session token is required but absent.
    SessionRequired,
    /// The supplied session token is not recognized.
    InvalidSession,
    /// An identity is required for role enforcement but absent.
    IdentityRequired,
    /// The identity does not carry the required role.
    Unauthorized,
    /// The malicious-input heuristic triggered.
    MaliciousInput,
    /// The path-traversal heuristic triggered.
    UnsafePath,
}

impl PolicyError {
    /// The descriptive text of each error kind.
    pub open spec fn spec_message(&self) -> Seq<char> {
        match self {
            PolicyError::RateLimitExceeded => "Rate limit exceeded"@,
            PolicyError::SessionRequired => "Session token required"@,
            PolicyError::InvalidSession => "Invalid or expired session token"@,
            PolicyError::IdentityRequired => "User required for role enforcement"@,
            PolicyError::Unauthorized => "User does not have required role"@,
            PolicyError::MaliciousInput => "Potentially malicious input detected"@,
            PolicyError::UnsafePath => "Unsafe path detected"@,
        }
    }

    /// A descriptive string suitable for logging or display.
    pub fn message(&self) -> (r: String)
        ensures
            r@ == self.spec_message(),
    {
        match self {
            PolicyError::RateLimitExceeded => "Rate limit exceeded".to_owned(),
            PolicyError::SessionRequired => "Session token required".to_owned(),
            PolicyError::InvalidSession => "Invalid or expired session token".to_owned(),
            PolicyError::IdentityRequired => "User required for role enforcement".to_owned(),
            PolicyError::Unauthorized => "User does not have required role".to_owned(),
            PolicyError::MaliciousInput => "Potentially malicious input detected".to_owned(),
            PolicyError::UnsafePath => "Unsafe path detected".to_owned(),
        }
    }
}

/// The characters that sanitization escapes.
pub open spec fn special_char(c: char) -> bool {
    c == '<' || c == '>' || c == '"' || c == '\'' || c == '`'
}

/// The HTML-entity escape of one character; other characters pass through.
pub open spec fn escape_char(c: char) -> Seq<char> {
    if c == '<' {
        "&lt;"@
    } else if c == '>' {
        "&gt;"@
    } else if c == '"' {
        "&quot;"@
    } else if c == '\'' {
        "&#39;"@
    } else if c == '`' {
        "&#96;"@
    } else {
        seq![c]
    }
}

/// The sanitized form of a string: each character replaced by its escape.
pub open spec fn sanitize_seq(s: Seq<char>) -> Seq<char>
    decreases s.len(),
{
    if s.len() == 0 {
        Seq::empty()
    } else {
        escape_char(s[0]) + sanitize_seq(s.drop_first())
    }
}

/// Sanitizing a string extended by one character appends that character's
/// escape.
pub proof fn lemma_sanitize_snoc(s: Seq<char>, c: char)
    ensures
        sanitize_seq(s.push(c)) == sanitize_seq(s) + escape_char(c),
    decreases s.len(),
{
    if s.len() == 0 {
        assert(s.push(c)[0] == c);
        assert(s.push(c).drop_first() =~= Seq::<char>::empty());
        assert(sanitize_seq(Seq::<char>::empty()) == Seq::<char>::empty());
        assert(sanitize_seq(s.push(c)) == escape_char(c) + sanitize_seq(s.push(c).drop_first()));
        assert(sanitize_seq(s) == Seq::<char>::empty());
        assert(sanitize_seq(s.push(c)) =~= sanitize_seq(s) + escape_char(c));
    } else {
        assert(s.push(c)[0] == s[0]);
        assert(s.push(c).drop_first() =~= s.drop_first().push(c));
        lemma_sanitize_snoc(s.drop_first(), c);
        assert(sanitize_seq(s.push(c)) =~= sanitize_seq(s) + escape_char(c));
    }
}

/// Escapes the characters `<`, `>`, `"`, `'` and `` ` `` to their
/// HTML-entity equivalents. The ampersand itself is not escaped.
pub fn sanitize(input: &str) -> (r: String)
    ensures
        r@ == sanitize_seq(input@),
{
    let v = chars_of(input);
    let n = v.len();
    let mut out = String::new();
    let mut i: usize = 0;
    while i < n
        invariant
            n == v.len(),
            v@ == input@,
            i <= n,
            out@ == sanitize_seq(v@.take(i as int)),
        decreases n - i,
    {
        let c = v[i];
        proof {
            lemma_sanitize_snoc(v@.take(i as int), c);
            assert(v@.take(i + 1) =~= v@.take(i as int).push(c));
        }
        if c == '<' {
            out.append("&lt;");
        } else if c == '>' {
            out.append("&gt;");
        } else if c == '"' {
            out.append("&quot;");
        } else if c == '\'' {
            out.append("&#39;");
        } else if c == '`' {
            out.append("&#96;");
        } else {
            crate::strutil::push_char(&mut out, c);
            proof {
                assert(sanitize_seq(v@.take(i as int)).push(c) =~= sanitize_seq(
                    v@.take(i as int),
                ) + escape_char(c));
            }
        }
        i = i + 1;
    }
    proof {
        assert(v@.take(n as int) =~= v@);
    }
    out
}

/// No character of an escape sequence is itself subject to escaping.
pub proof fn lemma_escape_no_specials(c: char)
    ensures
        forall|i: int|
            0 <= i < escape_char(c).len() ==> !special_char(#[trigger] escape_char(c)[i]),
{
    reveal_strlit("&lt;");
    reveal_strlit("&gt;");
    reveal_strlit("&quot;");
    reveal_strlit("&#39;");
    reveal_strlit("&#96;");
}

/// Every character of a sanitized string is outside the escaped set.
pub proof fn lemma_sanitize_no_specials(s: Seq<char>)
    ensures
        forall|i: int|
            0 <= i < sanitize_seq(s).len() ==> !special_char(#[trigger] sanitize_seq(s)[i]),
    decreases s.len(),
{
    if s.len() == 0 {
    } else {
        lemma_escape_no_specials(s[0]);
        lemma_sanitize_no_specials(s.drop_first());
        assert forall|i: int| 0 <= i < sanitize_seq(s).len() implies !special_char(
            #[trigger] sanitize_seq(s)[i],
        ) by {
            let head = escape_char(s[0]);
            let tail = sanitize_seq(s.drop_first());
            if i < head.len() {
                assert(sanitize_seq(s)[i] == head[i]);
            } else {
                assert(sanitize_seq(s)[i] == tail[i - head.len()]);
            }
        }
    }
}

/// Sanitization leaves a string without escapable characters unchanged.
pub proof fn lemma_sanitize_identity_on_clean(s: Seq<char>)
    requires
        forall|i: int| 0 <= i < s.len() ==> !special_char(#[trigger] s[i]),
    ensures
        sanitize_seq(s) == s,
    decreases s.len(),
{
    if s.len() == 0 {
        assert(sanitize_seq(s) =~= s);
    } else {
        assert(!special_char(s[0]));
        assert(escape_char(s[0]) =~= seq![s[0]]);
        assert forall|i: int| 0 <= i < s.drop_first().len() implies !special_char(
            #[trigger] s.drop_first()[i],
        ) by {
            assert(s.drop_first()[i] == s[i + 1]);
        }
        lemma_sanitize_identity_on_clean(s.drop_first());
        assert(sanitize_seq(s) =~= s);
    }
}

/// Sanitization is idempotent: a second pass never alters the output of the
/// first, because the first pass leaves no character that the second would
/// escape.
pub proof fn lemma_sanitize_idempotent(s: Seq<char>)
    ensures
        sanitize_seq(sanitize_seq(s)) == sanitize_seq(s),
{
    lemma_sanitize_no_specials(s);
    lemma_sanitize_identity_on_clean(sanitize_seq(s));
}

/// The malicious-input heuristic: a case-insensitive substring match
/// against a fixed blacklist.
pub open spec fn is_malicious_spec(s: Seq<char>) -> bool {
    ||| is_sub(lower_seq(s), "script"@)
    ||| is_sub(lower_seq(s), "onerror"@)
    ||| is_sub(lower_seq(s), "onload"@)
    ||| is_sub(lower_seq(s), "drop table"@)
    ||| is_sub(lower_seq(s), "delete from"@)
    ||| is_sub(lower_seq(s), "--"@)
    ||| is_sub(lower_seq(s), "/*"@)
}

/// Checks the input against the blacklist, ignoring ASCII case.
pub fn is_malicious(input: &str) -> (r: bool)
    ensures
        r == is_malicious_spec(input@),
{
    let v = chars_of(input);
    let lowered = lower_vec(&v);
    let p1 = chars_of("script");
    let p2 = chars_of("onerror");
    let p3 = chars_of("onload");
    let p4 = chars_of("drop table");
    let p5 = chars_of("delete from");
    let p6 = chars_of("--");
    let p7 = chars_of("/*");
    contains_sub(&lowered, &p1) || contains_sub(&lowered, &p2) || contains_sub(&lowered, &p3)
        || contains_sub(&lowered, &p4) || contains_sub(&lowered, &p5) || contains_sub(
        &lowered,
        &p6,
    ) || contains_sub(&lowered, &p7)
}

/// Validates input: rejects a malicious string without transforming it,
/// otherwise returns the sanitized text.
pub fn validate_input(input: &str) -> (r: Result<String, PolicyError>)
    ensures
        is_malicious_spec(input@) ==> r == Err::<String, PolicyError>(PolicyError::MaliciousInput),
        !is_malicious_spec(input@) ==> (match r {
            Ok(s) => s@ == sanitize_seq(input@),
            Err(_) => false,
        }),
{
    if is_malicious(input) {
        Err(PolicyError::MaliciousInput)
    } else {
        Ok(sanitize(input))
    }
}

/// Ensures the session token is recorded in the store.
pub fn enforce_session(store: &SessionStore, token: &str) -> (r: Result<(), PolicyError>)
    ensures
        store@.contains_key(token@) ==> r == Ok::<(), PolicyError>(()),
        !store@.contains_key(token@) ==> r == Err::<(), PolicyError>(PolicyError::InvalidSession),
{
    if crate::auth::validate_session(store, token) {
        Ok(())
    } else {
        Err(PolicyError::InvalidSession)
    }
}

/// Ensures the user carries exactly the required role.
pub fn enforce_role(user: &User, required: &str) -> (r: Result<(), PolicyError>)
    ensures
        user.role@ == required@ ==> r == Ok::<(), PolicyError>(()),
        user.role@ != required@ ==> r == Err::<(), PolicyError>(PolicyError::Unauthorized),
{
    if crate::auth::user_has_role(user, required) {
        Ok(())
    } else {
        Err(PolicyError::Unauthorized)
    }
}

/// The path-traversal heuristic: a parent-directory reference, a doubled
/// forward slash or a doubled backslash.
pub open spec fn unsafe_path_spec(p: Seq<char>) -> bool {
    ||| is_sub(p, ".."@)
    ||| is_sub(p, "//"@)
    ||| is_sub(p, "\\\\"@)
}

/// Rejects unsafe paths; a safe path passes through unchanged, with no
/// normalization.
pub fn safe_path(path: &str) -> (r: Result<String, PolicyError>)
    ensures
        unsafe_path_spec(path@) ==> r == Err::<String, PolicyError>(PolicyError::UnsafePath),
        !unsafe_path_spec(path@) ==> (match r {
            Ok(s) => s@ == path@,
            Err(_) => false,
        }),
{
    let v = chars_of(path);
    let p1 = chars_of("..");
    let p2 = chars_of("//");
    let p3 = chars_of("\\\\");
    if contains_sub(&v, &p1) || contains_sub(&v, &p2) || contains_sub(&v, &p3) {
        Err(PolicyError::UnsafePath)
    } else {
        Ok(path.to_owned())
    }
}

/// The intrusion heuristic: a suspicious route name combined with a
/// suspicious keyword in the Unicode upper-cased payload.
pub open spec fn detect_intrusion_spec(route: Seq<char>, payload: Seq<char>) -> bool {
    &&& {
        ||| is_sub(route, "admin"@)
        ||| is_sub(route, "root"@)
        ||| is_sub(route, "system"@)
    }
    &&& {
        ||| is_sub(unicode_upper(payload), "DROP"@)
        ||| is_sub(unicode_upper(payload), "DELETE"@)
        ||| is_sub(unicode_upper(payload), "INSERT"@)
        ||| is_sub(unicode_upper(payload), "EXEC"@)
    }
}

/// A timestamp has aged out of the window at the given moment.
pub open spec fn ts_old(t: u64, now: u64, window: u64) -> bool {
    now - t > window
}

/// Lazy front eviction: timestamps are dropped from the front of a window
/// while they have aged out; the scan stops at the first recent one.
pub open spec fn rate_evict(win: Seq<u64>, now: u64, window: u64) -> Seq<u64>
    decreases win.len(),
{
    if win.len() > 0 && ts_old(win[0], now, window) {
        rate_evict(win.drop_first(), now, window)
    } else {
        win
    }
}

/// Whether a request at `now` is admitted against a window state.
pub open spec fn rate_admitted(win: Seq<u64>, now: u64, max: int, window: u64) -> bool {
    rate_evict(win, now, window).len() < max
}

/// The window state after a request at `now`: evicted, and extended by `now`
/// exactly when the request was admitted.
pub open spec fn rate_step(win: Seq<u64>, now: u64, max: int, window: u64) -> Seq<u64> {
    if rate_admitted(win, now, max, window) {
        rate_evict(win, now, window).push(now)
    } else {
        rate_evict(win, now, window)
    }
}

/// Eviction never lengthens a window.
pub proof fn lemma_evict_len(win: Seq<u64>, now: u64, window: u64)
    ensures
        rate_evict(win, now, window).len() <= win.len(),
    decreases win.len(),
{
    if win.len() > 0 && ts_old(win[0], now, window) {
        lemma_evict_len(win.drop_first(), now, window);
    }
}

/// A window whose front entry is still recent is not evicted from at all.
pub proof fn lemma_evict_identity(win: Seq<u64>, now: u64, window: u64)
    requires
        win.len() == 0 || !ts_old(win[0], now, window),
    ensures
        rate_evict(win, now, window) == win,
{
}

/// Timestamps in nondecreasing order.
pub open spec fn nondecreasing(times: Seq<u64>) -> bool {
    forall|i: int, j: int| 0 <= i <= j < times.len() ==> times[i] <= times[j]
}

/// The window state after a run of requests, oldest first, starting from an
/// empty window.
pub open spec fn rate_run(times: Seq<u64>, max: int, window: u64) -> Seq<u64>
    decreases times.len(),
{
    if times.len() == 0 {
        Seq::empty()
    } else {
        rate_step(rate_run(times.drop_last(), max, window), times.last(), max, window)
    }
}

/// Every request of the run was admitted.
pub open spec fn all_admitted(times: Seq<u64>, max: int, window: u64) -> bool
    decreases times.len(),
{
    if times.len() == 0 {
        true
    } else {
        all_admitted(times.drop_last(), max, window) && rate_admitted(
            rate_run(times.drop_last(), max, window),
            times.last(),
            max,
            window,
        )
    }
}

/// The first admissions law: starting from an empty window, at most `max`
/// requests whose times are nondecreasing and all fall within one window
/// span are all admitted, and the window then holds exactly those times.
pub proof fn lemma_rate_first_span_admitted(times: Seq<u64>, max: int, window: u64)
    requires
        times.len() <= max,
        nondecreasing(times),
        times.len() > 0 ==> times.last() - times.first() <= window,
    ensures
        all_admitted(times, max, window),
        rate_run(times, max, window) == times,
    decreases times.len(),
{
    if times.len() == 0 {
        assert(rate_run(times, max, window) =~= times);
    } else {
        let prefix = times.drop_last();
        assert(nondecreasing(prefix));
        if prefix.len() > 0 {
            assert(prefix.last() == times[times.len() - 2]);
            assert(prefix.last() - prefix.first() <= window);
        }
        lemma_rate_first_span_admitted(prefix, max, window);
        if prefix.len() > 0 {
            assert(prefix[0] == times.first());
            assert(times.last() - prefix[0] <= window);
            assert(!ts_old(prefix[0], times.last(), window));
        }
        lemma_evict_identity(prefix, times.last(), window);
        assert(rate_admitted(prefix, times.last(), max, window));
        assert(rate_run(times, max, window) =~= times);
    }
}

/// The rejection law: a request against a full window whose oldest entry is
/// still within the window span is rejected, and the window is unchanged.
pub proof fn lemma_rate_over_limit_rejected(win: Seq<u64>, now: u64, max: int, window: u64)
    requires
        max >= 1,
        win.len() == max,
        now - win[0] <= window,
    ensures
        !rate_admitted(win, now, max, window),
        rate_step(win, now, max, window) == win,
{
    lemma_evict_identity(win, now, window);
}

/// The re-admission law: once the oldest entry of a full window has aged
/// past the window span, the next request is admitted again.
pub proof fn lemma_rate_readmitted_after_window(win: Seq<u64>, now: u64, max: int, window: u64)
    requires
        max >= 1,
        win.len() == max,
        now - win[0] > window,
    ensures
        rate_admitted(win, now, max, window),
{
    lemma_evict_len(win.drop_first(), now, window);
}

/// A window within its capacity stays within it across any request: the
/// window's length never exceeds the configured maximum at the moment
/// admission is evaluated.
pub proof fn lemma_window_never_exceeds_max(win: Seq<u64>, now: u64, max: int, window: u64)
    requires
        win.len() <= max,
    ensures
        rate_step(win, now, max, window).len() <= max,
{
    lemma_evict_len(win, now, window);
}

/// The full admission cycle, for one client starting from an empty window:
/// the first `max` requests within one window span are all admitted; one
/// more within the same span is rejected and leaves the window unchanged;
/// and once the window length has elapsed since the oldest admission, a
/// request is admitted again.
pub proof fn lemma_rate_limit_cycle(
    times: Seq<u64>,
    reject_at: u64,
    admit_at: u64,
    max: int,
    window: u64,
)
    requires
        max >= 1,
        times.len() == max,
        nondecreasing(times),
        times.last() - times[0] <= window,
        reject_at - times[0] <= window,
        admit_at - times[0] > window,
    ensures
        all_admitted(times, max, window),
        rate_run(times, max, window) == times,
        !rate_admitted(rate_run(times, max, window), reject_at, max, window),
        rate_step(rate_run(times, max, window), reject_at, max, window) == times,
        rate_admitted(
            rate_step(rate_run(times, max, window), reject_at, max, window),
            admit_at,
            max,
            window,
        ),
{
    lemma_rate_first_span_admitted(times, max, window);
    lemma_rate_over_limit_rejected(times, reject_at, max, window);
    lemma_rate_readmitted_after_window(times, admit_at, max, window);
}

/// Simple in-memory sliding-window rate limiter: one window of admission
/// timestamps per client, evicted lazily at check time. Windows of idle
/// clients are never dropped.
pub struct RateLimiter {
    /// The capacity of each client's window.
    pub max_requests: usize,
    /// The window length, in seconds.
    pub window_secs: u64,
    /// One window of admission timestamps per client id.
    pub windows: vstd::hash_map::StringHashMap<Vec<u64>>,
}

impl RateLimiter {
    /// The admission-timestamp window of one client; clients never seen have
    /// an empty window.
    pub closed spec fn window_of(&self, client: Seq<char>) -> Seq<u64> {
        if self.windows@.contains_key(client) {
            self.windows@[client]@
        } else {
            Seq::empty()
        }
    }

    /// Creates a rate limiter admitting at most `max_requests` requests per
    /// client in any `window_seconds`-second span.
    pub fn new(max_requests: usize, window_seconds: u64) -> (r: Self)
        ensures
            r.max_requests == max_requests,
            r.window_secs == window_seconds,
            forall|c: Seq<char>| r.window_of(c) == Seq::<u64>::empty(),
    {
        RateLimiter {
            max_requests,
            window_secs: window_seconds,
            windows: vstd::hash_map::StringHashMap::new(),
        }
    }

    /// Decides whether the client's request at time `now_secs` is admitted:
    /// aged-out timestamps are dropped from the front of the client's
    /// window, the request is admitted exactly when the remaining count is
    /// below the maximum, and an admitted request is recorded. Windows of
    /// other clients are untouched.
    pub fn allow(&mut self, client_id: &str, now_secs: u64) -> (admitted: bool)
        ensures
            admitted == rate_admitted(
                old(self).window_of(client_id@),
                now_secs,
                old(self).max_requests as int,
                old(self).window_secs,
            ),
            final(self).window_of(client_id@) == rate_step(
                old(self).window_of(client_id@),
                now_secs,
                old(self).max_requests as int,
                old(self).window_secs,
            ),
            forall|c: Seq<char>|
                c != client_id@ ==> final(self).window_of(c) == old(self).window_of(c),
            final(self).max_requests == old(self).max_requests,
            final(self).window_secs == old(self).window_secs,
    {
        let ghost win0 = self.window_of(client_id@);
        let window = self.window_secs;
        let mut kept: Vec<u64> = Vec::new();
        match self.windows.get(client_id) {
            Some(w) => {
                let len = w.len();
                let mut j: usize = 0;
                proof {
                    assert(w@.skip(0) =~= w@);
                }
                while j < len && w[j] <= now_secs && now_secs - w[j] > window
                    invariant
                        len == w.len(),
                        j <= len,
                        rate_evict(w@, now_secs, window) == rate_evict(
                            w@.skip(j as int),
                            now_secs,
                            window,
                        ),
                    decreases len - j,
                {
                    proof {
                        let tail = w@.skip(j as int);
                        assert(tail[0] == w@[j as int]);
                        assert(ts_old(tail[0], now_secs, window));
                        assert(tail.drop_first() =~= w@.skip(j + 1));
                    }
                    j = j + 1;
                }
                proof {
                    let tail = w@.skip(j as int);
                    if j < len {
                        assert(tail[0] == w@[j as int]);
                        assert(!ts_old(tail[0], now_secs, window));
                    }
                    lemma_evict_identity(tail, now_secs, window);
                }
                let mut k: usize = j;
                while k < len
                    invariant
                        len == w.len(),
                        j <= k <= len,
                        kept@ == w@.subrange(j as int, k as int),
                    decreases len - k,
                {
                    kept.push(w[k]);
                    k = k + 1;
                    proof {
                        assert(kept@ =~= w@.subrange(j as int, k as int));
                    }
                }
                proof {
                    assert(w@.subrange(j as int, len as int) =~= w@.skip(j as int));
                    assert(kept@ == rate_evict(win0, now_secs, window));
                }
            },
            None => {
                proof {
                    assert(win0 =~= Seq::<u64>::empty());
                    assert(kept@ == rate_evict(win0, now_secs, window));
                }
            },
        }
        let admitted = kept.len() < self.max_requests;
        if admitted {
            kept.push(now_secs);
        }
        self.windows.insert(client_id.to_owned(), kept);
        proof {
            assert(final(self).window_of(client_id@) == rate_step(
                win0,
                now_secs,
                old(self).max_requests as int,
                old(self).window_secs,
            ));
        }
        admitted
    }
}

/// The configuration value object of a policy pipeline; immutable once a
/// pipeline is built from it.
#[derive(Clone, Debug)]
pub struct SecurityPolicy {
    /// Require a valid session token.
    pub require_session: bool,
    /// Require this role, when set.
    pub require_role: Option<String>,
    /// Sanitize the raw input, when present.
    pub sanitize_inputs: bool,
    /// Rate-limit configuration: maximum requests and window seconds.
    pub rate_limit: Option<(usize, u64)>,
}

impl Default for SecurityPolicy {
    /// The default policy: sessions required, inputs sanitized, no role
    /// requirement and no rate limit.
    fn default() -> (r: Self)
        ensures
            r.require_session,
            r.require_role is None,
            r.sanitize_inputs,
            r.rate_limit is None,
    {
        SecurityPolicy {
            require_session: true,
            require_role: None,
            sanitize_inputs: true,
            rate_limit: None,
        }
    }
}

/// Detects suspicious API usage patterns.
pub fn detect_intrusion(route: &str, payload: &str) -> (r: bool)
    ensures
        r == detect_intrusion_spec(route@, payload@),
{
    let rv = chars_of(route);
    let r1 = chars_of("admin");
    let r2 = chars_of("root");
    let r3 = chars_of("system");
    let route_hit = contains_sub(&rv, &r1) || contains_sub(&rv, &r2) || contains_sub(&rv, &r3);
    let upper = to_uppercase_str(payload);
    let pv = chars_of(upper.as_str());
    let k1 = chars_of("DROP");
    let k2 = chars_of("DELETE");
    let k3 = chars_of("INSERT");
    let k4 = chars_of("EXEC");
    let payload_hit = contains_sub(&pv, &k1) || contains_sub(&pv, &k2) || contains_sub(&pv, &k3)
        || contains_sub(&pv, &k4);
    route_hit && payload_hit
}

} // verus!

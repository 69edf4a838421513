//! The decisions of the server runtime: limits, the authentication rate limiter,
//! environment filtering, and what each stage of a request stream answers.
use vstd::prelude::*;

use crate::protocol::{
    message_debug, message_text, ClientHello, ClientRequest, ErrorCode, Message, OutputStream,
    PutRequest, Response,
    RemoteError,
    DEFAULT_MAX_COMMAND_SECS, DEFAULT_MAX_CONCURRENT_COMMANDS, DEFAULT_MAX_CONNECTIONS,
    DEFAULT_MAX_FILE_SIZE,
};
use crate::auth::spec_sha256;
use crate::transfer::{digest_input, FileSender, TransferDigest};
use crate::text::{
    debug_str, debug_str_known, decimal, occurs_at, push_decimal, seq_contains, seq_starts_with, spec_debug_str, str_contains,
    str_starts_with,
};

verus! {

#[derive(Debug, Clone, Copy, PartialEq, Eq, Structural)]
pub enum NetworkMode {
    Public,
    LocalOnly,
}

/// The resource limits a server enforces.
#[derive(Debug, Clone, PartialEq, Eq, Structural)]
pub struct ServerLimits {
    pub max_connections: usize,
    pub max_concurrent_commands: usize,
    pub max_file_size: u64,
    pub max_command_secs: u64,
}

impl Default for ServerLimits {
    fn default() -> (r: Self)
        ensures
            r.max_connections == DEFAULT_MAX_CONNECTIONS,
            r.max_concurrent_commands == DEFAULT_MAX_CONCURRENT_COMMANDS,
            r.max_file_size == DEFAULT_MAX_FILE_SIZE,
            r.max_command_secs == DEFAULT_MAX_COMMAND_SECS,
    {
        ServerLimits {
            max_connections: DEFAULT_MAX_CONNECTIONS,
            max_concurrent_commands: DEFAULT_MAX_CONCURRENT_COMMANDS,
            max_file_size: DEFAULT_MAX_FILE_SIZE,
            max_command_secs: DEFAULT_MAX_COMMAND_SECS,
        }
    }
}

/// How a server is started. `data_dir` is the directory for the identity key and
/// staging files, as text.
#[derive(Clone)]
pub struct ServerConfig {
    pub password: String,
    pub name: String,
    pub data_dir: Option<String>,
    pub network_mode: NetworkMode,
    pub limits: Option<ServerLimits>,
}

pub open spec fn network_mode_text(m: NetworkMode) -> Seq<char> {
    match m {
        NetworkMode::Public => "Public"@,
        NetworkMode::LocalOnly => "LocalOnly"@,
    }
}

/// The `{:?}` text of a `ServerLimits`.
pub open spec fn limits_text(l: ServerLimits) -> Seq<char> {
    "ServerLimits { max_connections: "@ + decimal(l.max_connections as nat)
        + ", max_concurrent_commands: "@ + decimal(l.max_concurrent_commands as nat)
        + ", max_file_size: "@ + decimal(l.max_file_size as nat)
        + ", max_command_secs: "@ + decimal(l.max_command_secs as nat) + " }"@
}

/// The debug text of a server configuration. The password is not an argument:
/// the text shows `"<redacted>"` in its place.
pub open spec fn config_text(
    name: Seq<char>,
    data_dir: Option<Seq<char>>,
    mode: NetworkMode,
    limits: Option<ServerLimits>,
) -> Seq<char> {
    "ServerConfig { password: \"<redacted>\", name: "@ + spec_debug_str(name)
        + ", data_dir: "@ + match data_dir {
            None => "None"@,
            Some(d) => "Some("@ + spec_debug_str(d) + ")"@,
        } + ", network_mode: "@ + network_mode_text(mode) + ", limits: "@ + match limits {
            None => "None"@,
            Some(l) => "Some("@ + limits_text(l) + ")"@,
        } + " }"@
}

pub open spec fn opt_view(o: Option<String>) -> Option<Seq<char>> {
    match o {
        None => None,
        Some(s) => Some(s@),
    }
}

fn network_mode_str(m: NetworkMode) -> (r: &'static str)
    ensures
        r@ == network_mode_text(m),
{
    match m {
        NetworkMode::Public => "Public",
        NetworkMode::LocalOnly => "LocalOnly",
    }
}

fn push_limits(s: &mut String, l: &ServerLimits)
    ensures
        final(s)@ == old(s)@ + limits_text(*l),
{
    s.append("ServerLimits { max_connections: ");
    push_decimal(s, l.max_connections as u64);
    s.append(", max_concurrent_commands: ");
    push_decimal(s, l.max_concurrent_commands as u64);
    s.append(", max_file_size: ");
    push_decimal(s, l.max_file_size);
    s.append(", max_command_secs: ");
    push_decimal(s, l.max_command_secs);
    s.append(" }");
    assert(final(s)@ =~= old(s)@ + limits_text(*l));
}

impl ServerConfig {
    /// The debug text of the configuration, with the password redacted.
    pub fn debug_string(&self) -> (r: String)
        ensures
            r@ == config_text(self.name@, opt_view(self.data_dir), self.network_mode, self.limits),
            debug_str_known(self.name@),
            self.data_dir matches Some(d) ==> debug_str_known(d@),
    {
        let mut s = String::from_str("ServerConfig { password: \"<redacted>\", name: ");
        let name = debug_str(self.name.as_str());
        s.append(name.as_str());
        s.append(", data_dir: ");
        match &self.data_dir {
            None => s.append("None"),
            Some(d) => {
                s.append("Some(");
                let dd = debug_str(d.as_str());
                s.append(dd.as_str());
                s.append(")");
            },
        }
        s.append(", network_mode: ");
        s.append(network_mode_str(self.network_mode));
        s.append(", limits: ");
        match &self.limits {
            None => s.append("None"),
            Some(l) => {
                s.append("Some(");
                push_limits(&mut s, l);
                s.append(")");
            },
        }
        s.append(" }");
        assert(s@ =~= config_text(self.name@, opt_view(self.data_dir), self.network_mode, self.limits));
        s
    }
}

/// The debug text of a configuration does not depend on its password: two
/// configurations that differ only in their passwords print the same.
pub proof fn lemma_config_text_redacts_password(a: ServerConfig, b: ServerConfig)
    requires
        a.name@ == b.name@,
        opt_view(a.data_dir) == opt_view(b.data_dir),
        a.network_mode == b.network_mode,
        a.limits == b.limits,
    ensures
        config_text(a.name@, opt_view(a.data_dir), a.network_mode, a.limits)
            == config_text(b.name@, opt_view(b.data_dir), b.network_mode, b.limits),
{
}

} // verus!

verus! {

/// Failures older than this many milliseconds no longer count.
pub const FAILURE_WINDOW_MS: u64 = 300_000;

/// 2 to the power `n`.
pub open spec fn pow2(n: nat) -> nat
    decreases n,
{
    if n == 0 {
        1
    } else {
        2 * pow2((n - 1) as nat)
    }
}

/// The delay after `failures` earlier failures: 100 ms doubled per failure, at
/// most ten times.
pub open spec fn backoff_ms(failures: u32) -> nat {
    100 * pow2(if failures < 10 { failures as nat } else { 10 })
}

proof fn lemma_pow2_10()
    ensures
        pow2(10) == 1024,
{
    reveal_with_fuel(pow2, 11);
}

proof fn lemma_pow2_monotone(a: nat, b: nat)
    requires
        a <= b,
    ensures
        pow2(a) <= pow2(b),
    decreases b,
{
    if a < b {
        lemma_pow2_monotone(a, (b - 1) as nat);
    }
}

fn backoff_delay(failures: u32) -> (r: u64)
    ensures
        r == backoff_ms(failures),
        r <= 102_400,
{
    let n: u32 = if failures < 10 { failures } else { 10 };
    let mut p: u64 = 1;
    let mut i: u32 = 0;
    while i < n
        invariant
            i <= n <= 10,
            p == pow2(i as nat),
            p <= 1024,
        decreases n - i,
    {
        proof {
            lemma_pow2_monotone((i + 1) as nat, 10);
            lemma_pow2_10();
        }
        p = p * 2;
        i = i + 1;
    }
    proof {
        lemma_pow2_monotone(n as nat, 10);
        lemma_pow2_10();
    }
    100 * p
}

/// Counts failed authentications and spaces them out with an exponential delay.
pub struct AuthRateLimiter {
    failures: u32,
    last_failure: u64,
}

impl AuthRateLimiter {
    /// Failures counted so far.
    pub closed spec fn failures(&self) -> u32 {
        self.failures
    }

    /// When the last failure was recorded, in milliseconds; 0 when none is.
    pub closed spec fn last_failure(&self) -> u64 {
        self.last_failure
    }

    /// The failures that count at `now`: none once the window after the last one
    /// has passed.
    pub open spec fn counted_at(&self, now: u64) -> u32 {
        if self.last_failure() != 0 && now - self.last_failure() > FAILURE_WINDOW_MS {
            0
        } else {
            self.failures()
        }
    }

    /// What waiting before the next attempt looks like at `now`: `None` when no
    /// failure is recorded, else the rest of the current delay.
    pub open spec fn spec_should_wait(&self, now: u64) -> Option<u64> {
        if self.failures() == 0 || self.last_failure() == 0 {
            None
        } else {
            let elapsed = now - self.last_failure();
            let delay = backoff_ms(self.failures());
            if elapsed >= delay {
                Some(0)
            } else {
                Some((delay - elapsed) as u64)
            }
        }
    }

    pub fn new() -> (r: Self)
        ensures
            r.failures() == 0,
            r.last_failure() == 0,
    {
        AuthRateLimiter { failures: 0, last_failure: 0 }
    }

    /// Records a failure at `now` and returns how long to delay the answer, in
    /// milliseconds: the delay for the failures counted before this one.
    pub fn check_and_record_failure(&mut self, now: u64) -> (delay_ms: u64)
        requires
            old(self).last_failure() <= now,
        ensures
            delay_ms == backoff_ms(old(self).counted_at(now)),
            final(self).last_failure() == now,
            final(self).failures() == (if old(self).counted_at(now) == u32::MAX { 0 } else {
                (old(self).counted_at(now) + 1) as u32
            }),
    {
        let last = self.last_failure;
        self.last_failure = now;
        if last != 0 && now - last > FAILURE_WINDOW_MS {
            self.failures = 0;
        }
        let failures = self.failures;
        self.failures = if failures == u32::MAX { 0 } else { failures + 1 };
        backoff_delay(failures)
    }

    /// How long a new attempt should wait at `now`, in milliseconds.
    pub fn should_wait(&self, now: u64) -> (r: Option<u64>)
        requires
            self.failures() == 0 || self.last_failure() == 0 || self.last_failure() <= now,
        ensures
            r == self.spec_should_wait(now),
    {
        let failures = self.failures;
        if failures == 0 {
            return None;
        }
        let last = self.last_failure;
        if last == 0 {
            return None;
        }
        let elapsed = now - last;
        let delay_ms = backoff_delay(failures);
        if elapsed >= delay_ms {
            return Some(0);
        }
        Some(delay_ms - elapsed)
    }

    /// Forgets all failures.
    pub fn reset(&mut self)
        ensures
            final(self).failures() == 0,
            final(self).last_failure() == 0,
    {
        self.failures = 0;
        self.last_failure = 0;
    }
}

/// Delays never exceed 102.4 seconds, and never shrink while failures keep
/// coming within the window: if `b` is `a` after a failure recorded at `t1`, the
/// delay of a failure at `t2` is at least the delay that `t1` got, unless the
/// count wrapped around.
pub proof fn lemma_backoff_grows(a: AuthRateLimiter, b: AuthRateLimiter, t1: u64, t2: u64)
    requires
        a.last_failure() <= t1 <= t2,
        t2 - t1 <= FAILURE_WINDOW_MS,
        b.last_failure() == t1,
        b.failures() == (if a.counted_at(t1) == u32::MAX { 0 } else { (a.counted_at(t1) + 1) as u32 }),
        a.counted_at(t1) < u32::MAX,
    ensures
        backoff_ms(a.counted_at(t1)) <= backoff_ms(b.counted_at(t2)),
        backoff_ms(b.counted_at(t2)) <= 102_400,
{
    let before = a.counted_at(t1);
    let after = b.counted_at(t2);
    assert(after == before + 1);
    let x: nat = if before < 10 { before as nat } else { 10 };
    let y: nat = if after < 10 { after as nat } else { 10 };
    lemma_pow2_monotone(x, y);
    lemma_pow2_monotone(y, 10);
    lemma_pow2_10();
}

/// A reset limiter asks no one to wait.
pub proof fn lemma_reset_clears_wait(l: AuthRateLimiter, now: u64)
    requires
        l.failures() == 0,
        l.last_failure() == 0,
    ensures
        l.spec_should_wait(now) is None,
{
}

proof fn lemma_pow2_is_power(n: nat)
    ensures
        pow2(n) == vstd::arithmetic::power2::pow2(n),
    decreases n,
{
    if n == 0 {
        vstd::arithmetic::power2::lemma2_to64();
    } else {
        lemma_pow2_is_power((n - 1) as nat);
        vstd::arithmetic::power2::lemma_pow2_unfold(n);
    }
}

/// The delay after `f` counted failures is 100 ms times two to the power of the
/// count, the power taken at most ten.
pub proof fn lemma_backoff_value(f: u32)
    ensures
        backoff_ms(f) == 100 * vstd::arithmetic::power2::pow2(if f < 10 { f as nat } else { 10 }),
{
    lemma_pow2_is_power(if f < 10 { f as nat } else { 10 });
}

/// How long a new attempt waits: nothing is asked while no failure is recorded;
/// after `f` failures, the last at `last`, the rest of the delay
/// `100 * 2^min(f, 10)` ms that is left at `now`, or 0 once it has passed.
pub proof fn lemma_should_wait_value(l: AuthRateLimiter, now: u64)
    requires
        l.last_failure() <= now,
    ensures
        l.failures() == 0 || l.last_failure() == 0 ==> l.spec_should_wait(now) is None,
        l.failures() > 0 && l.last_failure() != 0 ==> ({
            let d = 100 * vstd::arithmetic::power2::pow2(
                if l.failures() < 10 {
                    l.failures() as nat
                } else {
                    10
                },
            );
            let e = now - l.last_failure();
            l.spec_should_wait(now) == Some((if e >= d { 0 } else { d - e }) as u64)
        }),
{
    lemma_backoff_value(l.failures());
}

} // verus!

verus! {

/// The uppercase form of a string by Unicode rules, as std's `str::to_uppercase` gives it.
pub uninterp spec fn spec_to_uppercase(s: Seq<char>) -> Seq<char>;

/// The ASCII uppercase of a character: `a` to `z` become `A` to `Z`, all others stay.
pub open spec fn ascii_upper(c: char) -> char {
    if 'a' <= c && c <= 'z' {
        ((c as int) - 32) as char
    } else {
        c
    }
}

/// Every character of `s` is ASCII.
pub open spec fn is_ascii_text(s: Seq<char>) -> bool {
    forall|i: int| 0 <= i < s.len() ==> (#[trigger] s[i] as int) < 128
}

/// `str::to_uppercase`: the result is named `spec_to_uppercase` of the input; on
/// ASCII text that is each lowercase ASCII letter made uppercase. The Unicode
/// mappings of other characters are left unstated.
#[verifier::external_body]
fn to_uppercase(s: &str) -> (r: String)
    ensures
        r@ == spec_to_uppercase(s@),
        is_ascii_text(s@) ==> r@ == s@.map_values(|c: char| ascii_upper(c)),
{
    s.to_uppercase()
}

/// Whether an environment variable named `key` may not be passed to a command:
/// its uppercase name starts with `LD_` or `DYLD_`, or holds `PRELOAD` or
/// `LIBRARY_PATH`.
pub open spec fn env_key_blocked(key: Seq<char>) -> bool {
    let upper = spec_to_uppercase(key);
    seq_starts_with(upper, "LD_"@) || seq_starts_with(upper, "DYLD_"@) || seq_contains(upper, "PRELOAD"@)
        || seq_contains(upper, "LIBRARY_PATH"@)
}

/// Environment pairs by their text.
pub open spec fn env_view(env: Seq<(String, String)>) -> Seq<(Seq<char>, Seq<char>)> {
    env.map_values(|p: (String, String)| (p.0@, p.1@))
}

/// The pairs whose names are not blocked, in their order.
pub open spec fn kept_env(env: Seq<(Seq<char>, Seq<char>)>) -> Seq<(Seq<char>, Seq<char>)>
    decreases env.len(),
{
    if env.len() == 0 {
        Seq::empty()
    } else {
        let rest = kept_env(env.drop_last());
        if env_key_blocked(env.last().0) {
            rest
        } else {
            rest.push(env.last())
        }
    }
}

/// On ASCII text, the uppercase name is the text with each lowercase letter made
/// uppercase.
pub open spec fn ascii_upper_known(key: Seq<char>) -> bool {
    is_ascii_text(key) ==> spec_to_uppercase(key) == key.map_values(|c: char| ascii_upper(c))
}

fn key_blocked(key: &str) -> (r: bool)
    ensures
        r == env_key_blocked(key@),
        ascii_upper_known(key@),
{
    let upper = to_uppercase(key);
    let u = upper.as_str();
    str_starts_with(u, "LD_") || str_starts_with(u, "DYLD_") || str_contains(u, "PRELOAD")
        || str_contains(u, "LIBRARY_PATH")
}

/// Drops the environment variables that could inject code into a command
/// (dynamic loader variables), keeping the others in order.
pub fn filter_env(env: Vec<(String, String)>) -> (r: Vec<(String, String)>)
    ensures
        env_view(r@) == kept_env(env_view(env@)),
        forall|i: int| 0 <= i < env@.len() ==> ascii_upper_known(#[trigger] env@[i].0@),
{
    let mut out: Vec<(String, String)> = Vec::new();
    let n = env.len();
    let mut i: usize = 0;
    while i < n
        invariant
            i <= n,
            n == env@.len(),
            env_view(out@) == kept_env(env_view(env@.subrange(0, i as int))),
            forall|j: int| 0 <= j < i ==> ascii_upper_known(#[trigger] env@[j].0@),
        decreases n - i,
    {
        let ghost prefix = env_view(env@.subrange(0, i as int));
        let ghost next = env_view(env@.subrange(0, i + 1));
        assert(next.drop_last() =~= prefix);
        assert(next.last() == (env@[i as int].0@, env@[i as int].1@));
        let key = &env[i].0;
        if !key_blocked(key.as_str()) {
            let k = env[i].0.clone();
            let v = env[i].1.clone();
            out.push((k, v));
            assert(env_view(out@) =~= kept_env(prefix).push(next.last()));
        }
        i = i + 1;
    }
    assert(env@.subrange(0, n as int) =~= env@);
    out
}

/// Whether a name's uppercase form starts with `LD_` or `DYLD_`, or holds
/// `PRELOAD` or `LIBRARY_PATH` anywhere.
pub open spec fn dangerous_env_name(key: Seq<char>) -> bool {
    let u = spec_to_uppercase(key);
    (u.len() >= "LD_"@.len() && u.subrange(0, "LD_"@.len() as int) == "LD_"@) || (u.len() >= "DYLD_"@.len()
        && u.subrange(0, "DYLD_"@.len() as int) == "DYLD_"@) || (exists|i: int|
        0 <= i && i + "PRELOAD"@.len() <= u.len() && #[trigger] u.subrange(i, i + "PRELOAD"@.len()) == "PRELOAD"@)
        || (exists|i: int|
        0 <= i && i + "LIBRARY_PATH"@.len() <= u.len() && #[trigger] u.subrange(i, i + "LIBRARY_PATH"@.len())
            == "LIBRARY_PATH"@)
}

/// `filter_env` keeps exactly the pairs whose names are not dangerous, in their
/// order: every other pair is kept (a name with `LD_` only in its middle, such
/// as `BUILD_NUMBER`, among them), and every dangerous one is dropped.
pub proof fn lemma_filter_env_exact(env: Seq<(Seq<char>, Seq<char>)>)
    ensures
        kept_env(env) == env.filter(|p: (Seq<char>, Seq<char>)| !dangerous_env_name(p.0)),
    decreases env.len(),
{
    reveal(Seq::filter);
    if env.len() > 0 {
        lemma_filter_env_exact(env.drop_last());
        let k = env.last().0;
        let u = spec_to_uppercase(k);
        assert(env_key_blocked(k) == dangerous_env_name(k)) by {
            if seq_contains(u, "PRELOAD"@) {
                let i = choose|i: int| occurs_at(u, "PRELOAD"@, i);
                assert(u.subrange(i, i + "PRELOAD"@.len()) == "PRELOAD"@);
            }
            if seq_contains(u, "LIBRARY_PATH"@) {
                let i = choose|i: int| occurs_at(u, "LIBRARY_PATH"@, i);
                assert(u.subrange(i, i + "LIBRARY_PATH"@.len()) == "LIBRARY_PATH"@);
            }
            if exists|i: int|
                0 <= i && i + "PRELOAD"@.len() <= u.len() && #[trigger] u.subrange(i, i + "PRELOAD"@.len())
                    == "PRELOAD"@ {
                let i = choose|i: int|
                    0 <= i && i + "PRELOAD"@.len() <= u.len() && #[trigger] u.subrange(i, i + "PRELOAD"@.len())
                        == "PRELOAD"@;
                assert(occurs_at(u, "PRELOAD"@, i));
            }
            if exists|i: int|
                0 <= i && i + "LIBRARY_PATH"@.len() <= u.len() && #[trigger] u.subrange(
                    i,
                    i + "LIBRARY_PATH"@.len(),
                ) == "LIBRARY_PATH"@ {
                let i = choose|i: int|
                    0 <= i && i + "LIBRARY_PATH"@.len() <= u.len() && #[trigger] u.subrange(
                        i,
                        i + "LIBRARY_PATH"@.len(),
                    ) == "LIBRARY_PATH"@;
                assert(occurs_at(u, "LIBRARY_PATH"@, i));
            }
        }
    }
}

/// Nothing that `filter_env` keeps is blocked, and it keeps no more than it got.
pub proof fn lemma_kept_env_safe(env: Seq<(Seq<char>, Seq<char>)>)
    ensures
        kept_env(env).len() <= env.len(),
        forall|i: int| 0 <= i < kept_env(env).len() ==> !env_key_blocked(#[trigger] kept_env(env)[i].0),
    decreases env.len(),
{
    if env.len() > 0 {
        lemma_kept_env_safe(env.drop_last());
    }
}

} // verus!

verus! {

/// "expected `what`, got " and `m` as `{:?}` prints it.
pub open spec fn unexpected_text(what: Seq<char>, m: Message) -> Seq<char> {
    "expected "@ + what + ", got "@ + message_text(m)
}

fn unexpected(what: &str, m: &Message) -> (r: String)
    ensures
        r@ == unexpected_text(what@, *m),
{
    let mut s = String::from_str("expected ");
    s.append(what);
    s.append(", got ");
    let d = message_debug(m);
    s.append(d.as_str());
    s
}

pub open spec fn version_unsupported_text(version: u16) -> Seq<char> {
    "client protocol version "@ + decimal(version as nat) + " is unsupported by server version "@
        + decimal(crate::PROTOCOL_VERSION as nat)
}

/// What the server makes of the first message of a stream: a hello of this
/// protocol version goes on to the login; any other version is refused as
/// unsupported, and any other message as a protocol error.
pub fn check_client_hello(msg: Message) -> (r: Result<ClientHello, RemoteError>)
    ensures
        match msg {
            Message::ClientHello(h) => if h.version == crate::PROTOCOL_VERSION {
                r == Ok::<ClientHello, RemoteError>(h)
            } else {
                r matches Err(e) && e.code == ErrorCode::VersionUnsupported && e.message@
                    == version_unsupported_text(h.version)
            },
            _ => r matches Err(e) && e.code == ErrorCode::Protocol && e.message@ == unexpected_text(
                "client hello"@,
                msg,
            ),
        },
{
    match msg {
        Message::ClientHello(h) => {
            if h.version == crate::PROTOCOL_VERSION {
                Ok(h)
            } else {
                let mut s = String::from_str("client protocol version ");
                push_decimal(&mut s, h.version as u64);
                s.append(" is unsupported by server version ");
                push_decimal(&mut s, crate::PROTOCOL_VERSION as u64);
                Err(RemoteError::new(ErrorCode::VersionUnsupported, s))
            }
        },
        other => {
            let text = unexpected("client hello", &other);
            Err(RemoteError::new(ErrorCode::Protocol, text))
        },
    }
}

/// The answer when the OPAQUE credential request cannot be used; `reason` is the
/// text of the error that OPAQUE gave.
pub fn invalid_credential_request(reason: &str) -> (r: RemoteError)
    ensures
        r.code == ErrorCode::Protocol,
        r.message@ == "invalid OPAQUE credential request: "@ + reason@,
{
    let mut s = String::from_str("invalid OPAQUE credential request: ");
    s.append(reason);
    RemoteError::new(ErrorCode::Protocol, s)
}

/// What the server makes of the message after its hello: a client request goes
/// on, anything else is a protocol error.
pub fn check_client_request(msg: Message) -> (r: Result<ClientRequest, RemoteError>)
    ensures
        match msg {
            Message::ClientRequest(req) => r == Ok::<ClientRequest, RemoteError>(req),
            _ => r matches Err(e) && e.code == ErrorCode::Protocol && e.message@ == unexpected_text(
                "request"@,
                msg,
            ),
        },
{
    match msg {
        Message::ClientRequest(req) => Ok(req),
        other => {
            let text = unexpected("request", &other);
            Err(RemoteError::new(ErrorCode::Protocol, text))
        },
    }
}

/// The answer to a client whose password or request MAC is wrong.
pub fn auth_failed() -> (r: RemoteError)
    ensures
        r.code == ErrorCode::AuthFailed,
        r.message@ == "invalid password"@,
{
    RemoteError::new(ErrorCode::AuthFailed, String::from_str("invalid password"))
}

/// A request may run: the login produced a session key, and the request carries
/// the MAC of its bytes under that key.
pub open spec fn request_authorized(
    session_key: Option<Vec<u8>>,
    server_id: Seq<u8>,
    request_bytes: Seq<u8>,
    request_mac: Seq<u8>,
) -> bool {
    match session_key {
        Some(k) => crate::auth::mac_accepts(k@, server_id, request_bytes, request_mac),
        None => false,
    }
}

/// What the client attaches is what the server authorizes: after a login that
/// produced `key` on the server, a request is authorized exactly when its MAC is
/// the one the client's `request_mac` makes under that key for this server and
/// these request bytes; after a failed login no request is.
pub proof fn lemma_authorized_iff_client_mac(key: Vec<u8>, server_id: Seq<u8>, request_bytes: Seq<u8>, mac: Seq<u8>)
    ensures
        request_authorized(Some(key), server_id, request_bytes, mac) <==> mac == crate::auth::spec_request_mac(
            key@,
            server_id,
            request_bytes,
        ),
        !request_authorized(None, server_id, request_bytes, mac),
{
}

/// Whether a request may run.
pub enum AuthDecision {
    /// The login finished and the MAC matches: run the request.
    Accept,
    /// Wait `delay_ms`, then answer `error` and close the stream.
    Reject { delay_ms: u64, error: RemoteError },
}

/// Decides on a request after the OPAQUE login: `session_key` is the key the
/// login produced, or `None` when it failed. The request runs exactly when the
/// login succeeded and `request_mac` is the MAC of the serialized request under
/// that key; then the failure count is cleared. Otherwise the failure is
/// recorded, and the answer is delayed by the backoff and says "invalid password".
pub fn authorize_request(
    limiter: &mut AuthRateLimiter,
    now: u64,
    session_key: Option<Vec<u8>>,
    server_id: &[u8; 32],
    request_bytes: &[u8],
    request_mac: &[u8; 32],
) -> (r: AuthDecision)
    requires
        old(limiter).last_failure() <= now,
    ensures
        request_authorized(session_key, server_id@, request_bytes@, request_mac@) ==> r is Accept,
        request_authorized(session_key, server_id@, request_bytes@, request_mac@) ==> final(limiter).failures() == 0
            && final(limiter).last_failure() == 0,
        !request_authorized(session_key, server_id@, request_bytes@, request_mac@) ==> (r matches AuthDecision::Reject { delay_ms, error }
            && delay_ms == backoff_ms(old(limiter).counted_at(now)) && error.code == ErrorCode::AuthFailed
            && error.message@ == "invalid password"@),
        !request_authorized(session_key, server_id@, request_bytes@, request_mac@) ==> final(limiter).last_failure() == now
            && final(limiter).failures() == (if old(limiter).counted_at(now) == u32::MAX {
                0
            } else {
                (old(limiter).counted_at(now) + 1) as u32
            }),
{
    let ok = match &session_key {
        None => false,
        Some(k) => crate::auth::verify_request_mac(k.as_slice(), server_id, request_bytes, request_mac),
    };
    if ok {
        limiter.reset();
        AuthDecision::Accept
    } else {
        let delay_ms = limiter.check_and_record_failure(now);
        AuthDecision::Reject { delay_ms, error: auth_failed() }
    }
}

} // verus!

verus! {

pub open spec fn upload_too_large_text(size: u64, max: u64) -> Seq<char> {
    "declared upload size "@ + decimal(size as nat) + " exceeds maximum "@ + decimal(max as nat)
}

/// What an upload that fails part way is answered (the reason stays in the server's log).
pub fn upload_failed() -> (r: RemoteError)
    ensures
        r.code == ErrorCode::TransferInterrupted,
        r.message@ == "transfer failed"@,
{
    RemoteError::new(ErrorCode::TransferInterrupted, String::from_str("transfer failed"))
}

/// Why an upload stopped.
#[derive(Debug, Clone, PartialEq, Eq)]
pub enum UploadError {
    /// More bytes arrived than the request declared.
    TooManyBytes,
    /// The upload ended with fewer bytes than declared.
    CountMismatch { declared: u64, received: u64 },
    /// A message other than a chunk or the end of the file arrived.
    Unexpected,
}

/// What to do with one message of an upload.
pub enum UploadStep {
    /// Append these bytes to the staging file.
    Write(Vec<u8>),
    /// The upload is whole: move the staging file into place; this many bytes came.
    Complete(u64),
    /// Drop the staging file and answer `upload_failed`.
    Fail(UploadError),
}

/// The server's side of an upload: counts the bytes that arrive against the
/// declared size and the server's limit.
pub struct UploadReceiver {
    declared: u64,
    max: u64,
    received: u64,
    digest: TransferDigest,
}

impl UploadReceiver {
    pub closed spec fn declared(&self) -> u64 {
        self.declared
    }

    pub closed spec fn max(&self) -> u64 {
        self.max
    }

    pub closed spec fn received(&self) -> u64 {
        self.received
    }

    /// The bytes received so far, in order.
    pub closed spec fn data(&self) -> Seq<u8> {
        digest_input(self.digest)
    }

    /// Never more bytes than declared or allowed, and the count is the length of
    /// the bytes received.
    pub open spec fn wf(&self) -> bool {
        self.received() <= self.declared() && self.declared() <= self.max() && self.received()
            == self.data().len()
    }

    /// Starts an upload: refused as `TransferDenied` exactly when the declared size
    /// exceeds the server's maximum file size.
    pub fn start(request: &PutRequest, limits: &ServerLimits) -> (r: Result<UploadReceiver, RemoteError>)
        ensures
            (r is Err) <==> request.size > limits.max_file_size,
            r matches Ok(u) ==> u.wf() && u.declared() == request.size && u.max() == limits.max_file_size
                && u.received() == 0 && u.data() == Seq::<u8>::empty(),
            r matches Err(e) ==> e.code == ErrorCode::TransferDenied && e.message@ == upload_too_large_text(
                request.size,
                limits.max_file_size,
            ),
    {
        if request.size > limits.max_file_size {
            let mut s = String::from_str("declared upload size ");
            push_decimal(&mut s, request.size);
            s.append(" exceeds maximum ");
            push_decimal(&mut s, limits.max_file_size);
            return Err(RemoteError::new(ErrorCode::TransferDenied, s));
        }
        Ok(
            UploadReceiver {
                declared: request.size,
                max: limits.max_file_size,
                received: 0,
                digest: TransferDigest::new(),
            },
        )
    }

    pub fn received_bytes(&self) -> (r: u64)
        ensures
            r == self.received(),
    {
        self.received
    }

    /// Takes the next message of an upload. A chunk is written while the total
    /// stays within the declared size and the limit; the end of the file completes
    /// the upload exactly when the total is the declared size.
    pub fn on_message(&mut self, msg: Message) -> (r: UploadStep)
        requires
            old(self).wf(),
        ensures
            final(self).wf(),
            final(self).declared() == old(self).declared(),
            final(self).max() == old(self).max(),
            match msg {
                Message::FileChunk(data) => {
                    let total = old(self).received() + data@.len();
                    if total > old(self).declared() {
                        r matches UploadStep::Fail(e) && e == UploadError::TooManyBytes
                    } else {
                        r matches UploadStep::Write(w) && w@ == data@ && final(self).received() == total
                            && final(self).data() == old(self).data() + data@
                    }
                },
                Message::FileEnd => if old(self).received() == old(self).declared() {
                    r matches UploadStep::Complete(n) && n == old(self).received()
                } else {
                    r matches UploadStep::Fail(e) && e == (UploadError::CountMismatch {
                        declared: old(self).declared(),
                        received: old(self).received(),
                    })
                },
                _ => r matches UploadStep::Fail(e) && e == UploadError::Unexpected,
            },
            !(r is Write) ==> final(self).received() == old(self).received() && final(self).data() == old(
                self,
            ).data(),
    {
        match msg {
            Message::FileChunk(data) => {
                let len = data.len() as u64;
                if len > self.declared - self.received {
                    return UploadStep::Fail(UploadError::TooManyBytes);
                }
                let total = self.received + len;
                self.received = total;
                self.digest.update(data.as_slice());
                UploadStep::Write(data)
            },
            Message::FileEnd => {
                if self.received != self.declared {
                    UploadStep::Fail(
                        UploadError::CountMismatch { declared: self.declared, received: self.received },
                    )
                } else {
                    UploadStep::Complete(self.received)
                }
            },
            _ => UploadStep::Fail(UploadError::Unexpected),
        }
    }

    /// The answer to a complete upload: the count and the SHA-256 of the bytes
    /// received.
    pub fn done_message(&self) -> (r: Message)
        ensures
            r matches Message::Response(Response::TransferDone { bytes, hash: Some(h) }) && bytes
                == self.received() && h@ == spec_sha256(self.data()),
    {
        Message::Response(Response::TransferDone { bytes: self.received, hash: Some(self.digest.finish()) })
    }
}

/// What the server found at the path of a download.
pub enum FileMeta {
    Missing,
    NotFile,
    File { len: u64 },
}

pub open spec fn download_check(path: Seq<char>, meta: FileMeta, max: u64) -> Result<u64, (ErrorCode, Seq<char>)> {
    match meta {
        FileMeta::Missing => Err((ErrorCode::TransferNotFound, "remote file not found: "@ + path)),
        FileMeta::NotFile => Err((ErrorCode::TransferDenied, "remote path is not a file: "@ + path)),
        FileMeta::File { len } => if len > max {
            Err(
                (
                    ErrorCode::TransferDenied,
                    "remote file size "@ + decimal(len as nat) + " exceeds maximum "@ + decimal(max as nat),
                ),
            )
        } else {
            Ok(len)
        },
    }
}

/// The download rules: a missing path is not found, a path that is not a
/// regular file is denied, and a regular file is denied exactly when it is
/// longer than the maximum; otherwise its length is announced.
pub proof fn lemma_download_size_limit(path: Seq<char>, len: u64, max: u64)
    ensures
        len <= max ==> download_check(path, FileMeta::File { len }, max) == Ok::<u64, (ErrorCode, Seq<char>)>(len),
        len > max ==> (download_check(path, FileMeta::File { len }, max) matches Err((code, _)) && code
            == ErrorCode::TransferDenied),
        download_check(path, FileMeta::Missing, max) matches Err((code, _)) && code == ErrorCode::TransferNotFound,
        download_check(path, FileMeta::NotFile, max) matches Err((code, _)) && code == ErrorCode::TransferDenied,
{
}

/// Decides whether a file may be downloaded: it must exist, be a regular file,
/// and be no larger than the server's maximum. On success the size to announce.
pub fn check_download(path: &str, meta: FileMeta, limits: &ServerLimits) -> (r: Result<u64, RemoteError>)
    ensures
        match download_check(path@, meta, limits.max_file_size) {
            Ok(n) => r == Ok::<u64, RemoteError>(n),
            Err((code, text)) => r matches Err(e) && e.code == code && e.message@ == text,
        },
{
    match meta {
        FileMeta::Missing => {
            let mut s = String::from_str("remote file not found: ");
            s.append(path);
            Err(RemoteError::new(ErrorCode::TransferNotFound, s))
        },
        FileMeta::NotFile => {
            let mut s = String::from_str("remote path is not a file: ");
            s.append(path);
            Err(RemoteError::new(ErrorCode::TransferDenied, s))
        },
        FileMeta::File { len } => {
            if len > limits.max_file_size {
                let mut s = String::from_str("remote file size ");
                push_decimal(&mut s, len);
                s.append(" exceeds maximum ");
                push_decimal(&mut s, limits.max_file_size);
                Err(RemoteError::new(ErrorCode::TransferDenied, s))
            } else {
                Ok(len)
            }
        },
    }
}

/// Starts a download: the checks of `check_download`, then the metadata answer
/// announcing the file's size and a sender that has sent nothing yet.
pub fn start_download(path: &str, meta: FileMeta, limits: &ServerLimits) -> (r: Result<
    (Message, FileSender),
    RemoteError,
>)
    ensures
        match download_check(path@, meta, limits.max_file_size) {
            Ok(n) => r matches Ok((m, snd)) && m == Message::Response(Response::GetMetadata { size: n })
                && snd.wf() && snd.sent() == 0 && snd.data() == Seq::<u8>::empty(),
            Err((code, text)) => r matches Err(e) && e.code == code && e.message@ == text,
        },
{
    match check_download(path, meta, limits) {
        Ok(size) => Ok((Message::Response(Response::GetMetadata { size }), FileSender::new())),
        Err(e) => Err(e),
    }
}

} // verus!

verus! {

/// Splits a command into program and arguments; an empty command cannot start.
pub fn split_command(command: &Vec<String>) -> (r: Result<(String, Vec<String>), RemoteError>)
    ensures
        (r is Err) <==> command@.len() == 0,
        r matches Err(e) ==> e.code == ErrorCode::ExecStartFailed && e.message@ == "empty command"@,
        r matches Ok((p, args)) ==> p@ == command@[0]@ && args@.len() == command@.len() - 1 && forall|i: int|
            0 <= i < args@.len() ==> #[trigger] args@[i]@ == command@[i + 1]@,
{
    if command.len() == 0 {
        return Err(RemoteError::new(ErrorCode::ExecStartFailed, String::from_str("empty command")));
    }
    let program = command[0].clone();
    let mut args: Vec<String> = Vec::new();
    let n = command.len();
    let mut i: usize = 1;
    while i < n
        invariant
            1 <= i <= n,
            n == command@.len(),
            args@.len() == i - 1,
            forall|j: int| 0 <= j < args@.len() ==> #[trigger] args@[j]@ == command@[j + 1]@,
        decreases n - i,
    {
        args.push(command[i].clone());
        i = i + 1;
    }
    Ok((program, args))
}

/// The answer when the command's process cannot be spawned (the reason stays in
/// the server's log).
pub fn spawn_failed() -> (r: RemoteError)
    ensures
        r.code == ErrorCode::ExecStartFailed,
        r.message@ == "failed to start command"@,
{
    RemoteError::new(ErrorCode::ExecStartFailed, String::from_str("failed to start command"))
}

/// Follows a running command on the server: output is forwarded while its pipes
/// are open, and the exit is reported once the process has ended and the output
/// is closed. Cancellation, a client that stops reading, and the runtime limit
/// all kill the process and close the output.
pub struct ExecSupervisor {
    exit: Option<Option<i32>>,
    output_closed: bool,
}

impl ExecSupervisor {
    /// The exit code once the process has ended (`None` inside when it had none).
    pub closed spec fn exit(&self) -> Option<Option<i32>> {
        self.exit
    }

    pub closed spec fn output_closed(&self) -> bool {
        self.output_closed
    }

    pub fn new() -> (r: Self)
        ensures
            r.exit() is None,
            !r.output_closed(),
    {
        ExecSupervisor { exit: None, output_closed: false }
    }

    /// Output is still read.
    pub fn wants_output(&self) -> (r: bool)
        ensures
            r == !self.output_closed(),
    {
        !self.output_closed
    }

    /// The process has not been seen to end.
    pub fn running(&self) -> (r: bool)
        ensures
            r == (self.exit() is None),
    {
        self.exit.is_none()
    }

    /// Both the process and its output are finished.
    pub fn finished(&self) -> (r: bool)
        ensures
            r == (self.exit() is Some && self.output_closed()),
    {
        self.exit.is_some() && self.output_closed
    }

    /// A chunk of output becomes a message to the client.
    pub fn on_output(&self, stream: OutputStream, data: Vec<u8>) -> (r: Message)
        ensures
            r == Message::Response(Response::ExecOutput { stream, data }),
    {
        Message::Response(Response::ExecOutput { stream, data })
    }

    /// Both output pipes have closed.
    pub fn on_output_closed(&mut self)
        ensures
            final(self).output_closed(),
            final(self).exit() == old(self).exit(),
    {
        self.output_closed = true;
    }

    /// The process ended by itself with this code.
    pub fn on_exit(&mut self, code: Option<i32>)
        ensures
            final(self).exit() == Some(code),
            final(self).output_closed() == old(self).output_closed(),
    {
        self.exit = Some(code);
    }

    /// The process was killed (cancel, stopped client, or runtime limit) and then
    /// ended with this code; its remaining output is dropped.
    pub fn on_killed(&mut self, code: Option<i32>)
        ensures
            final(self).exit() == Some(code),
            final(self).output_closed(),
    {
        self.exit = Some(code);
        self.output_closed = true;
    }

    /// The final message: the exit code of the process.
    pub fn exit_message(&self) -> (r: Message)
        requires
            self.exit() is Some,
        ensures
            r == Message::Response(Response::ExecExit { code: self.exit()->0 }),
    {
        match self.exit {
            Some(code) => Message::Response(Response::ExecExit { code }),
            None => Message::Response(Response::ExecExit { code: None }),
        }
    }
}

} // verus!

verus! {

/// A server needs a password.
pub fn check_server_password(password: &str) -> (r: Result<(), String>)
    ensures
        (r is Ok) <==> password@.len() > 0,
        r matches Err(t) ==> t@ == "server password must not be empty"@,
{
    if password.is_empty() {
        Err(String::from_str("server password must not be empty"))
    } else {
        Ok(())
    }
}

/// The limits a server runs with: the configured ones, or the defaults.
pub fn effective_limits(limits: Option<ServerLimits>) -> (r: ServerLimits)
    ensures
        match limits {
            Some(l) => r == l,
            None => r.max_connections == DEFAULT_MAX_CONNECTIONS && r.max_concurrent_commands
                == DEFAULT_MAX_CONCURRENT_COMMANDS && r.max_file_size == DEFAULT_MAX_FILE_SIZE
                && r.max_command_secs == DEFAULT_MAX_COMMAND_SECS,
        },
{
    match limits {
        Some(l) => l,
        None => ServerLimits::default(),
    }
}

/// The text of a stored server identity key.
pub fn encode_secret(secret: &[u8; 32]) -> (r: String)
    ensures
        r@ == crate::encoding::spec_b64_encode(secret@),
        decode_secret_spec(r@) == Ok::<Seq<u8>, Seq<char>>(secret@),
{
    crate::encoding::b64_encode(secret.as_slice())
}

/// What reading a stored identity key gives: its 32 bytes, or the error text.
pub open spec fn decode_secret_spec(text: Seq<char>) -> Result<Seq<u8>, Seq<char>> {
    match crate::encoding::spec_b64_decode(text) {
        None => Err("decode server identity"@),
        Some(b) => if b.len() == 32 {
            Ok(b)
        } else {
            Err("server identity has invalid length"@)
        },
    }
}

/// Reads a stored server identity key (already trimmed).
pub fn decode_secret(encoded: &str) -> (r: Result<[u8; 32], String>)
    ensures
        match decode_secret_spec(encoded@) {
            Ok(b) => r matches Ok(k) && k@ == b,
            Err(e) => r matches Err(t) && t@ == e,
        },
{
    let bytes = match crate::encoding::b64_decode(encoded) {
        None => return Err(String::from_str("decode server identity")),
        Some(b) => b,
    };
    if bytes.len() != 32 {
        return Err(String::from_str("server identity has invalid length"));
    }
    let mut key: [u8; 32] = [0u8; 32];
    let mut i: usize = 0;
    while i < 32
        invariant
            i <= 32,
            bytes@.len() == 32,
            forall|j: int| 0 <= j < i ==> key@[j] == bytes@[j],
        decreases 32 - i,
    {
        key[i] = bytes[i];
        i = i + 1;
    }
    assert(key@ =~= bytes@);
    Ok(key)
}

} // verus!

//! Fixed-window rate limiting keyed by client identity.

use std::collections::HashMap;
use vstd::prelude::*;

verus! {

broadcast use vstd::std_specs::hash::group_hash_axioms;

/// Client identity of the loopback address 127.0.0.1, written as an
/// IPv4-mapped IPv6 address; used when no request header names the client.
pub const LOOPBACK_CLIENT: u128 = 0xffff_7f00_0001;

/// Seconds a blocked client is told to wait before retrying.
pub const RETRY_AFTER_SECONDS: u64 = 60;

/// Milliseconds in `secs` seconds, saturating at `u64::MAX`.
pub open spec fn millis_of(secs: u64) -> u64 {
    if secs * 1000 > u64::MAX {
        u64::MAX
    } else {
        (secs * 1000) as u64
    }
}

/// `a + b`, saturating at `u64::MAX`.
pub open spec fn sat_add(a: u64, b: u64) -> u64 {
    if a + b > u64::MAX {
        u64::MAX
    } else {
        (a + b) as u64
    }
}

pub fn to_millis(secs: u64) -> (r: u64)
    ensures
        r == millis_of(secs),
{
    if secs > u64::MAX / 1000 {
        u64::MAX
    } else {
        secs * 1000
    }
}

/// Rate limit settings.
#[derive(Clone, Copy, Debug)]
pub struct RateLimitConfig {
    /// Requests admitted per client within one window.
    pub max_requests: u32,
    /// Length of a window, in seconds.
    pub window_seconds: u64,
    /// When false, every request is admitted and nothing is counted.
    pub enabled: bool,
}

impl RateLimitConfig {
    pub open spec fn window_ms(self) -> u64 {
        millis_of(self.window_seconds)
    }
}

impl Default for RateLimitConfig {
    fn default() -> (r: Self)
        ensures
            r.max_requests == 1000,
            r.window_seconds == 60,
            r.enabled,
    {
        RateLimitConfig { max_requests: 1000, window_seconds: 60, enabled: true }
    }
}

impl From<&crate::config::RateLimitConfig> for RateLimitConfig {
    /// The request limit is cut to 32 bits, as a `u64` to `u32` cast does.
    fn from(c: &crate::config::RateLimitConfig) -> (r: RateLimitConfig) {
        RateLimitConfig {
            max_requests: c.max_requests as u32,
            window_seconds: c.window_seconds,
            enabled: c.enabled,
        }
    }
}

impl vstd::std_specs::convert::FromSpecImpl<&crate::config::RateLimitConfig> for RateLimitConfig {
    open spec fn obeys_from_spec() -> bool {
        true
    }

    open spec fn from_spec(c: &crate::config::RateLimitConfig) -> RateLimitConfig {
        RateLimitConfig {
            max_requests: c.max_requests as u32,
            window_seconds: c.window_seconds,
            enabled: c.enabled,
        }
    }
}

/// The counter of one client: requests admitted in the current window, and
/// the instant (milliseconds) at which the window ends.
#[derive(Clone, Copy, Debug, PartialEq, Eq, Structural)]
pub struct RateWindow {
    pub count: u32,
    pub reset_at: u64,
}

/// What an admitted request is told: the limit, how many requests remain in
/// the window, and when the window ends (milliseconds).
#[derive(Clone, Copy, Debug, PartialEq, Eq, Structural)]
pub struct RateStatus {
    pub limit: u32,
    pub remaining: u32,
    pub reset_at: u64,
}

/// A refused request: the client's window ends at `reset_at` (milliseconds).
#[derive(Clone, Copy, Debug, PartialEq, Eq, Structural)]
pub struct RateLimited {
    pub reset_at: u64,
}

/// The window that a check at `now` works on: the stored one while it runs,
/// otherwise a new empty window that ends one window length after `now`.
pub open spec fn current_window(cfg: RateLimitConfig, w: Option<RateWindow>, now: u64) -> RateWindow {
    match w {
        Some(w) => if now < w.reset_at {
            w
        } else {
            RateWindow { count: 0, reset_at: sat_add(now, cfg.window_ms()) }
        },
        None => RateWindow { count: 0, reset_at: sat_add(now, cfg.window_ms()) },
    }
}

/// One check of an enabled limiter: the answer, and the client's window after it.
pub open spec fn check_step(cfg: RateLimitConfig, w: Option<RateWindow>, now: u64) -> (
    Result<RateStatus, RateLimited>,
    RateWindow,
) {
    let cur = current_window(cfg, w, now);
    if cur.count < cfg.max_requests {
        let next = RateWindow { count: (cur.count + 1) as u32, reset_at: cur.reset_at };
        (
            Ok(
                RateStatus {
                    limit: cfg.max_requests,
                    remaining: (cfg.max_requests - next.count) as u32,
                    reset_at: cur.reset_at,
                },
            ),
            next,
        )
    } else {
        (Err(RateLimited { reset_at: cur.reset_at }), cur)
    }
}

/// The answer of a disabled limiter at `now`.
pub open spec fn bypass_status(cfg: RateLimitConfig, now: u64) -> RateStatus {
    RateStatus {
        limit: cfg.max_requests,
        remaining: cfg.max_requests,
        reset_at: sat_add(now, cfg.window_ms()),
    }
}

pub open spec fn window_of(m: Map<u128, RateWindow>, client: u128) -> Option<RateWindow> {
    if m.contains_key(client) {
        Some(m[client])
    } else {
        None
    }
}

/// The client's window after checks at the instants `times`, starting from `w0`.
pub open spec fn window_after(cfg: RateLimitConfig, w0: Option<RateWindow>, times: Seq<u64>) -> Option<
    RateWindow,
>
    decreases times.len(),
{
    if times.len() == 0 {
        w0
    } else {
        Some(check_step(cfg, window_after(cfg, w0, times.drop_last()), times.last()).1)
    }
}

/// The answer to the check at `times[i]`, when the client's checks happen at
/// the instants `times` starting from `w0`.
pub open spec fn answer_at(cfg: RateLimitConfig, w0: Option<RateWindow>, times: Seq<u64>, i: int) -> Result<
    RateStatus,
    RateLimited,
> {
    check_step(cfg, window_after(cfg, w0, times.take(i)), times[i]).0
}

proof fn lemma_window_within_first(cfg: RateLimitConfig, times: Seq<u64>, k: int)
    requires
        1 <= k <= times.len(),
        forall|j: int| 0 < j < times.len() ==> #[trigger] times[j] < sat_add(times[0], cfg.window_ms()),
    ensures
        window_after(cfg, None, times.take(k)) == Some(
            RateWindow {
                count: if k < cfg.max_requests {
                    k as u32
                } else {
                    cfg.max_requests
                },
                reset_at: sat_add(times[0], cfg.window_ms()),
            },
        ),
    decreases k,
{
    if k == 1 {
        assert(times.take(1).drop_last() =~= Seq::<u64>::empty());
    } else {
        lemma_window_within_first(cfg, times, k - 1);
        assert(times.take(k).drop_last() =~= times.take(k - 1));
    }
}

/// With no resets, a client's first `max_requests` checks are admitted with
/// `remaining` counting down from `max_requests - 1` to 0, and every later
/// check in the same window is refused. "No resets" means that every check
/// after the first comes before the window opened by the first one ends.
pub proof fn lemma_first_n_admitted(cfg: RateLimitConfig, times: Seq<u64>)
    requires
        forall|j: int| 0 < j < times.len() ==> #[trigger] times[j] < sat_add(times[0], cfg.window_ms()),
    ensures
        forall|i: int|
            0 <= i < times.len() && i < cfg.max_requests ==> #[trigger] answer_at(cfg, None, times, i)
                == Ok::<RateStatus, RateLimited>(
                RateStatus {
                    limit: cfg.max_requests,
                    remaining: (cfg.max_requests - 1 - i) as u32,
                    reset_at: sat_add(times[0], cfg.window_ms()),
                },
            ),
        forall|i: int|
            0 <= i < times.len() && i >= cfg.max_requests ==> #[trigger] answer_at(cfg, None, times, i)
                == Err::<RateStatus, RateLimited>(
                RateLimited { reset_at: sat_add(times[0], cfg.window_ms()) },
            ),
{
    assert forall|i: int| 0 <= i < times.len() implies {
        let a = #[trigger] answer_at(cfg, None, times, i);
        let r = sat_add(times[0], cfg.window_ms());
        &&& i < cfg.max_requests ==> a == Ok::<RateStatus, RateLimited>(
            RateStatus { limit: cfg.max_requests, remaining: (cfg.max_requests - 1 - i) as u32, reset_at: r },
        )
        &&& i >= cfg.max_requests ==> a == Err::<RateStatus, RateLimited>(RateLimited { reset_at: r })
    } by {
        if i == 0 {
            assert(times.take(0) =~= Seq::<u64>::empty());
        } else {
            lemma_window_within_first(cfg, times, i);
        }
    }
}

/// One call of `check_rate_limit` in a run: when the client's stored
/// window is the one the earlier checks at `times[..k]` left, the call at
/// `times[k]` answers `answer_at(.., k)` and leaves the window the checks
/// at `times[..k + 1]` leave. By induction, a run of calls on a limiter with
/// no window for the client answers as `lemma_first_n_admitted` states.
pub proof fn lemma_run_step(
    cfg: RateLimitConfig,
    m: Map<u128, RateWindow>,
    client: u128,
    times: Seq<u64>,
    k: int,
)
    requires
        0 <= k < times.len(),
        window_of(m, client) == window_after(cfg, None, times.take(k)),
    ensures
        check_step(cfg, window_of(m, client), times[k]).0 == answer_at(cfg, None, times, k),
        window_of(m.insert(client, check_step(cfg, window_of(m, client), times[k]).1), client)
            == window_after(cfg, None, times.take(k + 1)),
{
    assert(times.take(k + 1).drop_last() =~= times.take(k));
    assert(times.take(k + 1).last() == times[k]);
}

/// A client the limiter has never seen has no window: the start of a run.
pub proof fn lemma_run_start(cfg: RateLimitConfig, m: Map<u128, RateWindow>, client: u128, times: Seq<u64>)
    requires
        !m.contains_key(client),
    ensures
        window_of(m, client) == window_after(cfg, None, times.take(0)),
{
    assert(times.take(0) =~= Seq::<u64>::empty());
}

/// A run of checks as `check_rate_limit` states each one: `maps[k]` is the
/// limiter's map before the check at `times[k]`, `answers[k]` its answer.
pub open spec fn is_run(
    cfg: RateLimitConfig,
    client: u128,
    times: Seq<u64>,
    maps: Seq<Map<u128, RateWindow>>,
    answers: Seq<Result<RateStatus, RateLimited>>,
) -> bool {
    &&& maps.len() == times.len() + 1
    &&& answers.len() == times.len()
    &&& forall|k: int|
        0 <= k < times.len() ==> {
            let step = #[trigger] check_step(cfg, window_of(maps[k], client), times[k]);
            &&& answers[k] == step.0
            &&& maps[k + 1] == maps[k].insert(client, step.1)
        }
}

proof fn lemma_run_windows(
    cfg: RateLimitConfig,
    client: u128,
    times: Seq<u64>,
    maps: Seq<Map<u128, RateWindow>>,
    answers: Seq<Result<RateStatus, RateLimited>>,
    k: int,
)
    requires
        is_run(cfg, client, times, maps, answers),
        !maps[0].contains_key(client),
        0 <= k <= times.len(),
    ensures
        window_of(maps[k], client) == window_after(cfg, None, times.take(k)),
    decreases k,
{
    if k == 0 {
        lemma_run_start(cfg, maps[0], client, times);
    } else {
        lemma_run_windows(cfg, client, times, maps, answers, k - 1);
        lemma_run_step(cfg, maps[k - 1], client, times, k - 1);
    }
}

/// For an enabled limiter and a client it has not seen, a run of
/// `check_rate_limit` calls with no reset (every call before the window the
/// first one opened ends) admits the first `max_requests` calls with
/// `remaining` counting down from `max_requests - 1` to 0, and refuses every
/// later one.
pub proof fn lemma_run_counts_down(
    cfg: RateLimitConfig,
    client: u128,
    times: Seq<u64>,
    maps: Seq<Map<u128, RateWindow>>,
    answers: Seq<Result<RateStatus, RateLimited>>,
)
    requires
        is_run(cfg, client, times, maps, answers),
        !maps[0].contains_key(client),
        forall|j: int| 0 < j < times.len() ==> #[trigger] times[j] < sat_add(times[0], cfg.window_ms()),
    ensures
        forall|k: int|
            0 <= k < times.len() && k < cfg.max_requests ==> #[trigger] answers[k]
                == Ok::<RateStatus, RateLimited>(
                RateStatus {
                    limit: cfg.max_requests,
                    remaining: (cfg.max_requests - 1 - k) as u32,
                    reset_at: sat_add(times[0], cfg.window_ms()),
                },
            ),
        forall|k: int| 0 <= k < times.len() && k >= cfg.max_requests ==> #[trigger] answers[k] is Err,
{
    lemma_first_n_admitted(cfg, times);
    assert forall|k: int| 0 <= k < times.len() implies #[trigger] answers[k] == answer_at(cfg, None, times, k) by {
        lemma_run_windows(cfg, client, times, maps, answers, k);
        lemma_run_step(cfg, maps[k], client, times, k);
    }
}

/// Once a client's window has ended, its next check starts a new window and
/// is admitted with `remaining == max_requests - 1`: the count starts over.
pub proof fn lemma_rollover_resets(cfg: RateLimitConfig, w: RateWindow, now: u64)
    requires
        cfg.max_requests > 0,
        now >= w.reset_at,
    ensures
        check_step(cfg, Some(w), now).0 == Ok::<RateStatus, RateLimited>(
            RateStatus {
                limit: cfg.max_requests,
                remaining: (cfg.max_requests - 1) as u32,
                reset_at: sat_add(now, cfg.window_ms()),
            },
        ),
        check_step(cfg, Some(w), now).1 == (RateWindow { count: 1, reset_at: sat_add(now, cfg.window_ms()) }),
{
}

/// Fixed-window counters, one per client identity.
pub struct RateLimiter {
    windows: HashMap<u128, RateWindow>,
    config: RateLimitConfig,
}

impl View for RateLimiter {
    type V = Map<u128, RateWindow>;

    closed spec fn view(&self) -> Map<u128, RateWindow> {
        self.windows@
    }
}

impl RateLimiter {
    pub closed spec fn spec_config(&self) -> RateLimitConfig {
        self.config
    }

    pub fn new(config: RateLimitConfig) -> (r: Self)
        ensures
            r@ == Map::<u128, RateWindow>::empty(),
            r.spec_config() == config,
    {
        RateLimiter { windows: HashMap::new(), config }
    }

    pub fn config(&self) -> (r: RateLimitConfig)
        ensures
            r == self.spec_config(),
    {
        self.config
    }

    /// Counts one request of `client` at `now` (milliseconds) and answers
    /// whether it may pass. A disabled limiter admits it and records nothing.
    pub fn check_rate_limit(&mut self, client: u128, now: u64) -> (r: Result<RateStatus, RateLimited>)
        ensures
            final(self).spec_config() == old(self).spec_config(),
            !old(self).spec_config().enabled ==> {
                &&& r == Ok::<RateStatus, RateLimited>(bypass_status(old(self).spec_config(), now))
                &&& final(self)@ == old(self)@
            },
            old(self).spec_config().enabled ==> {
                let step = check_step(old(self).spec_config(), window_of(old(self)@, client), now);
                &&& r == step.0
                &&& final(self)@ == old(self)@.insert(client, step.1)
            },
    {
        let cfg = self.config;
        let window_ms = to_millis(cfg.window_seconds);
        if !cfg.enabled {
            return Ok(
                RateStatus {
                    limit: cfg.max_requests,
                    remaining: cfg.max_requests,
                    reset_at: now.saturating_add(window_ms),
                },
            );
        }
        let cur = match self.windows.get(&client) {
            Some(w) => if now < w.reset_at {
                *w
            } else {
                RateWindow { count: 0, reset_at: now.saturating_add(window_ms) }
            },
            None => RateWindow { count: 0, reset_at: now.saturating_add(window_ms) },
        };
        if cur.count < cfg.max_requests {
            let next = RateWindow { count: cur.count + 1, reset_at: cur.reset_at };
            self.windows.insert(client, next);
            Ok(
                RateStatus {
                    limit: cfg.max_requests,
                    remaining: cfg.max_requests - next.count,
                    reset_at: cur.reset_at,
                },
            )
        } else {
            self.windows.insert(client, cur);
            Err(RateLimited { reset_at: cur.reset_at })
        }
    }
}

} // verus!

use vstd::prelude::*;

use crate::scope::ScopeRect;
use crate::text::same_text;

verus! {

/// Default number of actions admitted per rate window.
pub const DEFAULT_MAX_ACTIONS: u32 = 20;

/// Default length of a rate window, in milliseconds.
pub const DEFAULT_WINDOW_MS: u64 = 10_000;

/// Process-wide policy settings, built once at start and handed to every decision.
#[derive(Debug, Clone, Copy, PartialEq, Eq, Structural)]
pub struct HandsConfig {
    /// Actions admitted within one rate window.
    pub max_actions: u32,
    /// Length of the rate window, in milliseconds.
    pub window_ms: u64,
    /// When true, requests that look proxied are let through.
    pub allow_remote: bool,
}

impl HandsConfig {
    /// The documented defaults: 20 actions per 10,000 ms, remote access disallowed.
    pub fn new() -> (r: Self)
        ensures
            r.max_actions == DEFAULT_MAX_ACTIONS,
            r.window_ms == DEFAULT_WINDOW_MS,
            !r.allow_remote,
    {
        HandsConfig { max_actions: DEFAULT_MAX_ACTIONS, window_ms: DEFAULT_WINDOW_MS, allow_remote: false }
    }
}

impl Default for HandsConfig {
    fn default() -> (r: Self)
        ensures
            r.max_actions == DEFAULT_MAX_ACTIONS,
            r.window_ms == DEFAULT_WINDOW_MS,
            !r.allow_remote,
    {
        HandsConfig::new()
    }
}

/// Every way a control request can be refused.
#[derive(Debug, Clone, PartialEq, Eq)]
pub enum HandsError {
    Killed,
    NotArmed,
    RateLimited,
    InvalidScope,
    ProxiedRequestRejected,
    MissingConfirmation,
    SensitiveContentRejected,
    TextTooLong,
    InjectorFailure(String),
    InjectorUnavailable,
}

impl HandsError {
    /// The HTTP status that reports this error.
    pub open spec fn status_spec(&self) -> u16 {
        match self {
            HandsError::InvalidScope => 400,
            HandsError::TextTooLong => 400,
            HandsError::MissingConfirmation => 428,
            HandsError::InjectorFailure(_) => 500,
            HandsError::InjectorUnavailable => 501,
            _ => 403,
        }
    }

    /// The human-readable message that goes with this error.
    pub open spec fn message_spec(&self) -> Seq<char> {
        match self {
            HandsError::Killed => "killed"@,
            HandsError::NotArmed => "not armed"@,
            HandsError::RateLimited => "rate limited"@,
            HandsError::InvalidScope => "invalid scope"@,
            HandsError::ProxiedRequestRejected => "proxied requests not allowed"@,
            HandsError::MissingConfirmation => "missing x-seealln-confirm: yes"@,
            HandsError::SensitiveContentRejected => "looks like login/MFA/CAPTCHA; refusing"@,
            HandsError::TextTooLong => "text too long (max 200)"@,
            HandsError::InjectorFailure(m) => m@,
            HandsError::InjectorUnavailable => "input injection unavailable"@,
        }
    }

    pub fn status(&self) -> (r: u16)
        ensures
            r == self.status_spec(),
    {
        match self {
            HandsError::InvalidScope => 400,
            HandsError::TextTooLong => 400,
            HandsError::MissingConfirmation => 428,
            HandsError::InjectorFailure(_) => 500,
            HandsError::InjectorUnavailable => 501,
            _ => 403,
        }
    }

    pub fn message(&self) -> (r: &str)
        ensures
            r@ == self.message_spec(),
    {
        match self {
            HandsError::Killed => "killed",
            HandsError::NotArmed => "not armed",
            HandsError::RateLimited => "rate limited",
            HandsError::InvalidScope => "invalid scope",
            HandsError::ProxiedRequestRejected => "proxied requests not allowed",
            HandsError::MissingConfirmation => "missing x-seealln-confirm: yes",
            HandsError::SensitiveContentRejected => "looks like login/MFA/CAPTCHA; refusing",
            HandsError::TextTooLong => "text too long (max 200)",
            HandsError::InjectorFailure(m) => m.as_str(),
            HandsError::InjectorUnavailable => "input injection unavailable",
        }
    }
}

/// The abstract safety state. Times are readings of a monotonic clock in milliseconds.
pub struct HandsView {
    pub killed: bool,
    pub armed_until: Option<u64>,
    pub token: Option<Seq<char>>,
    pub window_start: Option<u64>,
    pub window_actions: u32,
    pub scope: Option<ScopeRect>,
}

impl HandsView {
    /// Expiry and token come and go together, a closed window counts nothing, and a
    /// stored scope is a valid rectangle.
    pub open spec fn wf(self) -> bool {
        &&& (self.armed_until is Some <==> self.token is Some)
        &&& (self.window_start is None ==> self.window_actions == 0)
        &&& (self.scope matches Some(r) ==> r.wf())
    }

    /// The state at process start: not killed, disarmed, no window, no scope.
    pub open spec fn initial() -> HandsView {
        HandsView {
            killed: false,
            armed_until: None,
            token: None,
            window_start: None,
            window_actions: 0,
            scope: None,
        }
    }

    /// Whether `token` is the current arm token and `now` has not passed its expiry.
    pub open spec fn armed_for(self, token: Seq<char>, now: u64) -> bool {
        match (self.armed_until, self.token) {
            (Some(until), Some(t)) => now <= until && t == token,
            _ => false,
        }
    }

    /// Arming, rate window and kill flag cleared or set as `kill` leaves them.
    pub open spec fn killed_state(self) -> HandsView {
        HandsView { killed: true, ..self.disarmed() }
    }

    /// Arming and rate window cleared; the rest unchanged.
    pub open spec fn disarmed(self) -> HandsView {
        HandsView { armed_until: None, token: None, window_start: None, window_actions: 0, ..self }
    }

    /// Armed with `token` until `until`; the rest unchanged.
    pub open spec fn armed(self, token: Seq<char>, until: u64) -> HandsView {
        HandsView { armed_until: Some(until), token: Some(token), ..self }
    }

    /// Whether an admission check at `now` opens a fresh window.
    pub open spec fn window_resets(self, now: u64, window_ms: u64) -> bool {
        match self.window_start {
            None => true,
            Some(t0) => now > t0 + window_ms,
        }
    }

    /// The rate window as an admission check at `now` sees it, reset if due.
    pub open spec fn window_at(self, now: u64, window_ms: u64) -> (Option<u64>, u32) {
        if self.window_resets(now, window_ms) {
            (Some(now), 0u32)
        } else {
            (self.window_start, self.window_actions)
        }
    }

    /// The outcome of `consume_action`: kill switch, then arming, then rate limit.
    pub open spec fn consume_result(self, token: Seq<char>, now: u64, cfg: HandsConfig) -> Result<(), HandsError> {
        if self.killed {
            Err(HandsError::Killed)
        } else if !self.armed_for(token, now) {
            Err(HandsError::NotArmed)
        } else if self.window_at(now, cfg.window_ms).1 >= cfg.max_actions {
            Err(HandsError::RateLimited)
        } else {
            Ok(())
        }
    }

    /// The state after `consume_action`: only the rate window changes, and only once
    /// the kill switch and arming checks have passed.
    pub open spec fn consumed(self, token: Seq<char>, now: u64, cfg: HandsConfig) -> HandsView {
        if self.killed || !self.armed_for(token, now) {
            self
        } else {
            let (start, count) = self.window_at(now, cfg.window_ms);
            let count = if count >= cfg.max_actions { count } else { (count + 1) as u32 };
            HandsView { window_start: start, window_actions: count, ..self }
        }
    }
}

/// The results of consuming with `token` at each reading of `times` in turn, and the
/// state left afterwards.
pub open spec fn consume_run(v: HandsView, token: Seq<char>, times: Seq<u64>, cfg: HandsConfig) -> (HandsView, Seq<Result<(), HandsError>>)
    decreases times.len(),
{
    if times.len() == 0 {
        (v, Seq::empty())
    } else {
        let (w, rs) = consume_run(v, token, times.drop_last(), cfg);
        (w.consumed(token, times.last(), cfg), rs.push(w.consume_result(token, times.last(), cfg)))
    }
}

proof fn lemma_consume_run_prefix(v: HandsView, token: Seq<char>, until: u64, times: Seq<u64>, cfg: HandsConfig, n: int)
    requires
        !v.killed,
        v.window_start is None,
        v.armed_until == Some(until),
        v.token == Some(token),
        0 <= n <= times.len(),
        n <= cfg.max_actions,
        forall|i: int| 0 <= i < times.len() ==> #[trigger] times[i] <= until,
        forall|i: int| 0 <= i < times.len() ==> #[trigger] times[i] <= times[0] + cfg.window_ms,
    ensures
        consume_run(v, token, times.subrange(0, n), cfg).1.len() == n,
        forall|i: int| 0 <= i < n ==> #[trigger] consume_run(v, token, times.subrange(0, n), cfg).1[i] == Ok::<(), HandsError>(()),
        n == 0 ==> consume_run(v, token, times.subrange(0, n), cfg).0 == v,
        n > 0 ==> consume_run(v, token, times.subrange(0, n), cfg).0 == (HandsView {
            window_start: Some(times[0]),
            window_actions: n as u32,
            ..v
        }),
    decreases n,
{
    if n > 0 {
        lemma_consume_run_prefix(v, token, until, times, cfg, n - 1);
        assert(times.subrange(0, n).drop_last() == times.subrange(0, n - 1));
        assert(times.subrange(0, n).last() == times[n - 1]);
    }
}

/// With a fresh rate window, arming and then consuming with the same token at readings
/// within the arming window and within one rate window admits exactly `max_actions`
/// actions; the next one is refused as rate limited.
pub proof fn lemma_armed_run_admits_up_to_max(v: HandsView, token: Seq<char>, until: u64, times: Seq<u64>, cfg: HandsConfig)
    requires
        v.wf(),
        !v.killed,
        v.window_start is None,
        times.len() == cfg.max_actions + 1,
        forall|i: int| 0 <= i < times.len() ==> #[trigger] times[i] <= until,
        forall|i: int| 0 <= i < times.len() ==> #[trigger] times[i] <= times[0] + cfg.window_ms,
    ensures
        forall|i: int| 0 <= i < cfg.max_actions ==> #[trigger] consume_run(v.armed(token, until), token, times, cfg).1[i]
            == Ok::<(), HandsError>(()),
        consume_run(v.armed(token, until), token, times, cfg).1[cfg.max_actions as int]
            == Err::<(), HandsError>(HandsError::RateLimited),
{
    let a = v.armed(token, until);
    let m = cfg.max_actions as int;
    lemma_consume_run_prefix(a, token, until, times, cfg, m);
    assert(times.subrange(0, m + 1) == times);
    assert(times.drop_last() == times.subrange(0, m));
    let (w, rs) = consume_run(a, token, times.subrange(0, m), cfg);
    assert(consume_run(a, token, times, cfg).1 == rs.push(w.consume_result(token, times.last(), cfg)));
    if m > 0 {
        assert(times.last() == times[m]);
        assert(!w.window_resets(times.last(), cfg.window_ms));
    }
}

/// Once the kill switch is engaged every action is refused as killed, and a refused
/// action leaves the state as it was. Arming keeps the switch engaged, so actions stay
/// refused however often the state is armed again.
pub proof fn lemma_killed_blocks_actions(v: HandsView, arm_token: Seq<char>, until: u64, token: Seq<char>, now: u64, cfg: HandsConfig)
    ensures
        v.killed_state().killed,
        v.killed ==> v.consume_result(token, now, cfg) == Err::<(), HandsError>(HandsError::Killed),
        v.killed ==> v.consumed(token, now, cfg) == v,
        v.killed ==> v.armed(arm_token, until).killed,
        v.killed_state().armed(arm_token, until).consume_result(token, now, cfg)
            == Err::<(), HandsError>(HandsError::Killed),
{
}

/// Disarming closes the rate window with a count of zero and leaves no token armed.
pub proof fn lemma_disarm_clears(v: HandsView, token: Seq<char>, now: u64)
    ensures
        v.disarmed().window_actions == 0,
        v.disarmed().window_start is None,
        v.disarmed().armed_until is None,
        v.disarmed().token is None,
        !v.disarmed().armed_for(token, now),
{
}

/// Once the rate window has elapsed, an armed action is admitted again and the count
/// restarts at one in a window opened at that moment.
pub proof fn lemma_window_restarts(v: HandsView, token: Seq<char>, now: u64, cfg: HandsConfig)
    requires
        !v.killed,
        v.armed_for(token, now),
        v.window_start matches Some(t0) && now > t0 + cfg.window_ms,
        cfg.max_actions >= 1,
    ensures
        v.consume_result(token, now, cfg) == Ok::<(), HandsError>(()),
        v.consumed(token, now, cfg).window_start == Some(now),
        v.consumed(token, now, cfg).window_actions == 1,
{
}

/// The single shared safety state: kill flag, arming, rate window and scope.
pub struct HandsState {
    armed_until: Option<u64>,
    token: Option<String>,
    window_start: Option<u64>,
    window_actions: u32,
    killed: bool,
    scope: Option<ScopeRect>,
}

impl View for HandsState {
    type V = HandsView;

    closed spec fn view(&self) -> HandsView {
        HandsView {
            killed: self.killed,
            armed_until: self.armed_until,
            token: match self.token {
                Some(t) => Some(t@),
                None => None,
            },
            window_start: self.window_start,
            window_actions: self.window_actions,
            scope: self.scope,
        }
    }
}

impl HandsState {
    /// A fresh state: not killed, disarmed, no window, no scope.
    pub fn new() -> (r: Self)
        ensures
            r@ == HandsView::initial(),
            r@.wf(),
    {
        HandsState {
            armed_until: None,
            token: None,
            window_start: None,
            window_actions: 0,
            killed: false,
            scope: None,
        }
    }

    pub fn is_killed(&self) -> (r: bool)
        ensures
            r == self@.killed,
    {
        self.killed
    }

    /// Engages the kill switch and clears arming and the rate window.
    pub fn kill(&mut self)
        requires
            old(self)@.wf(),
        ensures
            final(self)@ == old(self)@.killed_state(),
            final(self)@.wf(),
    {
        self.killed = true;
        self.armed_until = None;
        self.token = None;
        self.window_start = None;
        self.window_actions = 0;
    }

    /// Clears the kill flag only; arming stays as it was.
    pub fn reset_kill(&mut self)
        requires
            old(self)@.wf(),
        ensures
            final(self)@.wf(),
            final(self)@ == (HandsView { killed: false, ..old(self)@ }),
    {
        self.killed = false;
    }

    /// Stores a scope, or clears it with `None`. A rectangle without positive width
    /// and height is refused and the stored scope is kept.
    pub fn set_scope(&mut self, scope: Option<ScopeRect>) -> (r: Result<(), HandsError>)
        requires
            old(self)@.wf(),
        ensures
            final(self)@.wf(),
            (scope matches Some(s) && !s.wf()) ==> r == Err::<(), HandsError>(HandsError::InvalidScope)
                && final(self)@ == old(self)@,
            !(scope matches Some(s) && !s.wf()) ==> r is Ok && final(self)@ == (HandsView { scope, ..old(self)@ }),
    {
        if let Some(s) = scope {
            if !s.is_valid() {
                return Err(HandsError::InvalidScope);
            }
        }
        self.scope = scope;
        Ok(())
    }

    /// Actions admitted in the current rate window.
    pub fn rate_window_count(&self) -> (r: u32)
        ensures
            r == self@.window_actions,
    {
        self.window_actions
    }

    pub fn get_scope(&self) -> (r: Option<ScopeRect>)
        ensures
            r == self@.scope,
    {
        self.scope
    }

    /// True iff `token` is the current arm token and `now` is not past its expiry.
    pub fn is_armed(&self, token: &str, now: u64) -> (r: bool)
        ensures
            r == self@.armed_for(token@, now),
    {
        match self.armed_until {
            None => false,
            Some(until) => match &self.token {
                None => false,
                Some(t) => now <= until && same_text(t.as_str(), token),
            },
        }
    }

    /// Whether `token` is the stored arm token, whatever its expiry.
    pub fn holds_token(&self, token: &str) -> (r: bool)
        ensures
            r == (self@.token == Some(token@)),
    {
        match &self.token {
            None => false,
            Some(t) => same_text(t.as_str(), token),
        }
    }

    /// Arms with `token` for `ttl_ms` from `now`, replacing any earlier arming. The kill
    /// flag and the rate window are left as they are.
    pub fn arm(&mut self, ttl_ms: u64, token: String, now: u64)
        requires
            old(self)@.wf(),
            now + ttl_ms <= u64::MAX,
        ensures
            final(self)@.wf(),
            final(self)@ == old(self)@.armed(token@, (now + ttl_ms) as u64),
    {
        self.armed_until = Some(now + ttl_ms);
        self.token = Some(token);
    }

    /// Clears arming and the rate window.
    pub fn disarm(&mut self)
        requires
            old(self)@.wf(),
        ensures
            final(self)@ == old(self)@.disarmed(),
            final(self)@.wf(),
    {
        self.armed_until = None;
        self.token = None;
        self.window_start = None;
        self.window_actions = 0;
    }

    /// The one gate in front of every action: refuses when killed, then when `token`
    /// is not armed at `now`, then when the rate window is full. On admission the
    /// window's count goes up by one before the action runs.
    pub fn consume_action(&mut self, token: &str, now: u64, cfg: &HandsConfig) -> (r: Result<(), HandsError>)
        requires
            old(self)@.wf(),
        ensures
            final(self)@.wf(),
            r == old(self)@.consume_result(token@, now, *cfg),
            final(self)@ == old(self)@.consumed(token@, now, *cfg),
    {
        if self.is_killed() {
            return Err(HandsError::Killed);
        }
        if !self.is_armed(token, now) {
            return Err(HandsError::NotArmed);
        }
        let reset = match self.window_start {
            None => true,
            Some(t0) => now > t0 && now - t0 > cfg.window_ms,
        };
        if reset {
            self.window_start = Some(now);
            self.window_actions = 0;
        }
        if self.window_actions >= cfg.max_actions {
            return Err(HandsError::RateLimited);
        }
        self.window_actions = self.window_actions + 1;
        Ok(())
    }
}

} // verus!

use vstd::prelude::*;
use vstd::utf8::encode_utf8;

use crate::scope::{clamp, clamp_spec, ScopeRect};
use crate::state::{HandsConfig, HandsError, HandsState, HandsView};
use crate::text::{
    gen_token, is_blocked_phrase, is_confirmed, is_yes, lemma_token_text_differs, lower_of, reject_sensitive_text,
    same_text, token_text,
};

verus! {

/// Shortest arming window granted, in milliseconds.
pub const MIN_TTL_MS: u64 = 5_000;

/// Longest arming window granted, in milliseconds.
pub const MAX_TTL_MS: u64 = 300_000;

/// Arming window granted when none is asked for, in milliseconds.
pub const DEFAULT_TTL_MS: u64 = 30_000;

/// Longest text that a type request may carry, in bytes.
pub const MAX_TEXT_LEN: usize = 200;

/// Bound on either coordinate of a move target before any screen or scope clamp.
pub const COORD_LIMIT: i32 = 10_000;

/// Parameters of an arm request.
pub struct ArmParams {
    pub ttl_ms: Option<u64>,
}

/// A scope request: `None` clears the confinement.
pub struct ScopeReq {
    pub scope: Option<ScopeRect>,
}

/// A pointer move to absolute screen coordinates.
pub struct MoveReq {
    pub x: i32,
    pub y: i32,
    pub token: String,
}

/// A click; the button defaults to the left one.
pub struct ClickReq {
    pub button: Option<String>,
    pub token: String,
}

/// Text to type.
pub struct TypeReq {
    pub text: String,
    pub token: String,
}

/// What a granted arm request reports back.
pub struct ArmGrant {
    pub token: String,
    pub ttl_ms: u64,
}

/// What a status request reports back.
#[derive(Debug, Clone, Copy, PartialEq, Eq, Structural)]
pub struct SafetyStatus {
    pub killed: bool,
    pub scope: Option<ScopeRect>,
}

#[derive(Debug, Clone, Copy, PartialEq, Eq, Structural)]
pub enum MouseButton {
    Left,
    Right,
    Middle,
}

/// The arming window granted for a requested one: the default when absent, then
/// bounded to `[MIN_TTL_MS, MAX_TTL_MS]`.
pub open spec fn ttl_for(ttl_ms: Option<u64>) -> u64 {
    let t = match ttl_ms {
        Some(t) => t,
        None => DEFAULT_TTL_MS,
    };
    if t < MIN_TTL_MS {
        MIN_TTL_MS
    } else if t > MAX_TTL_MS {
        MAX_TTL_MS
    } else {
        t
    }
}

/// Whether a request passes the origin check: always when remote access is allowed,
/// otherwise only without a forwarding indicator.
pub open spec fn origin_ok(cfg: HandsConfig, forwarded: bool) -> bool {
    cfg.allow_remote || !forwarded
}

/// The outcome of the origin check followed by the action gate.
pub open spec fn gate_result(v: HandsView, cfg: HandsConfig, forwarded: bool, token: Seq<char>, now: u64) -> Result<(), HandsError> {
    if !origin_ok(cfg, forwarded) {
        Err(HandsError::ProxiedRequestRejected)
    } else {
        v.consume_result(token, now, cfg)
    }
}

/// The state after the origin check and the action gate.
pub open spec fn gate_state(v: HandsView, cfg: HandsConfig, forwarded: bool, token: Seq<char>, now: u64) -> HandsView {
    if !origin_ok(cfg, forwarded) {
        v
    } else {
        v.consumed(token, now, cfg)
    }
}

/// Where a move lands: bounded to `[-COORD_LIMIT, COORD_LIMIT]`, then to the display
/// when its size is known, then into the scope when one is set.
pub open spec fn move_target(x: int, y: int, display: Option<(i32, i32)>, scope: Option<ScopeRect>) -> (int, int) {
    let x1 = clamp_spec(x, -10_000, 10_000);
    let y1 = clamp_spec(y, -10_000, 10_000);
    let (x2, y2) = match display {
        Some((w, h)) => (clamp_spec(x1, 0, last_index_spec(w)), clamp_spec(y1, 0, last_index_spec(h))),
        None => (x1, y1),
    };
    match scope {
        Some(s) => s.clamp_point_spec(x2, y2),
        None => (x2, y2),
    }
}

/// The button a click names: left when none is named.
pub open spec fn button_for(name: Option<Seq<char>>) -> Option<MouseButton> {
    match name {
        None => Some(MouseButton::Left),
        Some(n) => if n == "left"@ {
            Some(MouseButton::Left)
        } else if n == "right"@ {
            Some(MouseButton::Right)
        } else if n == "middle"@ {
            Some(MouseButton::Middle)
        } else {
            None
        },
    }
}

pub open spec fn opt_view(s: Option<String>) -> Option<Seq<char>> {
    match s {
        Some(t) => Some(t@),
        None => None,
    }
}

/// The last coordinate along a screen side of `n` pixels: `n - 1`, saturating at `i32::MIN`.
pub open spec fn last_index_spec(n: i32) -> int {
    if n > i32::MIN {
        n - 1
    } else {
        n as int
    }
}

fn last_index(n: i32) -> (r: i32)
    ensures
        r == last_index_spec(n),
{
    if n > i32::MIN {
        n - 1
    } else {
        n
    }
}

/// A reading next to `n`: one later, or one earlier at the top of the range.
pub open spec fn next_reading(n: u64) -> u64 {
    if n < u64::MAX {
        (n + 1) as u64
    } else {
        (n - 1) as u64
    }
}

/// The clock reading a new token is made from: `nanos`, unless its token is the one
/// already stored, then the reading next to it.
pub open spec fn token_seed(nanos: u64, stored: Option<Seq<char>>) -> u64 {
    if stored == Some(token_text(nanos as nat)) {
        next_reading(nanos)
    } else {
        nanos
    }
}

/// A token made from the reading `nanos` that differs from the one `state` stores.
fn fresh_token(state: &HandsState, nanos: u64) -> (r: String)
    ensures
        r@ == token_text(token_seed(nanos, state@.token) as nat),
        state@.token matches Some(t0) ==> r@ != t0,
{
    let first = gen_token(nanos);
    if state.holds_token(first.as_str()) {
        let next = if nanos < u64::MAX {
            nanos + 1
        } else {
            nanos - 1
        };
        proof {
            lemma_token_text_differs(next as nat, nanos as nat);
        }
        gen_token(next)
    } else {
        first
    }
}

/// The arming window granted for a requested one.
pub fn effective_ttl_ms(ttl_ms: Option<u64>) -> (r: u64)
    ensures
        r == ttl_for(ttl_ms),
{
    let t = match ttl_ms {
        Some(t) => t,
        None => DEFAULT_TTL_MS,
    };
    if t < MIN_TTL_MS {
        MIN_TTL_MS
    } else if t > MAX_TTL_MS {
        MAX_TTL_MS
    } else {
        t
    }
}

/// Origin guard: refuses a request that carries a forwarding indicator, unless remote
/// access is allowed. A heuristic next to binding to a local address, not instead of it.
pub fn require_local_only(cfg: &HandsConfig, forwarded: bool) -> (r: Result<(), HandsError>)
    ensures
        r == (if origin_ok(*cfg, forwarded) {
            Ok::<(), HandsError>(())
        } else {
            Err(HandsError::ProxiedRequestRejected)
        }),
{
    if cfg.allow_remote {
        return Ok(());
    }
    if forwarded {
        return Err(HandsError::ProxiedRequestRejected);
    }
    Ok(())
}

/// Parses a button name: none means left; an unknown name gives `None`.
pub fn parse_button(name: Option<&str>) -> (r: Option<MouseButton>)
    ensures
        r == button_for(
            match name {
                Some(n) => Some(n@),
                None => None,
            },
        ),
{
    match name {
        None => Some(MouseButton::Left),
        Some(n) => {
            if same_text(n, "left") {
                Some(MouseButton::Left)
            } else if same_text(n, "right") {
                Some(MouseButton::Right)
            } else if same_text(n, "middle") {
                Some(MouseButton::Middle)
            } else {
                None
            }
        },
    }
}

/// Arms the state with a fresh token made from the clock reading `nanos`, for the
/// granted window from `now`. The new token never equals the one stored before, so a
/// re-arm always invalidates the previous token. Arming is not refused while killed: the kill switch
/// blocks actions, not arming.
pub fn hands_arm(state: &mut HandsState, cfg: &HandsConfig, forwarded: bool, params: &ArmParams, now: u64, nanos: u64) -> (r: Result<ArmGrant, HandsError>)
    requires
        old(state)@.wf(),
        now <= u64::MAX - MAX_TTL_MS,
    ensures
        final(state)@.wf(),
        !origin_ok(*cfg, forwarded) ==> r is Err && r->Err_0 == HandsError::ProxiedRequestRejected
            && final(state)@ == old(state)@,
        origin_ok(*cfg, forwarded) ==> r is Ok && r->Ok_0.ttl_ms == ttl_for(params.ttl_ms)
            && r->Ok_0.token@ == token_text(token_seed(nanos, old(state)@.token) as nat)
            && (old(state)@.token matches Some(t0) ==> r->Ok_0.token@ != t0
                && forall|at: u64| !(#[trigger] final(state)@.armed_for(t0, at)))
            && final(state)@ == old(state)@.armed(r->Ok_0.token@, (now + ttl_for(params.ttl_ms)) as u64),
{
    if let Err(e) = require_local_only(cfg, forwarded) {
        return Err(e);
    }
    let ttl_ms = effective_ttl_ms(params.ttl_ms);
    let token = fresh_token(state, nanos);
    state.arm(ttl_ms, token.clone(), now);
    Ok(ArmGrant { token, ttl_ms })
}

/// Disarms: clears arming and the rate window.
pub fn hands_disarm(state: &mut HandsState, cfg: &HandsConfig, forwarded: bool) -> (r: Result<(), HandsError>)
    requires
        old(state)@.wf(),
    ensures
        final(state)@.wf(),
        !origin_ok(*cfg, forwarded) ==> r == Err::<(), HandsError>(HandsError::ProxiedRequestRejected)
            && final(state)@ == old(state)@,
        origin_ok(*cfg, forwarded) ==> r is Ok && final(state)@ == old(state)@.disarmed(),
{
    require_local_only(cfg, forwarded)?;
    state.disarm();
    Ok(())
}

/// Engages the kill switch.
pub fn safety_kill(state: &mut HandsState, cfg: &HandsConfig, forwarded: bool) -> (r: Result<(), HandsError>)
    requires
        old(state)@.wf(),
    ensures
        final(state)@.wf(),
        !origin_ok(*cfg, forwarded) ==> r == Err::<(), HandsError>(HandsError::ProxiedRequestRejected)
            && final(state)@ == old(state)@,
        origin_ok(*cfg, forwarded) ==> r is Ok && final(state)@ == old(state)@.killed_state(),
{
    require_local_only(cfg, forwarded)?;
    state.kill();
    Ok(())
}

/// Releases the kill switch, only with a confirmation signal that reads `yes`.
pub fn safety_reset(state: &mut HandsState, cfg: &HandsConfig, forwarded: bool, confirm: Option<&str>) -> (r: Result<(), HandsError>)
    requires
        old(state)@.wf(),
    ensures
        final(state)@.wf(),
        !origin_ok(*cfg, forwarded) ==> r == Err::<(), HandsError>(HandsError::ProxiedRequestRejected)
            && final(state)@ == old(state)@,
        origin_ok(*cfg, forwarded) && !(confirm is Some && is_yes(confirm->0@))
            ==> r == Err::<(), HandsError>(HandsError::MissingConfirmation) && final(state)@ == old(state)@,
        origin_ok(*cfg, forwarded) && confirm is Some && is_yes(confirm->0@)
            ==> r is Ok && final(state)@ == (HandsView { killed: false, ..old(state)@ }),
{
    require_local_only(cfg, forwarded)?;
    if !is_confirmed(confirm) {
        return Err(HandsError::MissingConfirmation);
    }
    state.reset_kill();
    Ok(())
}

/// Reports the kill flag and the scope.
pub fn safety_status(state: &HandsState, cfg: &HandsConfig, forwarded: bool) -> (r: Result<SafetyStatus, HandsError>)
    ensures
        r == (if origin_ok(*cfg, forwarded) {
            Ok::<SafetyStatus, HandsError>(SafetyStatus { killed: state@.killed, scope: state@.scope })
        } else {
            Err(HandsError::ProxiedRequestRejected)
        }),
{
    require_local_only(cfg, forwarded)?;
    Ok(SafetyStatus { killed: state.is_killed(), scope: state.get_scope() })
}

/// Sets or clears the scope, refusing a rectangle without positive width and height;
/// reports the scope stored afterwards.
pub fn scope_set(state: &mut HandsState, cfg: &HandsConfig, forwarded: bool, req: &ScopeReq) -> (r: Result<Option<ScopeRect>, HandsError>)
    requires
        old(state)@.wf(),
    ensures
        final(state)@.wf(),
        !origin_ok(*cfg, forwarded) ==> r == Err::<Option<ScopeRect>, HandsError>(HandsError::ProxiedRequestRejected)
            && final(state)@ == old(state)@,
        origin_ok(*cfg, forwarded) && (req.scope matches Some(s) && !s.wf())
            ==> r == Err::<Option<ScopeRect>, HandsError>(HandsError::InvalidScope) && final(state)@ == old(state)@,
        origin_ok(*cfg, forwarded) && !(req.scope matches Some(s) && !s.wf())
            ==> r == Ok::<Option<ScopeRect>, HandsError>(req.scope)
            && final(state)@ == (HandsView { scope: req.scope, ..old(state)@ }),
{
    require_local_only(cfg, forwarded)?;
    state.set_scope(req.scope)?;
    Ok(state.get_scope())
}

/// Gates a move and computes where it lands. `display` is the screen's width and height
/// when known.
pub fn hands_move(state: &mut HandsState, cfg: &HandsConfig, forwarded: bool, req: &MoveReq, display: Option<(i32, i32)>, now: u64) -> (r: Result<(i32, i32), HandsError>)
    requires
        old(state)@.wf(),
    ensures
        final(state)@.wf(),
        final(state)@ == gate_state(old(state)@, *cfg, forwarded, req.token@, now),
        gate_result(old(state)@, *cfg, forwarded, req.token@, now) is Err
            ==> r is Err && r->Err_0 == gate_result(old(state)@, *cfg, forwarded, req.token@, now)->Err_0,
        gate_result(old(state)@, *cfg, forwarded, req.token@, now) is Ok
            ==> r is Ok && (r->Ok_0.0 as int, r->Ok_0.1 as int) == move_target(req.x as int, req.y as int, display, old(state)@.scope),
{
    require_local_only(cfg, forwarded)?;
    state.consume_action(req.token.as_str(), now, cfg)?;
    let mut x = clamp(req.x, -COORD_LIMIT, COORD_LIMIT);
    let mut y = clamp(req.y, -COORD_LIMIT, COORD_LIMIT);
    if let Some((w, h)) = display {
        x = clamp(x, 0, last_index(w));
        y = clamp(y, 0, last_index(h));
    }
    if let Some(scope) = state.get_scope() {
        let (cx, cy) = scope.clamp_point(x, y);
        x = cx;
        y = cy;
    }
    Ok((x, y))
}

/// Gates a click, then requires the confirmation signal, then names the button.
/// An unknown button name is an injector failure.
pub fn hands_click(state: &mut HandsState, cfg: &HandsConfig, forwarded: bool, req: &ClickReq, confirm: Option<&str>, now: u64) -> (r: Result<MouseButton, HandsError>)
    requires
        old(state)@.wf(),
    ensures
        final(state)@.wf(),
        final(state)@ == gate_state(old(state)@, *cfg, forwarded, req.token@, now),
        gate_result(old(state)@, *cfg, forwarded, req.token@, now) is Err
            ==> r is Err && r->Err_0 == gate_result(old(state)@, *cfg, forwarded, req.token@, now)->Err_0,
        gate_result(old(state)@, *cfg, forwarded, req.token@, now) is Ok && !(confirm is Some && is_yes(confirm->0@))
            ==> r is Err && r->Err_0 == HandsError::MissingConfirmation,
        gate_result(old(state)@, *cfg, forwarded, req.token@, now) is Ok && confirm is Some && is_yes(confirm->0@)
            ==> match button_for(opt_view(req.button)) {
                Some(b) => r == Ok::<MouseButton, HandsError>(b),
                None => r is Err && r->Err_0 is InjectorFailure && r->Err_0->InjectorFailure_0@ == "invalid button"@,
            },
{
    require_local_only(cfg, forwarded)?;
    state.consume_action(req.token.as_str(), now, cfg)?;
    if !is_confirmed(confirm) {
        return Err(HandsError::MissingConfirmation);
    }
    let name = match &req.button {
        Some(b) => Some(b.as_str()),
        None => None,
    };
    match parse_button(name) {
        Some(b) => Ok(b),
        None => Err(HandsError::InjectorFailure("invalid button".to_owned())),
    }
}

/// Gates typing, then requires the confirmation signal, then bounds the length, then
/// runs the content guard. `Ok` means the text may be typed.
pub fn hands_type(state: &mut HandsState, cfg: &HandsConfig, forwarded: bool, req: &TypeReq, confirm: Option<&str>, now: u64) -> (r: Result<(), HandsError>)
    requires
        old(state)@.wf(),
    ensures
        final(state)@.wf(),
        final(state)@ == gate_state(old(state)@, *cfg, forwarded, req.token@, now),
        r == (if gate_result(old(state)@, *cfg, forwarded, req.token@, now) is Err {
            gate_result(old(state)@, *cfg, forwarded, req.token@, now)
        } else if !(confirm is Some && is_yes(confirm->0@)) {
            Err(HandsError::MissingConfirmation)
        } else if encode_utf8(req.text@).len() as usize > MAX_TEXT_LEN {
            Err(HandsError::TextTooLong)
        } else if is_blocked_phrase(lower_of(req.text@)) {
            Err(HandsError::SensitiveContentRejected)
        } else {
            Ok(())
        }),
{
    require_local_only(cfg, forwarded)?;
    state.consume_action(req.token.as_str(), now, cfg)?;
    if !is_confirmed(confirm) {
        return Err(HandsError::MissingConfirmation);
    }
    let text = req.text.as_str();
    if text.len() > MAX_TEXT_LEN {
        return Err(HandsError::TextTooLong);
    }
    if reject_sensitive_text(text) {
        return Err(HandsError::SensitiveContentRejected);
    }
    Ok(())
}

} // verus!

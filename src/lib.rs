//! Safety gate for remote screen control: arming with expiry, a kill switch, a per-window
//! rate limit, confinement to a scope rectangle, confirmation for irreversible actions and
//! a content filter for typed text. Every decision takes the clock reading and the request
//! facts as plain values; the HTTP layer, capture and input injection live outside.
pub mod frame;
pub mod handlers;
pub mod scope;
pub mod state;
pub mod text;

pub use handlers::{
    effective_ttl_ms, hands_arm, hands_click, hands_disarm, hands_move, hands_type, parse_button,
    require_local_only, safety_kill, safety_reset, safety_status, scope_set, ArmGrant, ArmParams,
    ClickReq, MouseButton, MoveReq, SafetyStatus, ScopeReq, TypeReq,
};
pub use frame::{bgra_to_rgb, placeholder_rgb};
pub use scope::{clamp, ScopeRect};
pub use state::{HandsConfig, HandsError, HandsState};
pub use text::{decimal_string, gen_token, is_confirmed, reject_lowered_text, reject_sensitive_text, same_text};

use seealln::{
    clamp, effective_ttl_ms, hands_arm, hands_click, hands_disarm, hands_move, hands_type,
    is_confirmed, parse_button, reject_lowered_text, reject_sensitive_text, require_local_only,
    safety_kill, safety_reset, safety_status, same_text, scope_set, ArmParams, ClickReq,
    HandsConfig, HandsError, HandsState, MouseButton, MoveReq, ScopeRect, ScopeReq, TypeReq,
};

fn rect(x: i32, y: i32, w: i32, h: i32) -> ScopeRect {
    ScopeRect { x, y, w, h }
}

fn armed_state(token: &str, ttl_ms: u64) -> HandsState {
    let mut s = HandsState::new();
    s.arm(ttl_ms, token.to_string(), 0);
    s
}

#[test]
fn clamp_point_maps_far_point_to_corner() {
    let r = rect(100, 100, 10, 10);
    assert_eq!(r.clamp_point(200, 5), (109, 100));
}

#[test]
fn clamp_point_keeps_inside_point() {
    let r = rect(100, 100, 10, 10);
    assert_eq!(r.clamp_point(105, 107), (105, 107));
    assert_eq!(r.clamp_point(-50, 1000), (100, 109));
}

#[test]
fn clamp_point_near_i32_max() {
    let r = rect(i32::MAX - 4, 0, 100, 1);
    assert_eq!(r.clamp_point(i32::MAX, 7), (i32::MAX, 0));
    assert_eq!(r.clamp_point(0, -7), (i32::MAX - 4, 0));
}

#[test]
fn contains_is_half_open() {
    let r = rect(100, 100, 10, 10);
    assert!(r.contains(100, 100));
    assert!(r.contains(109, 109));
    assert!(!r.contains(110, 105));
    assert!(!r.contains(105, 110));
    assert!(!r.contains(99, 105));
    assert!(rect(i32::MAX - 1, 0, 10, 1).contains(i32::MAX, 0));
}

#[test]
fn is_valid_needs_positive_size() {
    assert!(rect(0, 0, 1, 1).is_valid());
    assert!(!rect(0, 0, 0, 1).is_valid());
    assert!(!rect(0, 0, 1, -3).is_valid());
}

#[test]
fn clamp_bounds_both_sides() {
    assert_eq!(clamp(5, 0, 10), 5);
    assert_eq!(clamp(-5, 0, 10), 0);
    assert_eq!(clamp(50, 0, 10), 10);
}

#[test]
fn config_defaults() {
    let c = HandsConfig::default();
    assert_eq!(c.max_actions, 20);
    assert_eq!(c.window_ms, 10_000);
    assert!(!c.allow_remote);
    assert_eq!(HandsConfig::new(), c);
}

#[test]
fn new_state_is_empty() {
    let s = HandsState::new();
    assert!(!s.is_killed());
    assert!(!s.is_armed("t1", 0));
    assert_eq!(s.get_scope(), None);
    assert_eq!(s.rate_window_count(), 0);
}

#[test]
fn arm_then_consume_up_to_max_then_rate_limited() {
    let cfg = HandsConfig::default();
    let mut s = armed_state("tok", 30_000);
    for i in 0..20u64 {
        assert_eq!(s.consume_action("tok", 1 + i, &cfg), Ok(()));
    }
    assert_eq!(s.rate_window_count(), 20);
    assert_eq!(s.consume_action("tok", 25, &cfg), Err(HandsError::RateLimited));
    assert_eq!(s.rate_window_count(), 20);
}

#[test]
fn consume_with_wrong_token_is_not_armed() {
    let cfg = HandsConfig::default();
    let mut s = armed_state("tok", 30_000);
    assert_eq!(s.consume_action("other", 1, &cfg), Err(HandsError::NotArmed));
    assert_eq!(s.rate_window_count(), 0);
}

#[test]
fn kill_blocks_actions_even_after_rearming() {
    let cfg = HandsConfig::default();
    let mut s = armed_state("tok", 30_000);
    assert_eq!(s.consume_action("tok", 1, &cfg), Ok(()));
    s.kill();
    assert!(s.is_killed());
    assert!(!s.is_armed("tok", 2));
    assert_eq!(s.rate_window_count(), 0);
    assert_eq!(s.consume_action("tok", 2, &cfg), Err(HandsError::Killed));
    s.arm(30_000, "fresh".to_string(), 3);
    assert!(s.is_armed("fresh", 4));
    assert_eq!(s.consume_action("fresh", 4, &cfg), Err(HandsError::Killed));
    assert_eq!(s.rate_window_count(), 0);
}

#[test]
fn reset_kill_clears_flag_only() {
    let cfg = HandsConfig::default();
    let mut s = HandsState::new();
    s.kill();
    s.reset_kill();
    assert!(!s.is_killed());
    assert_eq!(s.consume_action("tok", 1, &cfg), Err(HandsError::NotArmed));
}

#[test]
fn disarm_resets_window_and_arming() {
    let cfg = HandsConfig::default();
    let mut s = armed_state("tok", 30_000);
    assert_eq!(s.consume_action("tok", 1, &cfg), Ok(()));
    assert_eq!(s.consume_action("tok", 2, &cfg), Ok(()));
    assert_eq!(s.rate_window_count(), 2);
    s.disarm();
    assert_eq!(s.rate_window_count(), 0);
    assert!(!s.is_armed("tok", 3));
    assert_eq!(s.consume_action("tok", 3, &cfg), Err(HandsError::NotArmed));
}

#[test]
fn rearm_invalidates_previous_token() {
    let mut s = armed_state("first", 30_000);
    s.arm(30_000, "second".to_string(), 10);
    assert!(!s.is_armed("first", 11));
    assert!(s.is_armed("second", 11));
    assert!(s.is_armed("second", 30_010));
    assert!(!s.is_armed("second", 30_011));
}

#[test]
fn set_scope_rejects_empty_rect_and_keeps_old() {
    let mut s = HandsState::new();
    assert_eq!(s.set_scope(Some(rect(1, 2, 3, 4))), Ok(()));
    assert_eq!(s.set_scope(Some(rect(0, 0, 0, 5))), Err(HandsError::InvalidScope));
    assert_eq!(s.get_scope(), Some(rect(1, 2, 3, 4)));
    assert_eq!(s.set_scope(None), Ok(()));
    assert_eq!(s.get_scope(), None);
}

#[test]
fn scope_set_rejects_zero_width_or_height() {
    let cfg = HandsConfig::default();
    let mut s = HandsState::new();
    let ok = ScopeReq { scope: Some(rect(10, 10, 20, 20)) };
    assert_eq!(scope_set(&mut s, &cfg, false, &ok), Ok(Some(rect(10, 10, 20, 20))));
    let zero_w = ScopeReq { scope: Some(rect(0, 0, 0, 5)) };
    assert_eq!(scope_set(&mut s, &cfg, false, &zero_w), Err(HandsError::InvalidScope));
    let zero_h = ScopeReq { scope: Some(rect(0, 0, 5, 0)) };
    assert_eq!(scope_set(&mut s, &cfg, false, &zero_h), Err(HandsError::InvalidScope));
    assert_eq!(s.get_scope(), Some(rect(10, 10, 20, 20)));
    assert_eq!(scope_set(&mut s, &cfg, false, &ScopeReq { scope: None }), Ok(None));
    assert_eq!(s.get_scope(), None);
}

#[test]
fn reset_without_confirmation_keeps_killed() {
    let cfg = HandsConfig::default();
    let mut s = HandsState::new();
    assert_eq!(safety_kill(&mut s, &cfg, false), Ok(()));
    assert_eq!(safety_reset(&mut s, &cfg, false, None), Err(HandsError::MissingConfirmation));
    assert!(s.is_killed());
    assert_eq!(safety_reset(&mut s, &cfg, false, Some("no")), Err(HandsError::MissingConfirmation));
    assert!(s.is_killed());
    assert_eq!(safety_reset(&mut s, &cfg, false, Some("YeS")), Ok(()));
    assert!(!s.is_killed());
}

#[test]
fn expired_arming_is_not_armed() {
    let cfg = HandsConfig::default();
    let mut s = HandsState::new();
    s.arm(1000, "t42".to_string(), 0);
    assert!(s.is_armed("t42", 1000));
    assert!(!s.is_armed("t42", 1100));
    assert_eq!(s.consume_action("t42", 1100, &cfg), Err(HandsError::NotArmed));
}

#[test]
fn rate_window_restarts_after_elapsing() {
    let cfg = HandsConfig { max_actions: 2, window_ms: 1000, allow_remote: false };
    let mut s = armed_state("tok", 60_000);
    assert_eq!(s.consume_action("tok", 100, &cfg), Ok(()));
    assert_eq!(s.consume_action("tok", 200, &cfg), Ok(()));
    assert_eq!(s.consume_action("tok", 1100, &cfg), Err(HandsError::RateLimited));
    assert_eq!(s.consume_action("tok", 1101, &cfg), Ok(()));
    assert_eq!(s.rate_window_count(), 1);
}

#[test]
fn zero_max_actions_refuses_everything() {
    let cfg = HandsConfig { max_actions: 0, window_ms: 1000, allow_remote: false };
    let mut s = armed_state("tok", 60_000);
    assert_eq!(s.consume_action("tok", 1, &cfg), Err(HandsError::RateLimited));
}

#[test]
fn origin_guard() {
    let strict = HandsConfig::default();
    let open = HandsConfig { allow_remote: true, ..HandsConfig::default() };
    assert_eq!(require_local_only(&strict, false), Ok(()));
    assert_eq!(require_local_only(&strict, true), Err(HandsError::ProxiedRequestRejected));
    assert_eq!(require_local_only(&open, true), Ok(()));
}

#[test]
fn ttl_is_defaulted_and_bounded() {
    assert_eq!(effective_ttl_ms(None), 30_000);
    assert_eq!(effective_ttl_ms(Some(1)), 5_000);
    assert_eq!(effective_ttl_ms(Some(60_000)), 60_000);
    assert_eq!(effective_ttl_ms(Some(1_000_000_000)), 300_000);
}

#[test]
fn hands_arm_grants_token_and_ttl() {
    let cfg = HandsConfig::default();
    let mut s = HandsState::new();
    let g = hands_arm(&mut s, &cfg, false, &ArmParams { ttl_ms: Some(1000) }, 50, 42).unwrap();
    assert_eq!(g.token, "t42");
    assert_eq!(g.ttl_ms, 5_000);
    assert!(s.is_armed("t42", 5_050));
    assert!(!s.is_armed("t42", 5_051));
    let r = hands_arm(&mut s, &cfg, true, &ArmParams { ttl_ms: None }, 60, 7);
    assert_eq!(r.err(), Some(HandsError::ProxiedRequestRejected));
    assert!(!s.is_armed("t7", 61));
}

#[test]
fn arm_while_killed_still_arms() {
    let cfg = HandsConfig::default();
    let mut s = HandsState::new();
    assert_eq!(safety_kill(&mut s, &cfg, false), Ok(()));
    let g = hands_arm(&mut s, &cfg, false, &ArmParams { ttl_ms: None }, 0, 1234567).unwrap();
    assert_eq!(g.token, "t1234567");
    assert!(s.is_armed("t1234567", 10));
    let mv = MoveReq { x: 1, y: 1, token: g.token.clone() };
    assert_eq!(hands_move(&mut s, &cfg, false, &mv, None, 10), Err(HandsError::Killed));
}

#[test]
fn hands_disarm_and_status() {
    let cfg = HandsConfig::default();
    let mut s = armed_state("tok", 30_000);
    assert_eq!(hands_disarm(&mut s, &cfg, true), Err(HandsError::ProxiedRequestRejected));
    assert!(s.is_armed("tok", 1));
    assert_eq!(hands_disarm(&mut s, &cfg, false), Ok(()));
    assert!(!s.is_armed("tok", 1));
    let st = safety_status(&s, &cfg, false).unwrap();
    assert!(!st.killed);
    assert_eq!(st.scope, None);
    assert_eq!(safety_status(&s, &cfg, true), Err(HandsError::ProxiedRequestRejected));
}

#[test]
fn hands_move_clamps_to_display_then_scope() {
    let cfg = HandsConfig::default();
    let mut s = armed_state("tok", 30_000);
    let far = MoveReq { x: 50_000, y: -50_000, token: "tok".to_string() };
    assert_eq!(hands_move(&mut s, &cfg, false, &far, None, 1), Ok((10_000, -10_000)));
    assert_eq!(hands_move(&mut s, &cfg, false, &far, Some((1920, 1080)), 2), Ok((1919, 0)));
    assert_eq!(s.set_scope(Some(rect(100, 100, 10, 10))), Ok(()));
    let mv = MoveReq { x: 200, y: 5, token: "tok".to_string() };
    assert_eq!(hands_move(&mut s, &cfg, false, &mv, Some((1920, 1080)), 3), Ok((109, 100)));
    assert_eq!(s.rate_window_count(), 3);
}

#[test]
fn hands_move_refused_when_not_armed() {
    let cfg = HandsConfig::default();
    let mut s = HandsState::new();
    let mv = MoveReq { x: 1, y: 1, token: "tok".to_string() };
    assert_eq!(hands_move(&mut s, &cfg, false, &mv, None, 1), Err(HandsError::NotArmed));
    assert_eq!(hands_move(&mut s, &cfg, true, &mv, None, 1), Err(HandsError::ProxiedRequestRejected));
}

#[test]
fn hands_click_needs_confirmation_and_known_button() {
    let cfg = HandsConfig::default();
    let mut s = armed_state("tok", 30_000);
    let left = ClickReq { button: None, token: "tok".to_string() };
    assert_eq!(hands_click(&mut s, &cfg, false, &left, None, 1), Err(HandsError::MissingConfirmation));
    assert_eq!(s.rate_window_count(), 1);
    assert_eq!(hands_click(&mut s, &cfg, false, &left, Some("yes"), 2), Ok(MouseButton::Left));
    let right = ClickReq { button: Some("right".to_string()), token: "tok".to_string() };
    assert_eq!(hands_click(&mut s, &cfg, false, &right, Some("YES"), 3), Ok(MouseButton::Right));
    let odd = ClickReq { button: Some("back".to_string()), token: "tok".to_string() };
    assert_eq!(
        hands_click(&mut s, &cfg, false, &odd, Some("yes"), 4),
        Err(HandsError::InjectorFailure("invalid button".to_string()))
    );
    assert_eq!(s.rate_window_count(), 4);
}

#[test]
fn parse_button_names() {
    assert_eq!(parse_button(None), Some(MouseButton::Left));
    assert_eq!(parse_button(Some("left")), Some(MouseButton::Left));
    assert_eq!(parse_button(Some("middle")), Some(MouseButton::Middle));
    assert_eq!(parse_button(Some("Left")), None);
}

#[test]
fn hands_type_checks_in_order() {
    let cfg = HandsConfig::default();
    let mut s = armed_state("tok", 30_000);
    let req = |text: &str| TypeReq { text: text.to_string(), token: "tok".to_string() };
    assert_eq!(hands_type(&mut s, &cfg, false, &req("hello"), None, 1), Err(HandsError::MissingConfirmation));
    assert_eq!(hands_type(&mut s, &cfg, false, &req("hello"), Some("yes"), 2), Ok(()));
    let long = "a".repeat(201);
    assert_eq!(hands_type(&mut s, &cfg, false, &req(&long), Some("yes"), 3), Err(HandsError::TextTooLong));
    let exact = "a".repeat(200);
    assert_eq!(hands_type(&mut s, &cfg, false, &req(&exact), Some("yes"), 4), Ok(()));
    assert_eq!(
        hands_type(&mut s, &cfg, false, &req("my Password is"), Some("yes"), 5),
        Err(HandsError::SensitiveContentRejected)
    );
    assert_eq!(s.rate_window_count(), 5);
}

#[test]
fn content_guard_is_case_insensitive() {
    assert!(reject_sensitive_text("Enter your PASSWORD"));
    assert!(reject_sensitive_text("OTP: 1234"));
    assert!(reject_sensitive_text("Solve the CAPTCHA"));
    assert!(reject_sensitive_text("Verification Code"));
    assert!(reject_sensitive_text("Contrase\u{f1}a"));
    assert!(reject_sensitive_text("C\u{d3}DIGO"));
    assert!(reject_sensitive_text("enable 2FA"));
    assert!(reject_sensitive_text("mfa"));
    assert!(!reject_sensitive_text("hello world"));
    assert!(!reject_sensitive_text(""));
}

#[test]
fn lowered_guard_matches_exact_phrases() {
    assert!(reject_lowered_text("your password"));
    assert!(!reject_lowered_text("your PASSWORD"));
    assert!(!reject_lowered_text("pass word"));
}

#[test]
fn confirmation_reads_yes_in_any_case() {
    assert!(is_confirmed(Some("yes")));
    assert!(is_confirmed(Some("YeS")));
    assert!(!is_confirmed(Some("yes ")));
    assert!(!is_confirmed(Some("y")));
    assert!(!is_confirmed(None));
}

#[test]
fn same_text_compares_characters() {
    assert!(same_text("abc", "abc"));
    assert!(!same_text("abc", "abd"));
    assert!(!same_text("abc", "ab"));
}

#[test]
fn error_status_and_message() {
    assert_eq!(HandsError::Killed.status(), 403);
    assert_eq!(HandsError::Killed.message(), "killed");
    assert_eq!(HandsError::NotArmed.message(), "not armed");
    assert_eq!(HandsError::RateLimited.message(), "rate limited");
    assert_eq!(HandsError::InvalidScope.status(), 400);
    assert_eq!(HandsError::TextTooLong.status(), 400);
    assert_eq!(HandsError::MissingConfirmation.status(), 428);
    assert_eq!(HandsError::ProxiedRequestRejected.status(), 403);
    assert_eq!(HandsError::SensitiveContentRejected.status(), 403);
    assert_eq!(HandsError::InjectorFailure("boom".to_string()).status(), 500);
    assert_eq!(HandsError::InjectorFailure("boom".to_string()).message(), "boom");
    assert_eq!(HandsError::InjectorUnavailable.status(), 501);
}

#[test]
fn bgra_frame_becomes_rgb() {
    let bgra = vec![1u8, 2, 3, 255, 10, 20, 30, 0, 99];
    assert_eq!(seealln::bgra_to_rgb(&bgra, 2), vec![3u8, 2, 1, 30, 20, 10]);
    assert_eq!(seealln::bgra_to_rgb(&bgra, 0), Vec::<u8>::new());
}

#[test]
fn placeholder_pattern_values() {
    let rgb = seealln::placeholder_rgb(640, 360);
    assert_eq!(rgb.len(), 640 * 360 * 3);
    assert_eq!(&rgb[0..3], &[16u8, 16, 24]);
    // pixel (x = 5, y = 0): 5 ^ 0 = 5
    assert_eq!(&rgb[15..18], &[21u8, 21, 29]);
    // pixel (x = 0, y = 1): 0 ^ 1 = 1
    assert_eq!(&rgb[640 * 3..640 * 3 + 3], &[17u8, 17, 25]);
    // pixel (x = 100, y = 3): (100 ^ 3) & 63 = 39
    let i = (3 * 640 + 100) * 3;
    assert_eq!(&rgb[i..i + 3], &[55u8, 55, 63]);
}

#[test]
fn decimal_rendering_of_readings() {
    assert_eq!(seealln::decimal_string(0), "0");
    assert_eq!(seealln::decimal_string(7), "7");
    assert_eq!(seealln::decimal_string(10), "10");
    assert_eq!(seealln::decimal_string(1_234_567_890), "1234567890");
    assert_eq!(seealln::decimal_string(u64::MAX), "18446744073709551615");
    assert_eq!(seealln::gen_token(0), "t0");
    assert_eq!(seealln::gen_token(905), "t905");
}

#[test]
fn rearm_with_same_reading_issues_fresh_token() {
    let cfg = HandsConfig::default();
    let mut s = HandsState::new();
    let first = hands_arm(&mut s, &cfg, false, &ArmParams { ttl_ms: None }, 0, 42).unwrap();
    assert_eq!(first.token, "t42");
    let second = hands_arm(&mut s, &cfg, false, &ArmParams { ttl_ms: None }, 10, 42).unwrap();
    assert_eq!(second.token, "t43");
    assert!(!s.is_armed("t42", 11));
    assert!(s.is_armed("t43", 11));
    assert!(s.holds_token("t43"));
    assert!(!s.holds_token("t42"));
}

#[test]
fn rearm_at_top_reading_steps_down() {
    let cfg = HandsConfig::default();
    let mut s = HandsState::new();
    let first = hands_arm(&mut s, &cfg, false, &ArmParams { ttl_ms: None }, 0, u64::MAX).unwrap();
    assert_eq!(first.token, "t18446744073709551615");
    let second = hands_arm(&mut s, &cfg, false, &ArmParams { ttl_ms: None }, 1, u64::MAX).unwrap();
    assert_eq!(second.token, "t18446744073709551614");
}

#[test]
fn injector_unavailable_status() {
    assert_eq!(HandsError::InjectorUnavailable.message(), "input injection unavailable");
}

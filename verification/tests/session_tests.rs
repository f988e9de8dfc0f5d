use chat_dispatch::session::{continuity_key, persona_key, resolve_session};
use chat_dispatch::strutil::u64_decimal;

#[test]
fn missing_entries_resolve_to_the_default() {
    let st = resolve_session(None, None);
    assert!(!st.continuity_reset);
    assert_eq!(st.persona_prompt, "");
}

#[test]
fn stored_values_are_kept() {
    let st = resolve_session(Some(true), Some("be brief".to_string()));
    assert!(st.continuity_reset);
    assert_eq!(st.persona_prompt, "be brief");
}

#[test]
fn stored_false_is_not_a_reset() {
    let st = resolve_session(Some(false), None);
    assert!(!st.continuity_reset);
    assert_eq!(st.persona_prompt, "");
}

#[test]
fn continuity_key_is_the_decimal_id() {
    assert_eq!(continuity_key(0), "0");
    assert_eq!(continuity_key(42), "42");
    assert_eq!(continuity_key(1234567890123), "1234567890123");
}

#[test]
fn persona_key_appends_the_fixed_suffix() {
    assert_eq!(persona_key(42), "42:system_prompt");
    assert_eq!(persona_key(0), "0:system_prompt");
}

#[test]
fn decimal_rendering_is_exact() {
    assert_eq!(u64_decimal(0), "0");
    assert_eq!(u64_decimal(9), "9");
    assert_eq!(u64_decimal(10), "10");
    assert_eq!(u64_decimal(105), "105");
    assert_eq!(u64_decimal(u64::MAX), "18446744073709551615");
}

use session_policy::codec::to_cookie_value;
use session_policy::policies::{
    acceptable_text, authorize, owner_decrypt_if_allowed, reject_sensitive_text,
    require_authenticated, user_may_access, PolicyDenied, CARD_PATTERN, PHONE_PATTERN,
    SSN_PATTERN,
};
use session_policy::sessions::{SessionData, SessionManager};

fn session_for(name: &str) -> SessionData {
    SessionData { username: name.to_string() }
}

#[test]
fn ownership_is_by_username() {
    assert!(!user_may_access(&session_for("alice"), "bob"));
    assert!(user_may_access(&session_for("alice"), "alice"));
    assert!(!user_may_access(&session_for("alice"), "Alice"));
    assert!(!user_may_access(&session_for("alice"), "alice "));
    assert!(!user_may_access(&session_for("alice"), ""));
    assert!(user_may_access(&session_for(""), ""));
}

#[test]
fn only_a_session_authenticates() {
    assert!(!require_authenticated(None));
    let s = session_for("alice");
    assert!(require_authenticated(Some(&s)));
}

#[test]
fn a_resolved_session_authenticates() {
    let manager = SessionManager::new();
    let cookie = manager.create_session("alice").expect("cookie");
    let resolved = manager.get_session(Some(cookie.value.as_str()));
    assert!(require_authenticated(resolved.as_ref()));
    let unresolved = manager.get_session(Some("junk"));
    assert!(!require_authenticated(unresolved.as_ref()));
}

#[test]
fn policy_grants_a_session_its_own_payload() {
    let carol = session_for("carol");
    assert_eq!(authorize(Some(&carol), "carol", true), Ok(()));
}

#[test]
fn policy_denies_in_the_order_of_its_rules() {
    let dave = session_for("dave");
    assert_eq!(authorize(None, "carol", true), Err(PolicyDenied::NotAuthenticated));
    assert_eq!(authorize(None, "carol", false), Err(PolicyDenied::NotAuthenticated));
    assert_eq!(authorize(Some(&dave), "carol", false), Err(PolicyDenied::SensitiveContent));
    assert_eq!(authorize(Some(&dave), "dave", false), Err(PolicyDenied::SensitiveContent));
    assert_eq!(authorize(Some(&dave), "carol", true), Err(PolicyDenied::NotAllowed));
}

#[test]
fn patterns_compile_far_below_the_default_limit() {
    let tenth_of_default = 1 << 20;
    for pattern in [SSN_PATTERN, CARD_PATTERN, PHONE_PATTERN] {
        assert!(regex::Regex::new(pattern).is_ok(), "{}", pattern);
        let mut builder = regex::RegexBuilder::new(pattern);
        builder.size_limit(tenth_of_default);
        assert!(builder.build().is_ok(), "{}", pattern);
    }
}

#[test]
fn patterns_are_the_three_shapes() {
    assert_eq!(SSN_PATTERN, "\\b\\d{3}-\\d{2}-\\d{4}\\b");
    assert_eq!(CARD_PATTERN, "\\b\\d{13,19}\\b");
    assert_eq!(PHONE_PATTERN, "\\b\\d{3}[- ]?\\d{3}[- ]?\\d{4}\\b");
}

#[test]
fn verdict_is_the_same_on_every_call() {
    for text in ["", "hello world", "555.123.4567", "my ssn is 123-45-6789"] {
        assert_eq!(reject_sensitive_text(text), reject_sensitive_text(text));
    }
}

#[test]
fn ssn_is_rejected() {
    assert!(!reject_sensitive_text("my ssn is 123-45-6789"));
}

#[test]
fn card_number_is_rejected() {
    assert!(!reject_sensitive_text("card 4111111111111111"));
    assert!(!reject_sensitive_text("1234567890123"));
    assert!(!reject_sensitive_text("1234567890123456789"));
}

#[test]
fn phone_number_is_rejected() {
    assert!(!reject_sensitive_text("call 555-123-4567"));
    assert!(!reject_sensitive_text("call 555 123 4567"));
    assert!(!reject_sensitive_text("call 5551234567"));
}

#[test]
fn plain_text_is_accepted() {
    assert!(reject_sensitive_text("hello world"));
    assert!(reject_sensitive_text(""));
    assert!(reject_sensitive_text("room 101, floor 12"));
}

#[test]
fn digits_inside_a_word_are_not_flagged() {
    assert!(reject_sensitive_text("x123-45-6789"));
    assert!(reject_sensitive_text("123-45-67890"));
    assert!(reject_sensitive_text("123456789012"));
    assert!(reject_sensitive_text("12345678901234567890"));
}

#[test]
fn verdict_needs_three_clean_searches() {
    assert!(acceptable_text(Some(false), Some(false), Some(false)));
    assert!(!acceptable_text(Some(true), Some(false), Some(false)));
    assert!(!acceptable_text(Some(false), Some(true), Some(false)));
    assert!(!acceptable_text(Some(false), Some(false), Some(true)));
    assert!(!acceptable_text(None, Some(false), Some(false)));
    assert!(!acceptable_text(Some(false), None, Some(false)));
    assert!(!acceptable_text(Some(false), Some(false), None));
}

#[test]
fn heuristic_goes_by_unicode_words_and_digits() {
    assert!(reject_sensitive_text("\u{e9}123-45-6789"));
    let arabic_indic = "\u{663}\u{663}\u{663}-\u{664}\u{664}-\u{665}\u{665}\u{665}\u{665}";
    assert!(!reject_sensitive_text(arabic_indic));
    assert!(!reject_sensitive_text("(555)123-4567 555-123-4567"));
    assert!(reject_sensitive_text("555.123.4567"));
}

#[test]
fn owner_reads_back_what_was_stored() {
    let manager = SessionManager::new();
    let cookie = manager.create_session("carol").expect("cookie");
    let carol = manager.get_session(Some(cookie.value.as_str())).expect("session");
    assert_eq!(carol.username, "carol");
    let sealed = manager.encrypt_for_session(&carol, "hi".as_bytes()).expect("sealed");
    let stored = to_cookie_value(&sealed).expect("armor");
    assert_eq!(owner_decrypt_if_allowed(&manager, &carol, &stored), Ok("hi".to_string()));
}

#[test]
fn ownership_blocks_another_session_not_the_cipher() {
    let manager = SessionManager::new();
    let carol = session_for("carol");
    let dave = session_for("dave");
    let sealed = manager.encrypt_for_session(&carol, "hi".as_bytes()).expect("sealed");
    let stored = to_cookie_value(&sealed).expect("armor");
    assert!(user_may_access(&carol, "carol"));
    assert!(!user_may_access(&dave, "carol"));
    assert_eq!(authorize(Some(&carol), "carol", true), Ok(()));
    assert_eq!(authorize(Some(&dave), "carol", true), Err(PolicyDenied::NotAllowed));
    assert_eq!(manager.decrypt_for_session(&dave, &sealed), Some("hi".to_string()));
    assert_eq!(owner_decrypt_if_allowed(&manager, &dave, &stored), Ok("hi".to_string()));
}

#[test]
fn owner_read_tells_bad_armor_from_bad_payload() {
    let manager = SessionManager::new();
    let carol = session_for("carol");
    assert_eq!(owner_decrypt_if_allowed(&manager, &carol, "***"), Err("invalid base64"));
    assert_eq!(owner_decrypt_if_allowed(&manager, &carol, "AAAA"), Err("decryption failed"));
    assert_eq!(owner_decrypt_if_allowed(&manager, &carol, ""), Err("decryption failed"));
}

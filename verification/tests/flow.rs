use session_policy::codec::{from_cookie_value, SessionData};
use session_policy::flow::{
    dashboard_view, decide_submit, login, submit, submit_context, LoginOutcome, SubmitContext,
    SubmitOutcome, User, DASHBOARD, HOME, NO_DATA, NO_USER, SUBMIT_ENCRYPT, SUBMIT_NOT_ALLOWED,
    SUBMIT_SENSITIVE, UNREADABLE,
};
use session_policy::policies::{owner_decrypt_if_allowed, PolicyDenied};
use session_policy::sessions::SessionManager;

fn session_for(name: &str) -> SessionData {
    SessionData { username: name.to_string() }
}

fn cookie_for(manager: &SessionManager, name: &str) -> String {
    manager.create_session(name).expect("cookie").value
}

#[test]
fn login_trims_the_name() {
    let manager = SessionManager::new();
    for raw in ["alice", "  alice", "alice\n", "\t alice \r\n", "\u{a0}alice\u{3000}"] {
        match login(&manager, raw) {
            LoginOutcome::Started { username, cookie } => {
                assert_eq!(username, "alice");
                let cookie = cookie.expect("cookie");
                let session = manager.get_session(Some(cookie.value.as_str())).expect("session");
                assert_eq!(session.username, "alice");
            }
            LoginOutcome::Refused => panic!("refused {:?}", raw),
        }
    }
}

fn has_white_space(c: char) -> bool {
    matches!(
        c as u32,
        0x09..=0x0d
            | 0x20
            | 0x85
            | 0xa0
            | 0x1680
            | 0x2000..=0x200a
            | 0x2028
            | 0x2029
            | 0x202f
            | 0x205f
            | 0x3000
    )
}

#[test]
fn login_trims_exactly_the_characters_with_white_space() {
    let manager = SessionManager::new();
    let mut text = String::new();
    let mut white = 0;
    for code in 0..=0x10ffffu32 {
        let c = match char::from_u32(code) {
            Some(c) => c,
            None => continue,
        };
        assert_eq!(c.is_whitespace(), has_white_space(c), "U+{:04X}", code);
        if !has_white_space(c) && code > 0x3000 && code % 4099 != 0 {
            continue;
        }
        text.clear();
        text.push(c);
        text.push('a');
        text.push(c);
        match login(&manager, &text) {
            LoginOutcome::Started { username, .. } => {
                if has_white_space(c) {
                    white += 1;
                    assert_eq!(username, "a", "U+{:04X}", code);
                } else {
                    assert_eq!(username, text, "U+{:04X}", code);
                }
            }
            LoginOutcome::Refused => panic!("refused U+{:04X}", code),
        }
    }
    assert_eq!(white, 25);
}

#[test]
fn login_keeps_inner_whitespace() {
    let manager = SessionManager::new();
    match login(&manager, " alice  smith ") {
        LoginOutcome::Started { username, .. } => assert_eq!(username, "alice  smith"),
        LoginOutcome::Refused => panic!("refused"),
    }
}

#[test]
fn login_refuses_an_empty_name() {
    let manager = SessionManager::new();
    for raw in ["", " ", "   ", "\t\n", "\u{2003}\u{a0}"] {
        assert!(matches!(login(&manager, raw), LoginOutcome::Refused), "{:?}", raw);
    }
}

#[test]
fn login_leads_to_the_dashboard_or_back() {
    let manager = SessionManager::new();
    assert_eq!(login(&manager, "alice").redirect(), "/dashboard");
    assert_eq!(login(&manager, "  ").redirect(), "/");
    assert_eq!(HOME, "/");
    assert_eq!(DASHBOARD, "/dashboard");
}

#[test]
fn submit_without_a_session_asks_for_login() {
    let manager = SessionManager::new();
    let login_required = SubmitOutcome::Denied(PolicyDenied::NotAuthenticated);
    assert!(matches!(
        submit(&manager, None, "hello"),
        SubmitOutcome::Denied(PolicyDenied::NotAuthenticated)
    ));
    assert!(matches!(
        submit(&manager, Some("junk"), "hello"),
        SubmitOutcome::Denied(PolicyDenied::NotAuthenticated)
    ));
    let other = SessionManager::new();
    let foreign = cookie_for(&other, "alice");
    assert!(matches!(
        submit(&manager, Some(foreign.as_str()), "hello"),
        SubmitOutcome::Denied(PolicyDenied::NotAuthenticated)
    ));
    assert!(matches!(
        submit(&manager, None, "my ssn is 123-45-6789"),
        SubmitOutcome::Denied(PolicyDenied::NotAuthenticated)
    ));
    assert_eq!(login_required.redirect(), "/");
}

#[test]
fn submit_refuses_sensitive_text() {
    let manager = SessionManager::new();
    let cookie = cookie_for(&manager, "alice");
    for text in ["my ssn is 123-45-6789", "card 4111111111111111", "call 555-123-4567"] {
        assert!(matches!(
            submit(&manager, Some(cookie.as_str()), text),
            SubmitOutcome::Denied(PolicyDenied::SensitiveContent)
        ));
    }
}

#[test]
fn submit_stores_the_sealed_text_for_the_session_user() {
    let manager = SessionManager::new();
    let cookie = cookie_for(&manager, "carol");
    match submit(&manager, Some(cookie.as_str()), "hello world") {
        SubmitOutcome::Store { username, data } => {
            assert_eq!(username, "carol");
            assert!(!data.contains("hello"));
            let sealed = from_cookie_value(&data).expect("base64");
            assert_eq!(sealed.len(), 12 + "hello world".len() + 16);
            assert_eq!(
                owner_decrypt_if_allowed(&manager, &session_for("carol"), &data),
                Ok("hello world".to_string())
            );
        }
        other => panic!("not stored: {:?}", other),
    }
}

#[test]
fn submit_stores_an_empty_text() {
    let manager = SessionManager::new();
    let cookie = cookie_for(&manager, "carol");
    match submit(&manager, Some(cookie.as_str()), "") {
        SubmitOutcome::Store { data, .. } => {
            assert_eq!(from_cookie_value(&data).expect("base64").len(), 28);
        }
        other => panic!("not stored: {:?}", other),
    }
}

#[test]
fn decided_submit_follows_the_content_verdict() {
    let manager = SessionManager::new();
    let carol = session_for("carol");
    assert!(matches!(
        decide_submit(&manager, &carol, false, "hello"),
        SubmitOutcome::Denied(PolicyDenied::SensitiveContent)
    ));
    match decide_submit(&manager, &carol, true, "hello") {
        SubmitOutcome::Store { username, data } => {
            assert_eq!(username, "carol");
            assert_eq!(
                owner_decrypt_if_allowed(&manager, &carol, &data),
                Ok("hello".to_string())
            );
        }
        other => panic!("not stored: {:?}", other),
    }
}

#[test]
fn submit_outcomes_lead_to_their_pages() {
    assert_eq!(SubmitOutcome::Denied(PolicyDenied::NotAuthenticated).redirect(), "/");
    assert_eq!(
        SubmitOutcome::Denied(PolicyDenied::SensitiveContent).redirect(),
        "/submit?error=sensitive"
    );
    assert_eq!(
        SubmitOutcome::Denied(PolicyDenied::NotAllowed).redirect(),
        "/submit?error=not_allowed"
    );
    assert_eq!(SubmitOutcome::EncryptFailed.redirect(), "/submit?error=encrypt");
    let stored = SubmitOutcome::Store { username: "a".to_string(), data: "b".to_string() };
    assert_eq!(stored.redirect(), "/dashboard");
    assert_eq!(SUBMIT_SENSITIVE, "/submit?error=sensitive");
    assert_eq!(SUBMIT_NOT_ALLOWED, "/submit?error=not_allowed");
    assert_eq!(SUBMIT_ENCRYPT, "/submit?error=encrypt");
}

#[test]
fn dashboard_shows_the_stored_text() {
    let manager = SessionManager::new();
    let cookie = cookie_for(&manager, "carol");
    let data = match submit(&manager, Some(cookie.as_str()), "hi") {
        SubmitOutcome::Store { data, .. } => data,
        other => panic!("not stored: {:?}", other),
    };
    let user = User { username: "carol".to_string(), data: Some(data) };
    let view = dashboard_view(&manager, &session_for("carol"), Some(user));
    assert_eq!(view.username, "carol");
    assert_eq!(view.data, "hi");
    assert_eq!(view.failure, None);
}

#[test]
fn dashboard_shows_a_placeholder_without_data() {
    let manager = SessionManager::new();
    let carol = session_for("carol");
    let fresh = User { username: "carol".to_string(), data: Some(String::new()) };
    assert_eq!(dashboard_view(&manager, &carol, Some(fresh)).data, "(no data stored yet)");
    let bare = User { username: "carol".to_string(), data: None };
    assert_eq!(dashboard_view(&manager, &carol, Some(bare)).data, "(no data stored yet)");
    assert_eq!(NO_DATA, "(no data stored yet)");
}

#[test]
fn dashboard_shows_a_placeholder_without_a_document() {
    let manager = SessionManager::new();
    let view = dashboard_view(&manager, &session_for("carol"), None);
    assert_eq!(view.username, "carol");
    assert_eq!(view.data, "(no user document found)");
    assert_eq!(NO_USER, "(no user document found)");
}

#[test]
fn dashboard_notes_a_payload_it_cannot_read() {
    let manager = SessionManager::new();
    let carol = session_for("carol");
    let garbled = User { username: "carol".to_string(), data: Some("***".to_string()) };
    let view = dashboard_view(&manager, &carol, Some(garbled));
    assert_eq!(view.data, "[policy violation]");
    assert_eq!(view.failure, Some("invalid base64"));
    let forged = User { username: "carol".to_string(), data: Some("AAAA".to_string()) };
    let view = dashboard_view(&manager, &carol, Some(forged));
    assert_eq!(view.data, "[policy violation]");
    assert_eq!(view.failure, Some("decryption failed"));
    assert_eq!(UNREADABLE, "[policy violation]");
}

#[test]
fn dashboard_names_the_document_it_shows() {
    let manager = SessionManager::new();
    let user = User { username: "Carol".to_string(), data: None };
    let view = dashboard_view(&manager, &session_for("carol"), Some(user));
    assert_eq!(view.username, "Carol");
}

#[test]
fn submit_form_reads_its_error_parameter() {
    assert_eq!(
        submit_context(Some("sensitive")),
        SubmitContext { policy_error: true, encrypt_error: false }
    );
    assert_eq!(
        submit_context(Some("encrypt")),
        SubmitContext { policy_error: false, encrypt_error: true }
    );
    for other in [None, Some(""), Some("not_allowed"), Some("Sensitive"), Some("encrypt ")] {
        assert_eq!(
            submit_context(other),
            SubmitContext { policy_error: false, encrypt_error: false }
        );
    }
}

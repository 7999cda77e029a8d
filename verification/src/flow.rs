//! What each request decides, apart from the storage and the templates that
//! carry the decision out.
//!
//! A request starts anonymous. A cookie that resolves makes it
//! authenticated; the content and ownership checks make it authorised. Any
//! failed check ends in a denial: there is no state in between.

use crate::codec::{max_armored_len, to_cookie_value, SessionData};
use crate::crypto::{MAX_PLAINTEXT_LEN, NONCE_LEN, TAG_LEN};
use crate::policies::{
    authorize, looks_sensitive, owner_decrypt_if_allowed, owner_read, reject_sensitive_text,
    PolicyDenied,
};
use crate::sessions::{
    is_armored_sealing, is_session_cookie, issuable, name_fits, resolved, CookieAttributes,
    ResolveError, SessionManager,
};
use crate::text::{is_trimmed, lemma_trimmed, same_text, text_of, trim, trimmed};
use vstd::prelude::*;
use vstd::utf8::{encode_utf8, encode_utf8_decode_utf8, encode_utf8_valid_utf8};

verus! {

/// Where the login form lives.
pub const HOME: &'static str = "/";

/// Where a logged-in user lands.
pub const DASHBOARD: &'static str = "/dashboard";

/// The submit form after a text was refused for its content.
pub const SUBMIT_SENSITIVE: &'static str = "/submit?error=sensitive";

/// The submit form after a write to another user's payload was refused.
pub const SUBMIT_NOT_ALLOWED: &'static str = "/submit?error=not_allowed";

/// The submit form after the text could not be sealed.
pub const SUBMIT_ENCRYPT: &'static str = "/submit?error=encrypt";

/// Value of the `error` parameter that marks a refusal for content.
pub const ERROR_SENSITIVE: &'static str = "sensitive";

/// Value of the `error` parameter that marks a failed sealing.
pub const ERROR_ENCRYPT: &'static str = "encrypt";

/// Shown where the user has stored nothing.
pub const NO_DATA: &'static str = "(no data stored yet)";

/// Shown where the store has no document for the user.
pub const NO_USER: &'static str = "(no user document found)";

/// Shown in place of a payload that could not be read, whatever the reason:
/// the page does not tell a refusal from a bad encoding or a failed
/// decryption.
pub const UNREADABLE: &'static str = "[policy violation]";

/// A user's document in the store.
#[derive(Debug)]
pub struct User {
    pub username: String,
    /// The user's sealed payload as base64 text, if any was stored.
    pub data: Option<String>,
}

/// What the submit form shows about the last attempt.
#[derive(Clone, Copy, Debug, PartialEq, Eq, Structural)]
pub struct SubmitContext {
    pub policy_error: bool,
    pub encrypt_error: bool,
}

/// What the dashboard shows.
#[derive(Debug)]
pub struct DashboardView {
    pub username: String,
    pub data: String,
    /// Why the payload could not be read, if it could not. This is for the
    /// log; the page shows the same note for every reason.
    pub failure: Option<&'static str>,
}

/// How a login attempt ends.
#[derive(Debug)]
pub enum LoginOutcome {
    /// The name was empty once trimmed: back to the login form.
    Refused,
    /// A session starts for `username`. The cookie is absent where the
    /// session could not be sealed.
    Started { username: String, cookie: Option<CookieAttributes> },
}

/// How a submission ends.
#[derive(Debug)]
pub enum SubmitOutcome {
    /// The policy denies the submission.
    Denied(PolicyDenied),
    /// The text could not be sealed.
    EncryptFailed,
    /// `data` is to be stored as the payload of `username`.
    Store { username: String, data: String },
}

/// Whether `username` can name a session: it is not empty, and neither
/// starts nor ends with whitespace.
pub open spec fn valid_username(username: Seq<char>) -> bool {
    username.len() > 0 && is_trimmed(username)
}

/// Whether `text` can be sealed and armored: its bytes are few enough for
/// the cipher, and the sealed bytes few enough for the armor.
pub open spec fn storable(text: Seq<char>) -> bool {
    &&& encode_utf8(text).len() <= MAX_PLAINTEXT_LEN
    &&& NONCE_LEN + encode_utf8(text).len() + TAG_LEN <= max_armored_len()
}

/// Whether `data` is the armored sealing of `text` under `key`.
pub open spec fn is_stored_payload(key: Seq<u8>, text: Seq<char>, data: Seq<char>) -> bool {
    is_armored_sealing(key, encode_utf8(text), data)
}

/// What the dashboard shows for a stored payload: the text for its owner,
/// one and the same note where it cannot be read, a placeholder where there
/// is none.
pub open spec fn payload_display(key: Seq<u8>, data: Option<Seq<char>>) -> Seq<char> {
    match data {
        Some(encrypted_b64) => if encrypted_b64.len() == 0 {
            NO_DATA@
        } else {
            match owner_read(key, encrypted_b64) {
                Ok(text) => text,
                Err(_) => UNREADABLE@,
            }
        },
        None => NO_DATA@,
    }
}

/// The characters of a stored payload that may be absent.
pub open spec fn stored_text(data: Option<String>) -> Option<Seq<char>> {
    match data {
        Some(text) => Some(text@),
        None => None,
    }
}

/// Why a stored payload cannot be shown, where it cannot.
pub open spec fn payload_failure(key: Seq<u8>, data: Option<Seq<char>>) -> Option<Seq<char>> {
    match data {
        Some(encrypted_b64) => if encrypted_b64.len() == 0 {
            None
        } else {
            match owner_read(key, encrypted_b64) {
                Ok(_) => None,
                Err(reason) => Some(reason),
            }
        },
        None => None,
    }
}

impl LoginOutcome {
    /// Where the browser goes next.
    pub fn redirect(&self) -> (path: &'static str)
        ensures
            path@ == (match self {
                LoginOutcome::Refused => HOME@,
                LoginOutcome::Started { .. } => DASHBOARD@,
            }),
    {
        match self {
            LoginOutcome::Refused => HOME,
            LoginOutcome::Started { .. } => DASHBOARD,
        }
    }
}

impl SubmitOutcome {
    /// Where the browser goes next.
    pub fn redirect(&self) -> (path: &'static str)
        ensures
            path@ == (match self {
                SubmitOutcome::Denied(PolicyDenied::NotAuthenticated) => HOME@,
                SubmitOutcome::Denied(PolicyDenied::SensitiveContent) => SUBMIT_SENSITIVE@,
                SubmitOutcome::Denied(PolicyDenied::NotAllowed) => SUBMIT_NOT_ALLOWED@,
                SubmitOutcome::EncryptFailed => SUBMIT_ENCRYPT@,
                SubmitOutcome::Store { .. } => DASHBOARD@,
            }),
    {
        match self {
            SubmitOutcome::Denied(PolicyDenied::NotAuthenticated) => HOME,
            SubmitOutcome::Denied(PolicyDenied::SensitiveContent) => SUBMIT_SENSITIVE,
            SubmitOutcome::Denied(PolicyDenied::NotAllowed) => SUBMIT_NOT_ALLOWED,
            SubmitOutcome::EncryptFailed => SUBMIT_ENCRYPT,
            SubmitOutcome::Store { .. } => DASHBOARD,
        }
    }
}

/// Starts a session for the name typed into the login form.
///
/// The name is trimmed; an empty name is refused. Otherwise the session
/// starts under the trimmed name, with a cookie that resolves to it.
pub fn login(sessions: &SessionManager, raw_username: &str) -> (r: LoginOutcome)
    ensures
        match r {
            LoginOutcome::Refused => trimmed(raw_username@).len() == 0,
            LoginOutcome::Started { username, cookie } => {
                &&& username@ == trimmed(raw_username@)
                &&& valid_username(username@)
                &&& cookie is Some <==> issuable(username@)
                &&& name_fits(username@) ==> cookie is Some
                &&& cookie matches Some(c) ==> is_session_cookie(sessions.key(), username@, c)
                    && resolved(sessions.key(), Some(c.value@)) == Ok::<Seq<char>, ResolveError>(
                    username@,
                )
            },
        },
{
    let username = trim(raw_username);
    if username.is_empty() {
        return LoginOutcome::Refused;
    }
    proof {
        lemma_trimmed(raw_username@);
    }
    let cookie = sessions.create_session(username);
    LoginOutcome::Started { username: username.to_owned(), cookie }
}

/// Decides a submission of `text` by `session`, given whether the text
/// passed the content rule.
///
/// The policy is asked first, for the session's own payload; then the text
/// is sealed and armored. A session always owns the payload it writes, so
/// the ownership rule never denies here.
pub fn decide_submit(
    sessions: &SessionManager,
    session: &SessionData,
    acceptable: bool,
    text: &str,
) -> (r: SubmitOutcome)
    ensures
        match r {
            SubmitOutcome::Denied(denial) => !acceptable && denial
                == PolicyDenied::SensitiveContent,
            SubmitOutcome::EncryptFailed => acceptable && !storable(text@),
            SubmitOutcome::Store { username, data } => {
                &&& acceptable && storable(text@)
                &&& username@ == session@
                &&& is_stored_payload(sessions.key(), text@, data@)
                &&& owner_read(sessions.key(), data@) == Ok::<Seq<char>, Seq<char>>(text@)
            },
        },
{
    match authorize(Some(session), session.username.as_str(), acceptable) {
        Err(denial) => { return SubmitOutcome::Denied(denial); },
        Ok(()) => {},
    }
    let sealed = match sessions.encrypt_for_session(session, text.as_bytes()) {
        Some(sealed) => sealed,
        None => { return SubmitOutcome::EncryptFailed; },
    };
    let data = match to_cookie_value(sealed.as_slice()) {
        Some(data) => data,
        None => { return SubmitOutcome::EncryptFailed; },
    };
    proof {
        encode_utf8_valid_utf8(text@);
        encode_utf8_decode_utf8(text@);
    }
    SubmitOutcome::Store { username: session.username.clone(), data }
}

/// Decides a submission of `text` by the request that carries
/// `cookie_value`.
///
/// Without a session that resolves nothing is checked or stored. With one,
/// a text that looks sensitive is denied, and every other text that can be
/// sealed is stored under the session's user, where it reads back, for its
/// owner, as the text submitted.
pub fn submit(sessions: &SessionManager, cookie_value: Option<&str>, text: &str) -> (r:
    SubmitOutcome)
    ensures
        match r {
            SubmitOutcome::Denied(PolicyDenied::NotAuthenticated) => resolved(
                sessions.key(),
                text_of(cookie_value),
            ) is Err,
            SubmitOutcome::Denied(PolicyDenied::SensitiveContent) => {
                &&& resolved(sessions.key(), text_of(cookie_value)) is Ok
                &&& looks_sensitive(text@)
            },
            SubmitOutcome::Denied(PolicyDenied::NotAllowed) => false,
            SubmitOutcome::EncryptFailed => {
                &&& resolved(sessions.key(), text_of(cookie_value)) is Ok
                &&& !looks_sensitive(text@)
                &&& !storable(text@)
            },
            SubmitOutcome::Store { username, data } => {
                &&& resolved(sessions.key(), text_of(cookie_value)) == Ok::<
                    Seq<char>,
                    ResolveError,
                >(username@)
                &&& !looks_sensitive(text@)
                &&& storable(text@)
                &&& is_stored_payload(sessions.key(), text@, data@)
                &&& owner_read(sessions.key(), data@) == Ok::<Seq<char>, Seq<char>>(text@)
            },
        },
{
    let session = match sessions.get_session(cookie_value) {
        Some(session) => session,
        None => { return SubmitOutcome::Denied(PolicyDenied::NotAuthenticated); },
    };
    let acceptable = reject_sensitive_text(text);
    decide_submit(sessions, &session, acceptable, text)
}

/// What the dashboard shows to `session`, given the user's document if the
/// store has one.
pub fn dashboard_view(sessions: &SessionManager, session: &SessionData, user: Option<User>) -> (r:
    DashboardView)
    ensures
        match user {
            Some(u) => {
                &&& r.username@ == u.username@
                &&& r.data@ == payload_display(sessions.key(), stored_text(u.data))
                &&& text_of(r.failure) == payload_failure(sessions.key(), stored_text(u.data))
            },
            None => r.username@ == session@ && r.data@ == NO_USER@ && r.failure is None,
        },
{
    match user {
        Some(u) => {
            let (data, failure) = match &u.data {
                Some(encrypted_b64) => {
                    if encrypted_b64.as_str().is_empty() {
                        (NO_DATA.to_owned(), None)
                    } else {
                        match owner_decrypt_if_allowed(sessions, session, encrypted_b64.as_str()) {
                            Ok(text) => (text, None),
                            Err(reason) => (UNREADABLE.to_owned(), Some(reason)),
                        }
                    }
                },
                None => (NO_DATA.to_owned(), None),
            };
            DashboardView { username: u.username, data, failure }
        },
        None => DashboardView {
            username: session.username.clone(),
            data: NO_USER.to_owned(),
            failure: None,
        },
    }
}

/// What the submit form shows for the `error` parameter of its address.
pub fn submit_context(error: Option<&str>) -> (r: SubmitContext)
    ensures
        r.policy_error == (text_of(error) == Some(ERROR_SENSITIVE@)),
        r.encrypt_error == (text_of(error) == Some(ERROR_ENCRYPT@)),
{
    match error {
        Some(value) => SubmitContext {
            policy_error: same_text(value, ERROR_SENSITIVE),
            encrypt_error: same_text(value, ERROR_ENCRYPT),
        },
        None => SubmitContext { policy_error: false, encrypt_error: false },
    }
}

} // verus!

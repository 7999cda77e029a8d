//! The access policy: who may read or write a stored payload, and which
//! texts may be stored at all.

use crate::codec::{armor_inverts, base64_bytes, base64_text, from_cookie_value, SessionData};
use crate::crypto::{cipher_inverts, is_sealed, NONCE_LEN};
use crate::sessions::{decrypted_text, lemma_encrypt_then_decrypt, SessionManager};
use crate::text::same_text;
use vstd::prelude::*;
use vstd::utf8::encode_utf8;

verus! {

/// Three digits, a hyphen, two digits, a hyphen, four digits, as a word of
/// its own.
pub const SSN_PATTERN: &'static str = r"\b\d{3}-\d{2}-\d{4}\b";

/// A run of thirteen to nineteen digits, as a word of its own.
pub const CARD_PATTERN: &'static str = r"\b\d{13,19}\b";

/// Three digits, three digits and four digits, each pair with or without a
/// hyphen or a space between, as a word of its own.
pub const PHONE_PATTERN: &'static str = r"\b\d{3}[- ]?\d{3}[- ]?\d{4}\b";

/// Reason given where a session asks for another user's payload.
pub const NOT_ALLOWED: &'static str = "not allowed to read this user's data";

/// Reason given where a stored payload is not valid base64.
pub const INVALID_BASE64: &'static str = "invalid base64";

/// Reason given where a stored payload does not decrypt to text.
pub const DECRYPTION_FAILED: &'static str = "decryption failed";

/// Why the policy denies a request.
#[derive(Clone, Copy, Debug, PartialEq, Eq, Structural)]
pub enum PolicyDenied {
    /// No session resolved: the user has to log in.
    NotAuthenticated,
    /// The text looks like personal data.
    SensitiveContent,
    /// The session does not own the payload it asks for.
    NotAllowed,
}

/// Whether the regular expression `pattern`, once compiled, matches
/// anywhere in `text`.
pub uninterp spec fn pattern_found(pattern: Seq<char>, text: Seq<char>) -> bool;

/// Whether `text` holds something shaped like a social security number, a
/// payment card number or a phone number.
///
/// The patterns are a heuristic: digits written in an unusual way pass, and
/// a long run of digits that is no card number is flagged.
pub open spec fn looks_sensitive(text: Seq<char>) -> bool {
    ||| pattern_found(SSN_PATTERN@, text)
    ||| pattern_found(CARD_PATTERN@, text)
    ||| pattern_found(PHONE_PATTERN@, text)
}

/// What the policy says to a request by `session` for the payload of
/// `target_username`, where `acceptable` tells whether the text at hand
/// passed the content rule. The rules apply in order: authentication,
/// content, ownership.
pub open spec fn authorized(
    session: Option<Seq<char>>,
    target_username: Seq<char>,
    acceptable: bool,
) -> Result<(), PolicyDenied> {
    match session {
        None => Err(PolicyDenied::NotAuthenticated),
        Some(username) => if !acceptable {
            Err(PolicyDenied::SensitiveContent)
        } else if username != target_username {
            Err(PolicyDenied::NotAllowed)
        } else {
            Ok(())
        },
    }
}

/// The username of a session that may be absent.
pub open spec fn username_of(session: Option<&SessionData>) -> Option<Seq<char>> {
    match session {
        Some(s) => Some(s@),
        None => None,
    }
}

/// What reading a stored payload yields for its owner: the text, or the
/// reason why there is none.
pub open spec fn owner_read(key: Seq<u8>, encrypted_b64: Seq<char>) -> Result<
    Seq<char>,
    Seq<char>,
> {
    match base64_bytes(encrypted_b64) {
        None => Err(INVALID_BASE64@),
        Some(sealed) => match decrypted_text(key, sealed) {
            None => Err(DECRYPTION_FAILED@),
            Some(text) => Ok(text),
        },
    }
}

/// An owner reads back what was stored: where the cipher and the armor each
/// undo themselves, the armored sealing of a text reads as that text.
pub proof fn lemma_owner_reads_own_payload(key: Seq<u8>, text: Seq<char>, sealed: Seq<u8>)
    requires
        is_sealed(key, encode_utf8(text), sealed),
        cipher_inverts(key, sealed.take(NONCE_LEN as int), encode_utf8(text)),
        armor_inverts(sealed),
    ensures
        owner_read(key, base64_text(sealed)) == Ok::<Seq<char>, Seq<char>>(text),
{
    lemma_encrypt_then_decrypt(key, text, sealed);
}

/// The three reasons for which a read fails can be told apart.
pub proof fn lemma_reasons_differ()
    ensures
        NOT_ALLOWED@ != INVALID_BASE64@,
        NOT_ALLOWED@ != DECRYPTION_FAILED@,
        INVALID_BASE64@ != DECRYPTION_FAILED@,
{
    reveal_strlit("not allowed to read this user's data");
    reveal_strlit("invalid base64");
    reveal_strlit("decryption failed");
    assert(NOT_ALLOWED@.len() == 36);
    assert(INVALID_BASE64@.len() == 14);
    assert(DECRYPTION_FAILED@.len() == 17);
}

/// Whether `pattern` is one of the three patterns of this policy.
pub open spec fn is_policy_pattern(pattern: Seq<char>) -> bool {
    pattern == SSN_PATTERN@ || pattern == CARD_PATTERN@ || pattern == PHONE_PATTERN@
}

/// Calls `Regex::new` and, where the pattern compiles, `Regex::is_match`.
/// A pattern is refused for its syntax or for the memory that its compiled
/// form takes, which varies with the machine, so of patterns at large
/// nothing is claimed of when they compile. The three patterns of this
/// policy do compile: their syntax is valid, and their compiled form stays
/// far below the default limit of ten mebibytes on every width of pointer.
#[verifier::external_body]
fn find_pattern(pattern: &str, text: &str) -> (r: Option<bool>)
    ensures
        is_policy_pattern(pattern@) ==> r is Some,
        r matches Some(found) ==> found == pattern_found(pattern@, text@),
{
    match regex::Regex::new(pattern) {
        Ok(re) => Some(re.is_match(text)),
        Err(_) => None,
    }
}

/// A session may touch only the payload stored under its own username.
pub fn user_may_access(session: &SessionData, target_username: &str) -> (allowed: bool)
    ensures
        allowed == (session@ == target_username@),
{
    same_text(session.username.as_str(), target_username)
}

/// The verdict on a text from the outcome of the three pattern searches:
/// acceptable only where each search ran and found nothing.
pub fn acceptable_text(ssn: Option<bool>, card: Option<bool>, phone: Option<bool>) -> (acceptable:
    bool)
    ensures
        acceptable <==> ssn == Some(false) && card == Some(false) && phone == Some(false),
{
    match (ssn, card, phone) {
        (Some(false), Some(false), Some(false)) => true,
        _ => false,
    }
}

/// Whether `input` may be stored: `true` where it holds nothing that looks
/// like personal data, `false` where one of the three patterns matches in
/// it.
///
/// The patterns are a heuristic, not a guarantee: digits written in an
/// unusual way pass, and a long run of digits that is no card number is
/// refused.
pub fn reject_sensitive_text(input: &str) -> (acceptable: bool)
    ensures
        acceptable == !looks_sensitive(input@),
{
    let ssn = find_pattern(SSN_PATTERN, input);
    let card = find_pattern(CARD_PATTERN, input);
    let phone = find_pattern(PHONE_PATTERN, input);
    acceptable_text(ssn, card, phone)
}

/// Only a resolved session counts as authenticated.
pub fn require_authenticated(session: Option<&SessionData>) -> (authenticated: bool)
    ensures
        authenticated == session.is_some(),
{
    session.is_some()
}

/// Applies the three rules to a request by `session` for the payload of
/// `target_username`: the session must be there, the text must have passed
/// the content rule, and the payload must be the session's own. The first
/// rule that fails names the denial.
pub fn authorize(session: Option<&SessionData>, target_username: &str, acceptable: bool) -> (r:
    Result<(), PolicyDenied>)
    ensures
        r == authorized(username_of(session), target_username@, acceptable),
{
    if !require_authenticated(session) {
        return Err(PolicyDenied::NotAuthenticated);
    }
    let session = session.unwrap();
    if !acceptable {
        return Err(PolicyDenied::SensitiveContent);
    }
    if !user_may_access(session, target_username) {
        return Err(PolicyDenied::NotAllowed);
    }
    Ok(())
}

/// Decrypts the stored payload of the session's own user.
///
/// The subject is always the owner of the session, so the ownership check
/// never refuses; it stays as a guard. The two reasons that do occur tell a
/// payload that is not base64 from one that does not decrypt to text.
pub fn owner_decrypt_if_allowed(
    sessions: &SessionManager,
    session: &SessionData,
    encrypted_b64: &str,
) -> (r: Result<String, &'static str>)
    ensures
        match r {
            Ok(text) => owner_read(sessions.key(), encrypted_b64@) == Ok::<Seq<char>, Seq<char>>(
                text@,
            ),
            Err(reason) => owner_read(sessions.key(), encrypted_b64@) == Err::<
                Seq<char>,
                Seq<char>,
            >(reason@),
        },
{
    if !user_may_access(session, session.username.as_str()) {
        return Err(NOT_ALLOWED);
    }
    let bytes = match from_cookie_value(encrypted_b64) {
        Ok(bytes) => bytes,
        Err(_) => { return Err(INVALID_BASE64); },
    };
    match sessions.decrypt_for_session(session, bytes.as_slice()) {
        Some(text) => Ok(text),
        None => Err(DECRYPTION_FAILED),
    }
}

} // verus!

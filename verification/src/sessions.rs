//! The session manager: one symmetric key for the life of the process, and
//! the cookies and payloads sealed under it.

pub use crate::codec::SessionData;

use crate::codec::{
    armor_inverts, base64_bytes, base64_text, decode_record, encode_record, from_cookie_value,
    json_inverts, lemma_record_round_trip, max_armored_len, max_record_len, parsed_record,
    record_bytes, to_cookie_value, FormatError,
};
use crate::crypto::{
    aead_seal, cipher_inverts, is_sealed, lemma_nonces_tell_sealings_apart, open, opened,
    random_nonce, seal_with_nonce, sealed_with, DecryptError, SessionKey, KEY_LEN,
    MAX_PLAINTEXT_LEN, NONCE_LEN, TAG_LEN,
};
use crate::text::text_of;
use vstd::prelude::*;
use vstd::utf8::{
    decode_utf8, encode_utf8, encode_utf8_decode_utf8, encode_utf8_valid_utf8, valid_utf8,
};

verus! {

/// Name of the cookie that carries the session.
pub const SESSION_COOKIE: &'static str = "session";

/// Path for which the session cookie is sent.
pub const SESSION_PATH: &'static str = "/";

/// A cookie for the response to set: its name, value and attributes.
#[derive(Debug, Clone)]
pub struct CookieAttributes {
    pub name: String,
    pub value: String,
    pub path: String,
    /// Set where client-side scripts must not read the cookie.
    pub http_only: bool,
}

/// Why a cookie value did not resolve to a session.
#[derive(Clone, Copy, Debug, PartialEq, Eq, Structural)]
pub enum ResolveError {
    /// The request carried no session cookie.
    Missing,
    /// The cookie's text or the record inside it is malformed.
    Format(FormatError),
    /// The cookie was not sealed under this manager's key, or was altered.
    Decrypt(DecryptError),
}

/// Holder of the process's symmetric key. The key is set when the manager
/// is made and never changes.
pub struct SessionManager {
    key: SessionKey,
}

/// The session that a cookie value resolves to under `key`.
pub open spec fn resolved(key: Seq<u8>, cookie: Option<Seq<char>>) -> Result<
    Seq<char>,
    ResolveError,
> {
    match cookie {
        None => Err(ResolveError::Missing),
        Some(text) => match base64_bytes(text) {
            None => Err(ResolveError::Format(FormatError::Armor)),
            Some(sealed) => match opened(key, sealed) {
                Err(e) => Err(ResolveError::Decrypt(e)),
                Ok(bytes) => match parsed_record(bytes) {
                    None => Err(ResolveError::Format(FormatError::Record)),
                    Some(username) => Ok(username),
                },
            },
        },
    }
}

/// Whether a session for `username` can be issued: its record is short
/// enough for the cipher and, once sealed, for the armor.
pub open spec fn issuable(username: Seq<char>) -> bool {
    &&& record_bytes(username).len() <= MAX_PLAINTEXT_LEN
    &&& NONCE_LEN + record_bytes(username).len() + TAG_LEN <= max_armored_len()
}

/// Whether `username` is short enough for its session to be issued
/// whatever it holds: even with every byte escaped, its record fits the
/// cipher and the armor.
pub open spec fn name_fits(username: Seq<char>) -> bool {
    &&& max_record_len(encode_utf8(username).len()) <= MAX_PLAINTEXT_LEN
    &&& NONCE_LEN + max_record_len(encode_utf8(username).len()) + TAG_LEN <= max_armored_len()
}

/// The value of the session cookie issued for `username` under `key` with
/// `nonce`: the armored sealing of the user's record.
pub open spec fn cookie_value_with(key: Seq<u8>, nonce: Seq<u8>, username: Seq<char>) -> Seq<
    char,
> {
    base64_text(sealed_with(key, nonce, record_bytes(username)))
}

/// Whether `value` is the armored sealing of `plaintext` under `key`.
pub open spec fn is_armored_sealing(key: Seq<u8>, plaintext: Seq<u8>, value: Seq<char>) -> bool {
    base64_bytes(value) matches Some(sealed) && is_sealed(key, plaintext, sealed) && value
        == base64_text(sealed)
}

/// Whether `cookie` is a session cookie issued for `username` under `key`:
/// it has the fixed name and path, is closed to scripts, and its value is
/// the armored sealing of the user's record.
pub open spec fn is_session_cookie(
    key: Seq<u8>,
    username: Seq<char>,
    cookie: CookieAttributes,
) -> bool {
    &&& cookie.name@ == SESSION_COOKIE@
    &&& cookie.path@ == SESSION_PATH@
    &&& cookie.http_only
    &&& is_armored_sealing(key, record_bytes(username), cookie.value@)
}

/// The text that a sealed payload decrypts to under `key`.
pub open spec fn decrypted_text(key: Seq<u8>, sealed: Seq<u8>) -> Option<Seq<char>> {
    match opened(key, sealed) {
        Ok(bytes) => if valid_utf8(bytes) {
            Some(decode_utf8(bytes))
        } else {
            None
        },
        Err(_) => None,
    }
}

/// Resolving inverts issuing: where the JSON writer, the cipher and the
/// armor each undo themselves, the cookie issued for a user, with whatever
/// nonce, resolves to that user.
pub proof fn lemma_issue_then_resolve(key: Seq<u8>, nonce: Seq<u8>, username: Seq<char>)
    requires
        nonce.len() == NONCE_LEN,
        json_inverts(username),
        cipher_inverts(key, nonce, record_bytes(username)),
        armor_inverts(sealed_with(key, nonce, record_bytes(username))),
    ensures
        resolved(key, Some(cookie_value_with(key, nonce, username))) == Ok::<
            Seq<char>,
            ResolveError,
        >(username),
{
    let sealed = sealed_with(key, nonce, record_bytes(username));
    assert(sealed.take(NONCE_LEN as int) == nonce);
    assert(sealed.skip(NONCE_LEN as int) == aead_seal(key, nonce, record_bytes(username)));
    lemma_record_round_trip(username);
}

/// Decrypting inverts encrypting: where the cipher undoes itself, the
/// sealed bytes of a text decrypt to that text.
pub proof fn lemma_encrypt_then_decrypt(key: Seq<u8>, text: Seq<char>, sealed: Seq<u8>)
    requires
        is_sealed(key, encode_utf8(text), sealed),
        cipher_inverts(key, sealed.take(NONCE_LEN as int), encode_utf8(text)),
    ensures
        decrypted_text(key, sealed) == Some(text),
{
    encode_utf8_valid_utf8(text);
    encode_utf8_decode_utf8(text);
}

/// Cookies issued with different nonces differ, whoever they are for: where
/// the armor undoes itself, the cookie's value decodes to bytes that start
/// with the nonce.
pub proof fn lemma_nonces_tell_cookies_apart(
    key: Seq<u8>,
    nonce_a: Seq<u8>,
    username_a: Seq<char>,
    nonce_b: Seq<u8>,
    username_b: Seq<char>,
)
    requires
        nonce_a.len() == NONCE_LEN,
        nonce_b.len() == NONCE_LEN,
        nonce_a != nonce_b,
        armor_inverts(sealed_with(key, nonce_a, record_bytes(username_a))),
        armor_inverts(sealed_with(key, nonce_b, record_bytes(username_b))),
    ensures
        cookie_value_with(key, nonce_a, username_a) != cookie_value_with(
            key,
            nonce_b,
            username_b,
        ),
{
    lemma_nonces_tell_sealings_apart(
        key,
        nonce_a,
        record_bytes(username_a),
        key,
        nonce_b,
        record_bytes(username_b),
    );
}

/// Calls `String::from_utf8`, which succeeds exactly on valid UTF-8 and then
/// holds the characters that the bytes encode.
#[verifier::external_body]
fn string_from_utf8(bytes: Vec<u8>) -> (r: Option<String>)
    ensures
        r is Some <==> valid_utf8(bytes@),
        r matches Some(text) ==> text@ == decode_utf8(bytes@),
{
    match String::from_utf8(bytes) {
        Ok(text) => Some(text),
        Err(_) => None,
    }
}

impl SessionManager {
    /// The key that this manager seals under.
    pub closed spec fn key(&self) -> Seq<u8> {
        self.key@
    }

    /// A manager with a freshly generated random key.
    pub fn new() -> (manager: SessionManager)
        ensures
            manager.key().len() == KEY_LEN,
    {
        SessionManager { key: SessionKey::generate() }
    }

    /// A manager for a key that was made earlier.
    pub fn from_key(key: SessionKey) -> (manager: SessionManager)
        ensures
            manager.key() == key@,
    {
        SessionManager { key }
    }

    /// Issues the session cookie for `username`, sealed with the nonce
    /// given.
    ///
    /// A nonce must not serve twice under one key; [`Self::create_session`]
    /// draws a fresh one. The cookie is issued for every name that fits, and
    /// resolves under this manager to that user.
    pub fn create_session_with_nonce(&self, nonce: &[u8; 12], username: &str) -> (r: Option<
        CookieAttributes,
    >)
        ensures
            r is Some <==> issuable(username@),
            name_fits(username@) ==> r is Some,
            r matches Some(cookie) ==> {
                &&& cookie.value@ == cookie_value_with(self.key(), nonce@, username@)
                &&& is_session_cookie(self.key(), username@, cookie)
                &&& resolved(self.key(), Some(cookie.value@)) == Ok::<Seq<char>, ResolveError>(
                    username@,
                )
            },
    {
        let session = SessionData { username: username.to_owned() };
        let bytes = encode_record(&session);
        let sealed = match seal_with_nonce(&self.key, nonce, bytes.as_slice()) {
            Some(sealed) => sealed,
            None => { return None; },
        };
        let value = match to_cookie_value(sealed.as_slice()) {
            Some(value) => value,
            None => { return None; },
        };
        Some(
            CookieAttributes {
                name: SESSION_COOKIE.to_owned(),
                value,
                path: SESSION_PATH.to_owned(),
                http_only: true,
            },
        )
    }

    /// Issues the session cookie for `username`, sealed with a fresh random
    /// nonce.
    ///
    /// The cookie's value is the armored sealing of the user's record. It is
    /// issued for every name that fits, and resolves under this manager to
    /// that user.
    pub fn create_session(&self, username: &str) -> (r: Option<CookieAttributes>)
        ensures
            r is Some <==> issuable(username@),
            name_fits(username@) ==> r is Some,
            r matches Some(cookie) ==> {
                &&& is_session_cookie(self.key(), username@, cookie)
                &&& resolved(self.key(), Some(cookie.value@)) == Ok::<Seq<char>, ResolveError>(
                    username@,
                )
            },
    {
        let nonce = random_nonce();
        self.create_session_with_nonce(&nonce, username)
    }

    /// Resolves the value of the session cookie, if the request had one, and
    /// says which stage failed where it does not resolve.
    pub fn resolve(&self, cookie_value: Option<&str>) -> (r: Result<SessionData, ResolveError>)
        ensures
            match r {
                Ok(session) => resolved(self.key(), text_of(cookie_value)) == Ok::<
                    Seq<char>,
                    ResolveError,
                >(session@),
                Err(e) => resolved(self.key(), text_of(cookie_value)) == Err::<
                    Seq<char>,
                    ResolveError,
                >(e),
            },
    {
        let text = match cookie_value {
            Some(text) => text,
            None => { return Err(ResolveError::Missing); },
        };
        let sealed = match from_cookie_value(text) {
            Ok(sealed) => sealed,
            Err(e) => { return Err(ResolveError::Format(e)); },
        };
        let bytes = match open(&self.key, sealed.as_slice()) {
            Ok(bytes) => bytes,
            Err(e) => { return Err(ResolveError::Decrypt(e)); },
        };
        match decode_record(bytes.as_slice()) {
            Ok(session) => Ok(session),
            Err(e) => Err(ResolveError::Format(e)),
        }
    }

    /// The session that the cookie value resolves to, or `None` where any
    /// stage fails: no cookie, bad armor, failed decryption, malformed record.
    pub fn get_session(&self, cookie_value: Option<&str>) -> (r: Option<SessionData>)
        ensures
            match r {
                Some(session) => resolved(self.key(), text_of(cookie_value)) == Ok::<
                    Seq<char>,
                    ResolveError,
                >(session@),
                None => resolved(self.key(), text_of(cookie_value)) is Err,
            },
    {
        match self.resolve(cookie_value) {
            Ok(session) => Some(session),
            Err(_) => None,
        }
    }

    /// Seals a payload under the manager's key with the nonce given. The
    /// session does not enter into the encryption: every session shares the
    /// one key.
    ///
    /// A nonce must not serve twice under one key;
    /// [`Self::encrypt_for_session`] draws a fresh one.
    pub fn encrypt_for_session_with_nonce(
        &self,
        _session: &SessionData,
        nonce: &[u8; 12],
        plaintext: &[u8],
    ) -> (r: Option<Vec<u8>>)
        ensures
            r is Some <==> plaintext@.len() <= MAX_PLAINTEXT_LEN,
            r matches Some(sealed) ==> {
                &&& sealed@ == sealed_with(self.key(), nonce@, plaintext@)
                &&& is_sealed(self.key(), plaintext@, sealed@)
                &&& opened(self.key(), sealed@) == Ok::<Seq<u8>, DecryptError>(plaintext@)
            },
    {
        seal_with_nonce(&self.key, nonce, plaintext)
    }

    /// Seals a payload under the manager's key with a fresh random nonce.
    /// The session does not enter into the encryption: every session shares
    /// the one key.
    pub fn encrypt_for_session(&self, _session: &SessionData, plaintext: &[u8]) -> (r: Option<
        Vec<u8>,
    >)
        ensures
            r is Some <==> plaintext@.len() <= MAX_PLAINTEXT_LEN,
            r matches Some(sealed) ==> {
                &&& is_sealed(self.key(), plaintext@, sealed@)
                &&& opened(self.key(), sealed@) == Ok::<Seq<u8>, DecryptError>(plaintext@)
            },
    {
        let nonce = random_nonce();
        self.encrypt_for_session_with_nonce(_session, &nonce, plaintext)
    }

    /// Opens a sealed payload and reads it as text. `None` where the payload
    /// does not authenticate or the opened bytes are not UTF-8.
    pub fn decrypt_for_session(&self, _session: &SessionData, ciphertext: &[u8]) -> (r: Option<
        String,
    >)
        ensures
            match r {
                Some(text) => decrypted_text(self.key(), ciphertext@) == Some(text@),
                None => decrypted_text(self.key(), ciphertext@) is None,
            },
    {
        match open(&self.key, ciphertext) {
            Ok(bytes) => string_from_utf8(bytes),
            Err(_) => None,
        }
    }
}

} // verus!

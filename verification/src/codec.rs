//! The session record, its byte form, and the text armor of sealed bytes.
//!
//! A record is written as the JSON object `{"username":"..."}` with nothing
//! around it; the armor is standard base64 with padding.

use base64::Engine;
use vstd::prelude::*;
use vstd::utf8::encode_utf8;

verus! {

/// The identity carried by a session cookie.
#[derive(Debug, Clone)]
pub struct SessionData {
    pub username: String,
}

impl View for SessionData {
    type V = Seq<char>;

    /// A session record is its username.
    open spec fn view(&self) -> Seq<char> {
        self.username@
    }
}

/// Why bytes or text could not be read back.
#[derive(Clone, Copy, Debug, PartialEq, Eq, Structural)]
pub enum FormatError {
    /// The text is not standard base64.
    Armor,
    /// The bytes are not an encoded session record.
    Record,
}

/// The JSON string literal that `serde_json` writes for `text`.
pub uninterp spec fn json_string(text: Seq<char>) -> Seq<u8>;

/// The text that `serde_json` reads from `bytes` as one JSON string, or
/// `None` where it reports an error.
pub uninterp spec fn json_string_value(bytes: Seq<u8>) -> Option<Seq<char>>;

/// The standard base64 text of `bytes`.
pub uninterp spec fn base64_text(bytes: Seq<u8>) -> Seq<char>;

/// The bytes that standard base64 `text` stands for, or `None` where the
/// text is not valid base64.
pub uninterp spec fn base64_bytes(text: Seq<char>) -> Option<Seq<u8>>;

/// Whether the JSON string of `text` reads back as `text`.
pub open spec fn json_inverts(text: Seq<char>) -> bool {
    json_string_value(json_string(text)) == Some(text)
}

/// The most bytes that the JSON string of a text of `bytes` bytes can take:
/// two quotes, and for each byte at most an escape of six.
pub open spec fn max_json_string_len(bytes: nat) -> nat {
    6 * bytes + 2
}

/// Whether the base64 text of `bytes` decodes to `bytes`.
pub open spec fn armor_inverts(bytes: Seq<u8>) -> bool {
    base64_bytes(base64_text(bytes)) == Some(bytes)
}

/// The longest input, in bytes, whose base64 text still has a length that
/// fits in `usize`.
pub open spec fn max_armored_len() -> nat {
    (usize::MAX / 4 * 3) as nat
}

/// The bytes `{"username":` that open an encoded record.
pub const RECORD_OPEN: [u8; 12] = [
    0x7b, 0x22, 0x75, 0x73, 0x65, 0x72, 0x6e, 0x61, 0x6d, 0x65, 0x22, 0x3a,
];

/// Number of bytes that open an encoded record.
pub const RECORD_OPEN_LEN: usize = 12;

/// The byte `}` that closes an encoded record.
pub const RECORD_CLOSE: u8 = 0x7d;

/// The byte form of the record of `username`: the opening bytes, the
/// username as a JSON string, and the closing brace.
pub open spec fn record_bytes(username: Seq<char>) -> Seq<u8> {
    RECORD_OPEN@ + json_string(username) + seq![RECORD_CLOSE]
}

/// The most bytes that the record of a username of `bytes` bytes can take.
pub open spec fn max_record_len(bytes: nat) -> nat {
    RECORD_OPEN_LEN as nat + max_json_string_len(bytes) + 1
}

/// The username that `bytes` encode, where they are an encoded record.
pub open spec fn parsed_record(bytes: Seq<u8>) -> Option<Seq<char>> {
    if bytes.len() > RECORD_OPEN_LEN && bytes.take(RECORD_OPEN_LEN as int) == RECORD_OPEN@
        && bytes.last() == RECORD_CLOSE {
        json_string_value(bytes.subrange(RECORD_OPEN_LEN as int, bytes.len() - 1))
    } else {
        None
    }
}

/// Decoding inverts encoding: wherever the JSON string of a username reads
/// back as that username, the record's byte form parses to the username.
pub proof fn lemma_record_round_trip(username: Seq<char>)
    requires
        json_inverts(username),
    ensures
        parsed_record(record_bytes(username)) == Some(username),
{
    let literal = json_string(username);
    let bytes = record_bytes(username);
    assert(bytes.take(RECORD_OPEN_LEN as int) == RECORD_OPEN@);
    assert(bytes.subrange(RECORD_OPEN_LEN as int, bytes.len() - 1) == literal);
}

/// Calls `serde_json::to_vec` on a string slice, which writes it as one JSON
/// string literal. Writing a string slice into a vector cannot fail. The
/// literal is the text between two quotes, each byte as it is or as an
/// escape of two or six bytes. Reading the literal back with
/// `serde_json::from_slice` gives the same text.
#[verifier::external_body]
fn json_write_string(text: &str) -> (r: Option<Vec<u8>>)
    ensures
        r is Some,
        r matches Some(literal) ==> {
            &&& literal@ == json_string(text@)
            &&& literal@.len() <= max_json_string_len(encode_utf8(text@).len())
            &&& json_string_value(literal@) == Some(text@)
        },
{
    match serde_json::to_vec(text) {
        Ok(literal) => Some(literal),
        Err(_) => None,
    }
}

/// Calls `serde_json::from_slice` for a `String`: the whole input must be
/// one JSON string.
#[verifier::external_body]
fn json_read_string(bytes: &[u8]) -> (r: Option<String>)
    ensures
        match r {
            Some(text) => json_string_value(bytes@) == Some(text@),
            None => json_string_value(bytes@) is None,
        },
{
    match serde_json::from_slice::<String>(bytes) {
        Ok(text) => Some(text),
        Err(_) => None,
    }
}

/// Calls `Engine::encode` of `base64::engine::general_purpose::STANDARD`,
/// which panics where the length of the text would not fit in `usize`.
/// Decoding the text with the same engine gives the bytes back.
#[verifier::external_body]
fn base64_encode(bytes: &[u8]) -> (text: String)
    requires
        bytes@.len() <= max_armored_len(),
    ensures
        text@ == base64_text(bytes@),
        base64_bytes(text@) == Some(bytes@),
{
    base64::engine::general_purpose::STANDARD.encode(bytes)
}

/// Calls `Engine::decode` of `base64::engine::general_purpose::STANDARD`.
#[verifier::external_body]
fn base64_decode(text: &str) -> (r: Option<Vec<u8>>)
    ensures
        match r {
            Some(bytes) => base64_bytes(text@) == Some(bytes@),
            None => base64_bytes(text@) is None,
        },
{
    match base64::engine::general_purpose::STANDARD.decode(text) {
        Ok(bytes) => Some(bytes),
        Err(_) => None,
    }
}

/// Serialises a session record. The result is deterministic, parses back to
/// the same record, and is no longer than the escapes of the username allow.
pub fn encode_record(record: &SessionData) -> (bytes: Vec<u8>)
    ensures
        bytes@ == record_bytes(record@),
        bytes@.len() <= max_record_len(encode_utf8(record@).len()),
        parsed_record(bytes@) == Some(record@),
{
    let literal = json_write_string(record.username.as_str()).unwrap();
    let mut bytes: Vec<u8> = Vec::new();
    bytes.extend_from_slice(RECORD_OPEN.as_slice());
    bytes.extend_from_slice(literal.as_slice());
    bytes.push(RECORD_CLOSE);
    proof {
        lemma_record_round_trip(record@);
    }
    bytes
}

/// Reads a session record back from its byte form.
///
/// Fails where the bytes are not an encoded record: the opening bytes or the
/// closing brace are missing, or what stands between them is not one JSON
/// string.
pub fn decode_record(bytes: &[u8]) -> (r: Result<SessionData, FormatError>)
    ensures
        match r {
            Ok(record) => parsed_record(bytes@) == Some(record@),
            Err(e) => e == FormatError::Record && parsed_record(bytes@) is None,
        },
{
    let n = bytes.len();
    if n <= RECORD_OPEN_LEN || bytes[n - 1] != RECORD_CLOSE {
        return Err(FormatError::Record);
    }
    let mut i: usize = 0;
    while i < RECORD_OPEN_LEN
        invariant
            i <= RECORD_OPEN_LEN < n,
            n == bytes@.len(),
            forall|j: int| 0 <= j < i ==> bytes@[j] == RECORD_OPEN@[j],
        decreases RECORD_OPEN_LEN - i,
    {
        if bytes[i] != RECORD_OPEN[i] {
            return Err(FormatError::Record);
        }
        i += 1;
    }
    assert(bytes@.take(RECORD_OPEN_LEN as int) =~= RECORD_OPEN@);
    let (_, tail) = bytes.split_at(RECORD_OPEN_LEN);
    let (literal, _) = tail.split_at(n - RECORD_OPEN_LEN - 1);
    assert(literal@ =~= bytes@.subrange(RECORD_OPEN_LEN as int, n - 1));
    match json_read_string(literal) {
        Some(username) => Ok(SessionData { username }),
        None => Err(FormatError::Record),
    }
}

/// Armors sealed bytes as the text of a cookie value.
///
/// Fails only where the text would be too long for its length to fit in
/// `usize`.
pub fn to_cookie_value(sealed: &[u8]) -> (r: Option<String>)
    ensures
        r is Some <==> sealed@.len() <= max_armored_len(),
        r matches Some(text) ==> {
            &&& text@ == base64_text(sealed@)
            &&& base64_bytes(text@) == Some(sealed@)
        },
{
    if sealed.len() > usize::MAX / 4 * 3 {
        None
    } else {
        Some(base64_encode(sealed))
    }
}

/// Reads sealed bytes back from the text of a cookie value.
///
/// Fails where the text is not standard base64 with its padding.
pub fn from_cookie_value(text: &str) -> (r: Result<Vec<u8>, FormatError>)
    ensures
        match r {
            Ok(sealed) => base64_bytes(text@) == Some(sealed@),
            Err(e) => e == FormatError::Armor && base64_bytes(text@) is None,
        },
{
    match base64_decode(text) {
        Some(sealed) => Ok(sealed),
        None => Err(FormatError::Armor),
    }
}

} // verus!

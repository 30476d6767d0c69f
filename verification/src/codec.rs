//! Encodings used by the token and text tools: base64 (standard, and
//! URL-safe without padding), JSON and YAML reformatting, HMAC-SHA256 and
//! UTF-8. Each outside function is reached through one trusted wrapper.
use base64::engine::general_purpose::{STANDARD, URL_SAFE_NO_PAD};
use base64::Engine as _;
use hmac::{Hmac, Mac};
use sha2::Sha256;
use vstd::prelude::*;
use vstd::utf8::{decode_utf8, valid_utf8};

verus! {

/// Base64 text of `bytes` (`Engine::encode` of the base64 crate), with the
/// URL-safe alphabet and no padding (`URL_SAFE_NO_PAD`) or the standard
/// alphabet with padding (`STANDARD`).
pub uninterp spec fn base64_encoded(url_safe: bool, bytes: Seq<u8>) -> Seq<char>;

/// Base64 decoding of `text` (`Engine::decode`) with the same two engines:
/// the bytes, or the text of the decoding error.
pub uninterp spec fn base64_decoded(url_safe: bool, text: Seq<char>) -> Result<Seq<u8>, Seq<char>>;

/// URL-safe base64 of `bytes`, without padding.
pub open spec fn b64url_encoded(bytes: Seq<u8>) -> Seq<char> {
    base64_encoded(true, bytes)
}

/// URL-safe base64 decoding of `text`: the bytes or the error text.
pub open spec fn b64url_decoded(text: Seq<char>) -> Result<Seq<u8>, Seq<char>> {
    base64_decoded(true, text)
}

/// Standard base64 of `bytes`, with padding.
pub open spec fn b64_encoded(bytes: Seq<u8>) -> Seq<char> {
    base64_encoded(false, bytes)
}

/// Standard base64 decoding of `text`, `None` when it fails.
pub open spec fn b64_decoded(text: Seq<char>) -> Option<Seq<u8>> {
    match base64_decoded(false, text) {
        Ok(b) => Some(b),
        Err(_) => None,
    }
}

/// `text` parses as a JSON value (`serde_json::from_str::<Value>`).
pub uninterp spec fn json_valid(text: Seq<char>) -> bool;

/// The parsed JSON value printed by `serde_json::to_string_pretty`.
pub uninterp spec fn json_pretty(text: Seq<char>) -> Seq<char>;

/// The parsed JSON value printed by `serde_json::to_string`.
pub uninterp spec fn json_compact(text: Seq<char>) -> Seq<char>;

/// The parsed JSON value printed by `serde_yaml::to_string`.
pub uninterp spec fn json_as_yaml(text: Seq<char>) -> Seq<char>;

/// Reading the YAML document `text` (`serde_yaml::from_str::<Value>`): on
/// success its JSON text (`serde_json::to_string`), absent when JSON
/// cannot hold it; on failure the text of the error.
pub uninterp spec fn yaml_read(text: Seq<char>) -> Result<Option<Seq<char>>, Seq<char>>;

/// The JSON text of a YAML document, when it parses and JSON can hold it.
pub open spec fn yaml_as_json(text: Seq<char>) -> Option<Seq<char>> {
    match yaml_read(text) {
        Ok(j) => j,
        Err(_) => None,
    }
}

/// HMAC-SHA256 of `msg` under `key` (hmac and sha2 crates).
pub uninterp spec fn hmac_sha256(key: Seq<u8>, msg: Seq<u8>) -> Seq<u8>;

/// A character of the URL-safe base64 alphabet.
pub open spec fn url_safe_char(c: char) -> bool {
    ('A' <= c && c <= 'Z') || ('a' <= c && c <= 'z') || ('0' <= c && c <= '9') || c == '-'
        || c == '_'
}

/// `text` decodes (URL-safe, unpadded) to exactly `bytes`.
pub open spec fn b64url_round_trip(text: Seq<char>, bytes: Seq<u8>) -> bool {
    base64_decoded(true, text) == Ok::<Seq<u8>, Seq<char>>(bytes)
}

/// `text` decodes with the same engine to exactly `bytes`.
pub open spec fn base64_round_trip(url_safe: bool, text: Seq<char>, bytes: Seq<u8>) -> bool {
    base64_decoded(url_safe, text) == Ok::<Seq<u8>, Seq<char>>(bytes)
}

/// The length of the base64 text of `n` bytes: unpadded (URL-safe), or
/// padded to a multiple of four (standard).
pub open spec fn base64_len(url_safe: bool, n: int) -> int {
    if url_safe {
        (4 * n + 2) / 3
    } else {
        4 * ((n + 2) / 3)
    }
}

/// The UTF-8 bytes of `s`.
pub open spec fn utf8_of(s: Seq<char>) -> Seq<u8> {
    vstd::utf8::encode_utf8(s)
}

/// Base64 text of `bytes` (`Engine::encode`), URL-safe without padding or
/// standard with padding.
///
/// Trusted: the text is the crate's encoding, named `base64_encoded`;
/// decoding it with the same engine gives the bytes back; as the crate
/// documents, it holds four characters per three bytes (a trailing one or
/// two bytes take two or three characters, padded to four by the standard
/// engine), and the URL-safe alphabet is letters, digits, `-` and `_`. The
/// encoder's buffer arithmetic cannot overflow for a slice, whose length
/// never exceeds `isize::MAX`.
#[verifier::external_body]
pub(crate) fn encode_base64(bytes: &[u8], url_safe: bool) -> (r: String)
    ensures
        r@ == base64_encoded(url_safe, bytes@),
        base64_round_trip(url_safe, r@, bytes@),
        r@.len() == base64_len(url_safe, bytes@.len() as int),
        url_safe ==> forall|i: int| 0 <= i < r@.len() ==> url_safe_char(#[trigger] r@[i]),
{
    if url_safe {
        URL_SAFE_NO_PAD.encode(bytes)
    } else {
        STANDARD.encode(bytes)
    }
}

/// Decodes base64 text (`Engine::decode`), URL-safe without padding or
/// standard; an error is returned as its display text.
///
/// Trusted: the result is `base64_decoded` of the text, a named result.
#[verifier::external_body]
pub(crate) fn decode_base64(text: &str, url_safe: bool) -> (r: Result<Vec<u8>, String>)
    ensures
        match r {
            Ok(b) => (base64_decoded(url_safe, text@) matches Ok(d) && d == b@),
            Err(e) => (base64_decoded(url_safe, text@) matches Err(m) && m == e@),
        },
{
    let res = if url_safe {
        URL_SAFE_NO_PAD.decode(text)
    } else {
        STANDARD.decode(text)
    };
    match res {
        Ok(b) => Ok(b),
        Err(e) => Err(e.to_string()),
    }
}

/// The three printings of a JSON document.
pub struct JsonForms {
    pub pretty: String,
    pub compact: String,
    pub yaml: String,
}

/// Reads a JSON document (`serde_json::from_str::<Value>`) and prints it
/// pretty (`serde_json::to_string_pretty`), compact (`serde_json::
/// to_string`) and as YAML (`serde_yaml::to_string`).
///
/// Trusted: a result is given exactly for valid JSON, and its texts are the
/// named printings of the text. Printing a parsed `Value` does not fail:
/// its map keys are strings and it is written to memory; and it is never
/// empty, since every JSON value is written with at least one character.
#[verifier::external_body]
pub(crate) fn read_json(text: &str) -> (r: Option<JsonForms>)
    ensures
        r is Some <==> json_valid(text@),
        r matches Some(f) ==> f.pretty@ == json_pretty(text@) && f.compact@ == json_compact(text@)
            && f.yaml@ == json_as_yaml(text@) && f.compact@.len() > 0,
{
    match serde_json::from_str::<serde_json::Value>(text) {
        Ok(v) => Some(JsonForms {
            pretty: serde_json::to_string_pretty(&v).unwrap_or_default(),
            compact: serde_json::to_string(&v).unwrap_or_default(),
            yaml: serde_yaml::to_string(&v).unwrap_or_default(),
        }),
        Err(_) => None,
    }
}

/// Reads a YAML document (`serde_yaml::from_str::<Value>`) and writes it as
/// JSON (`serde_json::to_string`); an error is returned as its text.
///
/// Trusted: the result is `yaml_read` of the text, a named result.
#[verifier::external_body]
pub(crate) fn read_yaml(text: &str) -> (r: Result<Option<String>, String>)
    ensures
        match r {
            Ok(j) => (yaml_read(text@) matches Ok(k) && k == match j {
                Some(s) => Some(s@),
                None => None::<Seq<char>>,
            }),
            Err(e) => (yaml_read(text@) matches Err(m) && m == e@),
        },
{
    match serde_yaml::from_str::<serde_yaml::Value>(text) {
        Ok(v) => Ok(serde_json::to_string(&v).ok()),
        Err(e) => Err(e.to_string()),
    }
}

/// HMAC-SHA256 of `msg` under `key` (`Hmac::<Sha256>::new_from_slice`,
/// `update`, `finalize`).
///
/// Trusted: the tag is `hmac_sha256` of key and message, and it is 32
/// bytes long, the output size of SHA-256; HMAC accepts keys of any length,
/// so the key is never refused.
#[verifier::external_body]
pub(crate) fn hmac_sha256_tag(key: &[u8], msg: &[u8]) -> (r: Vec<u8>)
    ensures
        r@ == hmac_sha256(key@, msg@),
        r@.len() == 32,
{
    let mut mac = Hmac::<Sha256>::new_from_slice(key).expect("HMAC takes a key of any length");
    mac.update(msg);
    mac.finalize().into_bytes().to_vec()
}

/// The text encoded by `bytes`, when they are valid UTF-8
/// (`String::from_utf8`).
///
/// Trusted: std documents that the conversion succeeds exactly on valid
/// UTF-8 and then keeps the text the bytes encode.
#[verifier::external_body]
pub(crate) fn utf8_text(bytes: Vec<u8>) -> (r: Option<String>)
    ensures
        r is Some <==> valid_utf8(bytes@),
        r matches Some(s) ==> s@ == decode_utf8(bytes@),
{
    String::from_utf8(bytes).ok()
}

} // verus!

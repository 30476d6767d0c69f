//! The JWT tool: a token kept in step with its decoded header, payload and
//! HS256 signature. Editing the token decodes it into the fields; editing a
//! field re-encodes (and re-signs) the token.
use crate::codec::{
    b64url_decoded, b64url_encoded, b64url_round_trip, decode_base64, encode_base64, hmac_sha256,
    hmac_sha256_tag, json_compact, json_pretty, json_valid, read_json, url_safe_char, utf8_of,
    utf8_text,
};
use crate::text::{
    append_chars, chars_of, is_ws, lemma_split_pair, lemma_split_triple, lemma_trim_plain, split,
    split_chars, string_of, trim, trim_chars, views,
};
use vstd::prelude::*;
use vstd::utf8::{decode_utf8, valid_utf8};

verus! {

/// Message given for a part that is empty after trimming.
pub open spec fn empty_part_msg() -> Seq<char> {
    "Empty part"@
}

/// Message given for decoded bytes that are not text.
pub open spec fn not_utf8_msg() -> Seq<char> {
    "Decoded bytes are not valid UTF-8"@
}

/// Message given for a token without a second part.
pub open spec fn too_few_parts_msg() -> Seq<char> {
    "Invalid token: expected at least 2 parts"@
}

/// Message given for a part that decodes to text that is not JSON.
pub open spec fn not_json_msg() -> Seq<char> {
    "Decoded but not valid JSON"@
}

/// A base64url part of a token, decoded to text, or the reason it is not.
pub open spec fn decode_part(part: Seq<char>) -> Result<Seq<char>, Seq<char>> {
    let cleaned = trim(part);
    if cleaned.len() == 0 {
        Err(empty_part_msg())
    } else {
        match b64url_decoded(cleaned) {
            Ok(bytes) => if valid_utf8(bytes) {
                Ok(decode_utf8(bytes))
            } else {
                Err(not_utf8_msg())
            },
            Err(e) => Err("Base64url decode error: "@ + e),
        }
    }
}

/// The text shown for a decoded part and its error line: pretty JSON, or
/// the raw text with a note, or nothing with the decoding error.
pub open spec fn shown_part(d: Result<Seq<char>, Seq<char>>) -> (Seq<char>, Option<Seq<char>>) {
    match d {
        Ok(s) => if json_valid(s) {
            (json_pretty(s), None)
        } else {
            (s, Some(not_json_msg()))
        },
        Err(e) => (seq![], Some(e)),
    }
}

/// A field's text as it is encoded: compact JSON when it parses, else as
/// written; surrounding white space is dropped first.
pub open spec fn field_source(field: Seq<char>) -> Seq<char> {
    let t = trim(field);
    if json_valid(t) {
        json_compact(t)
    } else {
        t
    }
}

/// The base64url encoding of a field.
pub open spec fn encoded_field(field: Seq<char>) -> Seq<char> {
    b64url_encoded(utf8_of(field_source(field)))
}

/// The HS256 signature of `header.payload` under `secret`; empty without
/// a secret.
pub open spec fn signature_for(header: Seq<char>, payload: Seq<char>, secret: Seq<char>) -> Seq<
    char,
> {
    if secret.len() == 0 {
        seq![]
    } else {
        b64url_encoded(
            hmac_sha256(
                utf8_of(secret),
                utf8_of(encoded_field(header) + "."@ + encoded_field(payload)),
            ),
        )
    }
}

/// The token written from the fields: two parts, or three when a secret
/// signs it.
pub open spec fn token_for(header: Seq<char>, payload: Seq<char>, secret: Seq<char>) -> Seq<char> {
    let sig = signature_for(header, payload, secret);
    if secret.len() == 0 {
        encoded_field(header) + "."@ + encoded_field(payload)
    } else {
        encoded_field(header) + "."@ + encoded_field(payload) + "."@ + sig
    }
}

/// What reading a written token gives back: it splits at the dots into the
/// encoded header and payload (and the signature, when there is one), and
/// each non-empty field decodes back to the text it was encoded from.
pub open spec fn token_reads_back(header: Seq<char>, payload: Seq<char>, secret: Seq<char>) -> bool {
    let parts = split(trim(token_for(header, payload, secret)), '.');
    let sig = signature_for(header, payload, secret);
    &&& parts.len() == (if secret.len() == 0 {
        2int
    } else {
        3int
    })
    &&& parts[0] == encoded_field(header)
    &&& parts[1] == encoded_field(payload)
    &&& secret.len() > 0 ==> parts[2] == sig
    &&& field_source(header).len() > 0 ==> decode_part(parts[0]) == Ok::<Seq<char>, Seq<char>>(
        field_source(header),
    )
    &&& field_source(payload).len() > 0 ==> decode_part(parts[1]) == Ok::<Seq<char>, Seq<char>>(
        field_source(payload),
    )
}

/// Reading the compact printing of the JSON text `t` gives back a value
/// that prints (pretty) as `t` does. serde_json parses floating-point
/// numbers only to best effort unless built with its `float_roundtrip`
/// feature, so a number can come back changed; other values do.
pub open spec fn json_round_trips(t: Seq<char>) -> bool {
    &&& json_valid(t)
    &&& json_valid(json_compact(t))
    &&& json_pretty(json_compact(t)) == json_pretty(t)
}

/// What reading the token written from the fields gives: it splits into at
/// least two parts, header and payload come back pretty-printed without an
/// error line, and the signature read is the one written.
pub open spec fn written_token_decodes(header: Seq<char>, payload: Seq<char>, secret: Seq<char>) -> bool {
    let t = trim(token_for(header, payload, secret));
    let parts = split(t, '.');
    &&& t.len() > 0
    &&& parts.len() >= 2
    &&& shown_part(decode_part(parts[0])) == (json_pretty(trim(header)), None::<Seq<char>>)
    &&& shown_part(decode_part(parts[1])) == (json_pretty(trim(payload)), None::<Seq<char>>)
    &&& (if parts.len() >= 3 {
        parts[2]
    } else {
        Seq::<char>::empty()
    }) == signature_for(header, payload, secret)
}

/// Every character is one of the URL-safe base64 alphabet.
pub open spec fn all_url_safe(s: Seq<char>) -> bool {
    forall|i: int| 0 <= i < s.len() ==> url_safe_char(#[trigger] s[i])
}

/// A non-empty encoded text decodes back to what it was encoded from.
proof fn lemma_encoded_reads_back(enc: Seq<char>, src: Seq<char>)
    requires
        all_url_safe(enc),
        b64url_round_trip(enc, utf8_of(src)),
        enc.len() == (4 * utf8_of(src).len() + 2) / 3,
        src.len() > 0,
    ensures
        decode_part(enc) == Ok::<Seq<char>, Seq<char>>(src),
{
    broadcast use vstd::utf8::encode_utf8_decode_utf8, vstd::utf8::encode_utf8_valid_utf8;

    assert forall|i: int| 0 <= i < enc.len() implies !is_ws(#[trigger] enc[i]) by {
        assert(url_safe_char(enc[i]));
    }
    lemma_trim_plain(enc);
    if utf8_of(src).len() == 0 {
        assert(decode_utf8(utf8_of(src)) == src);
        assert(decode_utf8(Seq::<u8>::empty()) == Seq::<char>::empty());
        assert(utf8_of(src) == Seq::<u8>::empty());
    }
}

/// The token tool window.
pub struct JwtDecoderWindow {
    pub show: bool,
    pub token: String,
    pub header: String,
    pub payload: String,
    pub signature: String,
    pub secret: String,
    pub header_err: Option<String>,
    pub payload_err: Option<String>,
    pub updating_from_token: bool,
    pub updating_from_fields: bool,
}

/// The optional text of an optional string.
pub open spec fn opt_text(o: Option<String>) -> Option<Seq<char>> {
    match o {
        Some(s) => Some(s@),
        None => None,
    }
}

fn text_of(s: &str) -> (r: String)
    ensures
        r@ == s@,
{
    string_of(&chars_of(s))
}

/// Decodes one part of a token to text.
fn decode_base64url(part: &Vec<char>) -> (r: Result<String, String>)
    ensures
        match r {
            Ok(s) => decode_part(part@) == Ok::<Seq<char>, Seq<char>>(s@),
            Err(e) => decode_part(part@) == Err::<Seq<char>, Seq<char>>(e@),
        },
{
    let cleaned = trim_chars(part);
    if cleaned.len() == 0 {
        return Err(text_of("Empty part"));
    }
    let cleaned_s = string_of(&cleaned);
    match decode_base64(cleaned_s.as_str(), true) {
        Ok(bytes) => match utf8_text(bytes) {
            Some(s) => Ok(s),
            None => Err(text_of("Decoded bytes are not valid UTF-8")),
        },
        Err(e) => {
            let mut msg = chars_of("Base64url decode error: ");
            let ev = chars_of(e.as_str());
            append_chars(&mut msg, &ev);
            Err(string_of(&msg))
        },
    }
}

/// The text shown for a decoded part, and its error line.
fn show_part(d: Result<String, String>) -> (r: (String, Option<String>))
    ensures
        (r.0@, opt_text(r.1)) == shown_part(
            match d {
                Ok(s) => Ok::<Seq<char>, Seq<char>>(s@),
                Err(e) => Err::<Seq<char>, Seq<char>>(e@),
            },
        ),
{
    match d {
        Ok(s) => match read_json(s.as_str()) {
            Some(f) => (f.pretty, None),
            None => (s, Some(text_of("Decoded but not valid JSON"))),
        },
        Err(e) => (String::new(), Some(e)),
    }
}

/// The text of a field as it is encoded.
fn source_of(field: &String) -> (r: String)
    ensures
        r@ == field_source(field@),
        json_valid(trim(field@)) ==> r@.len() > 0,
{
    let t = string_of(&trim_chars(&chars_of(field.as_str())));
    match read_json(t.as_str()) {
        Some(f) => f.compact,
        None => t,
    }
}

/// `a.b`, or `a.b.c` when `c` is not empty.
fn dotted(a: &String, b: &String, c: &String) -> (r: String)
    ensures
        c@.len() == 0 ==> r@ == a@ + "."@ + b@,
        c@.len() > 0 ==> r@ == a@ + "."@ + b@ + "."@ + c@,
{
    let mut v = chars_of(a.as_str());
    let dot = chars_of(".");
    append_chars(&mut v, &dot);
    append_chars(&mut v, &chars_of(b.as_str()));
    if !c.as_str().is_empty() {
        append_chars(&mut v, &dot);
        append_chars(&mut v, &chars_of(c.as_str()));
    }
    proof {
        reveal_strlit(".");
    }
    string_of(&v)
}

impl JwtDecoderWindow {
    /// A closed window with every field empty.
    pub fn default() -> (r: Self)
        ensures
            !r.show,
            r.token@ == Seq::<char>::empty(),
            r.header@ == Seq::<char>::empty(),
            r.payload@ == Seq::<char>::empty(),
            r.signature@ == Seq::<char>::empty(),
            r.secret@ == Seq::<char>::empty(),
            r.header_err is None,
            r.payload_err is None,
            !r.updating_from_token,
            !r.updating_from_fields,
    {
        JwtDecoderWindow {
            show: false,
            token: String::new(),
            header: String::new(),
            payload: String::new(),
            signature: String::new(),
            secret: String::new(),
            header_err: None,
            payload_err: None,
            updating_from_token: false,
            updating_from_fields: false,
        }
    }

    /// Decodes the token into header, payload and signature.
    pub fn decode_parts(&mut self)
        ensures
            final(self).show == old(self).show,
            final(self).token@ == old(self).token@,
            final(self).secret@ == old(self).secret@,
            final(self).updating_from_fields == old(self).updating_from_fields,
            old(self).updating_from_fields ==> {
                &&& final(self).header@ == old(self).header@
                &&& final(self).payload@ == old(self).payload@
                &&& final(self).signature@ == old(self).signature@
                &&& opt_text(final(self).header_err) == opt_text(old(self).header_err)
                &&& opt_text(final(self).payload_err) == opt_text(old(self).payload_err)
                &&& final(self).updating_from_token == old(self).updating_from_token
            },
            !old(self).updating_from_fields && trim(old(self).token@).len() == 0 ==> {
                &&& final(self).header@.len() == 0
                &&& final(self).payload@.len() == 0
                &&& final(self).signature@.len() == 0
                &&& opt_text(final(self).header_err) == opt_text(old(self).header_err)
                &&& opt_text(final(self).payload_err) == opt_text(old(self).payload_err)
                &&& final(self).updating_from_token == old(self).updating_from_token
            },
            ({
                let t = trim(old(self).token@);
                let parts = split(t, '.');
                !old(self).updating_from_fields && t.len() > 0 && parts.len() < 2 ==> {
                    &&& final(self).header@ == old(self).header@
                    &&& final(self).payload@ == old(self).payload@
                    &&& final(self).signature@ == old(self).signature@
                    &&& opt_text(final(self).header_err) == Some(too_few_parts_msg())
                    &&& opt_text(final(self).payload_err) == Some(too_few_parts_msg())
                    &&& final(self).updating_from_token == old(self).updating_from_token
                }
            }),
            ({
                let t = trim(old(self).token@);
                let parts = split(t, '.');
                !old(self).updating_from_fields && t.len() > 0 && parts.len() >= 2 ==> {
                    &&& (final(self).header@, opt_text(final(self).header_err)) == shown_part(
                        decode_part(parts[0]),
                    )
                    &&& (final(self).payload@, opt_text(final(self).payload_err)) == shown_part(
                        decode_part(parts[1]),
                    )
                    &&& final(self).signature@ == (if parts.len() >= 3 {
                        parts[2]
                    } else {
                        Seq::<char>::empty()
                    })
                    &&& !final(self).updating_from_token
                }
            }),
    {
        if self.updating_from_fields {
            return;
        }
        let t = trim_chars(&chars_of(self.token.as_str()));
        if t.len() == 0 {
            self.header = String::new();
            self.payload = String::new();
            self.signature = String::new();
            return;
        }
        let parts = split_chars(&t, '.');
        if parts.len() < 2 {
            self.header_err = Some(text_of("Invalid token: expected at least 2 parts"));
            self.payload_err = Some(text_of("Invalid token: expected at least 2 parts"));
            return;
        }
        self.updating_from_token = true;
        proof {
            assert(parts@[0]@ == views(parts@)[0]);
            assert(parts@[1]@ == views(parts@)[1]);
        }
        let (h, he) = show_part(decode_base64url(&parts[0]));
        self.header = h;
        self.header_err = he;
        let (p, pe) = show_part(decode_base64url(&parts[1]));
        self.payload = p;
        self.payload_err = pe;
        if parts.len() >= 3 {
            proof {
                assert(parts@[2]@ == views(parts@)[2]);
            }
            self.signature = string_of(&parts[2]);
        } else {
            self.signature = String::new();
        }
        self.updating_from_token = false;
    }

    /// Re-encodes header and payload into the token, signing it with the
    /// secret when one is set.
    pub fn encode_parts(&mut self)
        ensures
            final(self).show == old(self).show,
            final(self).header@ == old(self).header@,
            final(self).payload@ == old(self).payload@,
            final(self).secret@ == old(self).secret@,
            opt_text(final(self).header_err) == opt_text(old(self).header_err),
            opt_text(final(self).payload_err) == opt_text(old(self).payload_err),
            final(self).updating_from_token == old(self).updating_from_token,
            old(self).updating_from_token ==> {
                &&& final(self).token@ == old(self).token@
                &&& final(self).signature@ == old(self).signature@
                &&& final(self).updating_from_fields == old(self).updating_from_fields
            },
            !old(self).updating_from_token ==> {
                &&& final(self).signature@ == signature_for(
                    old(self).header@,
                    old(self).payload@,
                    old(self).secret@,
                )
                &&& final(self).token@ == token_for(
                    old(self).header@,
                    old(self).payload@,
                    old(self).secret@,
                )
                &&& !final(self).updating_from_fields
                &&& (final(self).signature@.len() == 0) == (old(self).secret@.len() == 0)
                &&& token_reads_back(old(self).header@, old(self).payload@, old(self).secret@)
                &&& json_round_trips(trim(old(self).header@)) && json_round_trips(trim(old(self).payload@))
                    ==> written_token_decodes(old(self).header@, old(self).payload@, old(self).secret@)
            },
    {
        if self.updating_from_token {
            return;
        }
        self.updating_from_fields = true;
        let h_str = source_of(&self.header);
        let p_str = source_of(&self.payload);
        let header_enc = encode_base64(h_str.as_str().as_bytes(), true);
        let payload_enc = encode_base64(p_str.as_str().as_bytes(), true);
        let signature = if !self.secret.as_str().is_empty() {
            let signing_input = dotted(&header_enc, &payload_enc, &String::new());
            let tag = hmac_sha256_tag(self.secret.as_str().as_bytes(), signing_input.as_str().as_bytes());
            let sig = encode_base64(tag.as_slice(), true);
            assert(sig@.len() == 43);
            sig
        } else {
            String::new()
        };
        self.token = dotted(&header_enc, &payload_enc, &signature);
        proof {
            reveal_strlit(".");
            let h = old(self).header@;
            let p = old(self).payload@;
            let t = self.token@;
            assert(all_url_safe(header_enc@));
            assert(all_url_safe(payload_enc@));
            assert(all_url_safe(signature@));
            assert forall|i: int| 0 <= i < t.len() implies !is_ws(#[trigger] t[i]) by {
                let a = header_enc@.len();
                let b = payload_enc@.len();
                if i < a {
                    assert(t[i] == header_enc@[i]);
                    assert(url_safe_char(header_enc@[i]));
                } else if i == a {
                } else if i < a + 1 + b {
                    assert(t[i] == payload_enc@[i - a - 1]);
                    assert(url_safe_char(payload_enc@[i - a - 1]));
                } else if i == a + 1 + b {
                } else {
                    assert(t[i] == signature@[i - a - 2 - b]);
                    assert(url_safe_char(signature@[i - a - 2 - b]));
                }
            }
            lemma_trim_plain(t);
            assert forall|i: int| 0 <= i < header_enc@.len() implies #[trigger] header_enc@[i] != '.' by {
                assert(url_safe_char(header_enc@[i]));
            }
            assert forall|i: int| 0 <= i < payload_enc@.len() implies #[trigger] payload_enc@[i] != '.' by {
                assert(url_safe_char(payload_enc@[i]));
            }
            assert forall|i: int| 0 <= i < signature@.len() implies #[trigger] signature@[i] != '.' by {
                assert(url_safe_char(signature@[i]));
            }
            if signature@.len() == 0 {
                assert(t == header_enc@ + seq!['.'] + payload_enc@);
                lemma_split_pair(header_enc@, payload_enc@, '.');
            } else {
                assert(t == header_enc@ + seq!['.'] + payload_enc@ + seq!['.'] + signature@);
                lemma_split_triple(header_enc@, payload_enc@, signature@, '.');
            }
            if field_source(h).len() > 0 {
                lemma_encoded_reads_back(header_enc@, field_source(h));
            }
            if field_source(p).len() > 0 {
                lemma_encoded_reads_back(payload_enc@, field_source(p));
            }
            assert(signature@.len() == 0 <==> old(self).secret@.len() == 0);
            assert(token_reads_back(h, p, old(self).secret@));
            assert(t.len() > 0);
        }
        self.signature = signature;
        self.updating_from_fields = false;
    }
}

} // verus!

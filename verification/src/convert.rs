//! The two converter windows: plain text against standard base64, and
//! YAML against JSON. Editing either pane rewrites the other.
use crate::codec::{
    b64_decoded, b64_encoded, decode_base64, encode_base64, json_as_yaml, json_pretty, json_valid,
    read_json, read_yaml, utf8_of, utf8_text, yaml_as_json,
};
use crate::text::{chars_of, string_of};
use vstd::prelude::*;
use vstd::utf8::{decode_utf8, valid_utf8};

verus! {

/// The plain-text pane shown for base64 text: the decoded text, or a note
/// when the text is not base64 or does not decode to UTF-8.
pub open spec fn plain_for(encoded: Seq<char>) -> Seq<char> {
    match b64_decoded(encoded) {
        Some(bytes) => if valid_utf8(bytes) {
            decode_utf8(bytes)
        } else {
            "Wrong input..."@
        },
        None => "Invalid input..."@,
    }
}

/// The base64 pane shown for plain text.
pub open spec fn encoded_for(plain: Seq<char>) -> Seq<char> {
    b64_encoded(utf8_of(plain))
}

/// The base64 encoder/decoder window.
pub struct DecoderWindow {
    pub plain_text_content: String,
    pub encrypted_content: String,
    pub show: bool,
}

impl DecoderWindow {
    /// A closed window with both panes empty.
    pub fn new() -> (r: Self)
        ensures
            r.plain_text_content@.len() == 0,
            r.encrypted_content@.len() == 0,
            !r.show,
    {
        DecoderWindow { plain_text_content: String::new(), encrypted_content: String::new(), show: false }
    }

    /// The plain text was edited: the base64 pane shows its encoding.
    /// Decoding that encoding again gives the plain text back.
    pub fn plain_text_changed(&mut self)
        ensures
            final(self).plain_text_content@ == old(self).plain_text_content@,
            final(self).show == old(self).show,
            final(self).encrypted_content@ == encoded_for(old(self).plain_text_content@),
            plain_for(final(self).encrypted_content@) == final(self).plain_text_content@,
    {
        broadcast use vstd::utf8::encode_utf8_decode_utf8, vstd::utf8::encode_utf8_valid_utf8;

        self.encrypted_content = encode_base64(self.plain_text_content.as_str().as_bytes(), false);
    }

    /// The base64 text was edited: the plain pane shows what it decodes to.
    pub fn encoded_text_changed(&mut self)
        ensures
            final(self).encrypted_content@ == old(self).encrypted_content@,
            final(self).show == old(self).show,
            final(self).plain_text_content@ == plain_for(old(self).encrypted_content@),
    {
        match decode_base64(self.encrypted_content.as_str(), false) {
            Ok(bytes) => match utf8_text(bytes) {
                Some(s) => {
                    self.plain_text_content = s;
                },
                None => {
                    self.plain_text_content = string_of(&chars_of("Wrong input..."));
                },
            },
            Err(_) => {
                self.plain_text_content = string_of(&chars_of("Invalid input..."));
            },
        }
    }
}

/// The JSON pane shown after the YAML pane changes to `yaml`, given what it
/// showed before: pretty JSON when the YAML converts, else unchanged.
pub open spec fn json_after_yaml_edit(yaml: Seq<char>, json_before: Seq<char>) -> Seq<char> {
    match yaml_as_json(yaml) {
        Some(j) => if json_valid(j) {
            json_pretty(j)
        } else {
            json_before
        },
        None => json_before,
    }
}

/// The YAML pane shown after the JSON pane changes to `json`, given what it
/// showed before: the YAML form when the JSON parses, else unchanged.
pub open spec fn yaml_after_json_edit(json: Seq<char>, yaml_before: Seq<char>) -> Seq<char> {
    if json_valid(json) {
        json_as_yaml(json)
    } else {
        yaml_before
    }
}

/// The YAML/JSON converter window.
pub struct Yaml2JsonWindow {
    pub yaml_content: String,
    pub json_content: String,
    pub show: bool,
}

impl Yaml2JsonWindow {
    /// A closed window with both panes empty.
    pub fn new() -> (r: Self)
        ensures
            r.yaml_content@.len() == 0,
            r.json_content@.len() == 0,
            !r.show,
    {
        Yaml2JsonWindow { yaml_content: String::new(), json_content: String::new(), show: false }
    }

    /// The YAML pane was edited: the JSON pane shows it as pretty JSON, when
    /// it converts.
    pub fn yaml_changed(&mut self)
        ensures
            final(self).yaml_content@ == old(self).yaml_content@,
            final(self).show == old(self).show,
            final(self).json_content@ == json_after_yaml_edit(
                old(self).yaml_content@,
                old(self).json_content@,
            ),
    {
        match read_yaml(self.yaml_content.as_str()) {
            Ok(Some(j)) => match read_json(j.as_str()) {
                Some(f) => {
                    self.json_content = f.pretty;
                },
                None => {},
            },
            _ => {},
        }
    }

    /// The JSON pane was edited: the YAML pane shows it as YAML, when it
    /// parses.
    pub fn json_changed(&mut self)
        ensures
            final(self).json_content@ == old(self).json_content@,
            final(self).show == old(self).show,
            final(self).yaml_content@ == yaml_after_json_edit(
                old(self).json_content@,
                old(self).yaml_content@,
            ),
    {
        match read_json(self.json_content.as_str()) {
            Some(f) => {
                self.yaml_content = f.yaml;
            },
            None => {},
        }
    }
}

} // verus!

//! The YAML editor: what pressing "Apply" does with the edited text, the
//! messages it reports, and when the report banner goes away.
use crate::codec::{read_yaml, yaml_read};
use crate::logs::new_mutex;
use crate::text::{append_str, chars_of, string_of};
use std::sync::{Arc, Mutex};
use std::time::Instant;
use vstd::prelude::*;

verus! {

/// The resource editor window. The status message and the apply flag are
/// shared with the task that applies the text.
pub struct YamlEditorWindow {
    pub content: String,
    pub show: bool,
    pub apply_button_enabled: bool,
    pub search_query: String,
    pub status_message: Arc<Mutex<Option<(String, Instant)>>>,
    pub apply_flag: Arc<Mutex<bool>>,
}

impl YamlEditorWindow {
    /// A closed, empty editor whose "Apply" button is enabled.
    pub fn new() -> (r: Self)
        ensures
            r.content@.len() == 0,
            !r.show,
            r.apply_button_enabled,
            r.search_query@.len() == 0,
    {
        YamlEditorWindow {
            content: String::new(),
            show: false,
            apply_button_enabled: true,
            search_query: String::new(),
            status_message: Arc::new(new_mutex(None)),
            apply_flag: Arc::new(new_mutex(true)),
        }
    }
}

/// What "Apply" does with the edited text.
pub enum ApplyStep {
    /// The text is YAML: send it to the cluster.
    Patch(String),
    /// The text is not YAML: report this message.
    Report(String),
}

/// The step for a text: send it when it reads as YAML, else report the
/// reading error.
pub open spec fn apply_step_for(content: Seq<char>, step: ApplyStep) -> bool {
    match yaml_read(content) {
        Ok(_) => step matches ApplyStep::Patch(t) && t@ == content,
        Err(e) => step matches ApplyStep::Report(m) && m@ == "❌ YAML Error: "@ + e,
    }
}

/// What "Apply" does with the edited text.
pub fn apply_step(content: &str) -> (r: ApplyStep)
    ensures
        apply_step_for(content@, r),
{
    match read_yaml(content) {
        Ok(_) => ApplyStep::Patch(string_of(&chars_of(content))),
        Err(e) => {
            let mut v = chars_of("❌ YAML Error: ");
            append_str(&mut v, e.as_str());
            ApplyStep::Report(string_of(&v))
        },
    }
}

/// The message reporting how applying went.
pub fn patch_message(result: &Result<(), String>) -> (r: String)
    ensures
        result is Ok ==> r@ == "✅ Applied successfully"@,
        result is Err ==> r@ == "❌ Error applying YAML: "@ + result->Err_0@,
{
    match result {
        Ok(()) => string_of(&chars_of("✅ Applied successfully")),
        Err(e) => {
            let mut v = chars_of("❌ Error applying YAML: ");
            append_str(&mut v, e.as_str());
            string_of(&v)
        },
    }
}

/// A report is shown as a success when it starts with the check mark.
pub fn is_success_message(msg: &str) -> (r: bool)
    ensures
        r == (msg@.len() > 0 && msg@[0] == '✅'),
{
    let v = chars_of(msg);
    v.len() > 0 && v[0] == '✅'
}

/// The report banner goes away once more than eight seconds have passed.
pub fn banner_expired(elapsed_secs: u64, elapsed_nanos: u32) -> (r: bool)
    requires
        elapsed_nanos < 1_000_000_000,
    ensures
        r == (elapsed_secs * 1_000_000_000 + elapsed_nanos > 8_000_000_000),
{
    elapsed_secs > 8 || (elapsed_secs == 8 && elapsed_nanos > 0)
}

/// The report banner fades once more than three seconds have passed.
pub fn banner_fading(elapsed_secs: u64, elapsed_nanos: u32) -> (r: bool)
    requires
        elapsed_nanos < 1_000_000_000,
    ensures
        r == (elapsed_secs * 1_000_000_000 + elapsed_nanos > 3_000_000_000),
{
    elapsed_secs > 3 || (elapsed_secs == 3 && elapsed_nanos > 0)
}

} // verus!

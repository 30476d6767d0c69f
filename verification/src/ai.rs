//! The AI consultant: providers, and the guard that decides what a tool
//! call requested by a model may do.
use crate::text::{append_chars, append_str, chars_eq_str, chars_of, string_of};
use vstd::prelude::*;

verus! {

/// The model service the consultant talks to.
#[derive(PartialEq, Eq, Structural, Clone, Copy, Debug)]
pub enum AiProvider {
    Gemini,
    AmazonBedrock,
}

/// The name a provider is shown under.
pub open spec fn provider_label(p: AiProvider) -> Seq<char> {
    match p {
        AiProvider::Gemini => "Gemini"@,
        AiProvider::AmazonBedrock => "Amazon Bedrock"@,
    }
}

impl AiProvider {
    /// The name the provider is shown under.
    pub fn label(&self) -> (r: String)
        ensures
            r@ == provider_label(*self),
    {
        match self {
            AiProvider::Gemini => string_of(&chars_of("Gemini")),
            AiProvider::AmazonBedrock => string_of(&chars_of("Amazon Bedrock")),
        }
    }
}

/// The providers the settings page offers, in order.
pub fn all_ai_providers() -> (r: [AiProvider; 2])
    ensures
        r@ == seq![AiProvider::Gemini, AiProvider::AmazonBedrock],
{
    [AiProvider::Gemini, AiProvider::AmazonBedrock]
}

/// The `kubectl` sub-commands a model may run: read-only ones.
pub open spec fn allowed_command(c: Seq<char>) -> bool {
    ||| c == "get"@
    ||| c == "describe"@
    ||| c == "logs"@
    ||| c == "top"@
    ||| c == "version"@
    ||| c == "api-resources"@
    ||| c == "cluster-info"@
}

/// An argument that would make `kubectl` read a file.
pub open spec fn is_file_flag(a: Seq<char>) -> bool {
    a == "-f"@ || a == "--filename"@
}

/// Some argument would make `kubectl` read a file.
pub open spec fn has_file_flag(args: Seq<String>) -> bool {
    exists|i: int| 0 <= i < args.len() && is_file_flag(#[trigger] args[i]@)
}

/// What a tool call is allowed to do.
pub enum ToolAction {
    /// Answer with the definitions of the available tools.
    ListTools,
    /// Run `kubectl` with these arguments.
    RunKubectl(Vec<String>),
    /// Ping this host.
    Ping(String),
    /// Forward the call to the external tool server, under this tool name.
    External(String),
}

/// Why a tool call was refused.
pub enum ToolError {
    /// The call carried no `args` array.
    NoArgs,
    /// The `args` array was empty.
    EmptyArgs,
    /// The first argument is not a read-only `kubectl` command.
    CommandNotAllowed(String),
    /// An argument asked `kubectl` to read a file.
    FileFlag,
    /// A ping carried no `host` string.
    NoHost,
}

/// Text of the list of allowed commands, as it appears in messages.
pub open spec fn allowed_list_text() -> Seq<char> {
    "[\"get\", \"describe\", \"logs\", \"top\", \"version\", \"api-resources\", \"cluster-info\"]"@
}

/// The message that reports a refusal.
pub open spec fn tool_error_text(e: ToolError) -> Seq<char> {
    match e {
        ToolError::NoArgs => "No args or it not an array"@,
        ToolError::EmptyArgs => "'args' can't be empty."@,
        ToolError::CommandNotAllowed(c) => "Command 'kubectl "@ + c@
            + "...' not allowed. Only read-only commands allowed: "@ + allowed_list_text(),
        ToolError::FileFlag => "Flags '-f' or '--filename' not allowed."@,
        ToolError::NoHost => "Required parameter 'host' not found or it is not string"@,
    }
}

impl ToolError {
    /// The message that reports the refusal.
    pub fn message(&self) -> (r: String)
        ensures
            r@ == tool_error_text(*self),
    {
        let mut v: Vec<char> = Vec::new();
        match self {
            ToolError::NoArgs => append_str(&mut v, "No args or it not an array"),
            ToolError::EmptyArgs => append_str(&mut v, "'args' can't be empty."),
            ToolError::CommandNotAllowed(c) => {
                append_str(&mut v, "Command 'kubectl ");
                append_str(&mut v, c.as_str());
                append_str(&mut v, "...' not allowed. Only read-only commands allowed: ");
                append_str(
                    &mut v,
                    "[\"get\", \"describe\", \"logs\", \"top\", \"version\", \"api-resources\", \"cluster-info\"]",
                );
            },
            ToolError::FileFlag => append_str(&mut v, "Flags '-f' or '--filename' not allowed."),
            ToolError::NoHost => append_str(
                &mut v,
                "Required parameter 'host' not found or it is not string",
            ),
        }
        string_of(&v)
    }
}

/// Whether `c` is one of the read-only `kubectl` commands.
pub fn is_allowed_command(c: &str) -> (r: bool)
    ensures
        r == allowed_command(c@),
{
    let v = chars_of(c);
    chars_eq_str(&v, "get") || chars_eq_str(&v, "describe") || chars_eq_str(&v, "logs")
        || chars_eq_str(&v, "top") || chars_eq_str(&v, "version") || chars_eq_str(
        &v,
        "api-resources",
    ) || chars_eq_str(&v, "cluster-info")
}

/// Whether some argument would make `kubectl` read a file.
pub fn find_file_flag(args: &Vec<String>) -> (r: bool)
    ensures
        r == has_file_flag(args@),
{
    let mut i: usize = 0;
    while i < args.len()
        invariant
            i <= args.len(),
            forall|j: int| 0 <= j < i ==> !is_file_flag(#[trigger] args@[j]@),
        decreases args.len() - i,
    {
        let a = chars_of(args[i].as_str());
        if chars_eq_str(&a, "-f") || chars_eq_str(&a, "--filename") {
            assert(is_file_flag(args@[i as int]@));
            return true;
        }
        i = i + 1;
    }
    false
}

/// Decides what a tool call named `name` may do.
///
/// `args` holds the string elements of the call's `args` array (`None` when
/// there is no such array); `host` is the call's `host` string, if any.
pub fn plan_tool_call(name: &str, args: Option<Vec<String>>, host: Option<String>) -> (r: Result<
    ToolAction,
    ToolError,
>)
    ensures
        name@ == "get_tool_definitions"@ ==> r matches Ok(ToolAction::ListTools),
        name@ != "get_tool_definitions"@ && name@ == "get_kubectl_info"@ ==> match args {
            None => r matches Err(ToolError::NoArgs),
            Some(a) => if a@.len() == 0 {
                r matches Err(ToolError::EmptyArgs)
            } else if !allowed_command(a@[0]@) {
                (r matches Err(ToolError::CommandNotAllowed(c)) && c@ == a@[0]@)
            } else if has_file_flag(a@) {
                r matches Err(ToolError::FileFlag)
            } else {
                (r matches Ok(ToolAction::RunKubectl(v)) && v@ == a@)
            },
        },
        name@ != "get_tool_definitions"@ && name@ != "get_kubectl_info"@ && name@
            == "ping_host"@ ==> match host {
            None => r matches Err(ToolError::NoHost),
            Some(h) => (r matches Ok(ToolAction::Ping(x)) && x@ == h@),
        },
        name@ != "get_tool_definitions"@ && name@ != "get_kubectl_info"@ && name@
            != "ping_host"@ ==> (r matches Ok(ToolAction::External(x)) && x@ == name@),
{
    let n = chars_of(name);
    if chars_eq_str(&n, "get_tool_definitions") {
        Ok(ToolAction::ListTools)
    } else if chars_eq_str(&n, "get_kubectl_info") {
        match args {
            None => Err(ToolError::NoArgs),
            Some(a) => {
                if a.len() == 0 {
                    Err(ToolError::EmptyArgs)
                } else if !is_allowed_command(a[0].as_str()) {
                    Err(ToolError::CommandNotAllowed(a[0].clone()))
                } else if find_file_flag(&a) {
                    Err(ToolError::FileFlag)
                } else {
                    Ok(ToolAction::RunKubectl(a))
                }
            },
        }
    } else if chars_eq_str(&n, "ping_host") {
        match host {
            None => Err(ToolError::NoHost),
            Some(h) => Ok(ToolAction::Ping(h)),
        }
    } else {
        Ok(ToolAction::External(string_of(&n)))
    }
}

/// `s` without its trailing `c` characters (`str::trim_end_matches`).
pub open spec fn trim_end_char(s: Seq<char>, c: char) -> Seq<char>
    decreases s.len(),
{
    if s.len() > 0 && s.last() == c {
        trim_end_char(s.drop_last(), c)
    } else {
        s
    }
}

/// `v` without its trailing `c` characters.
pub fn trim_end_char_exec(v: &Vec<char>, c: char) -> (r: Vec<char>)
    ensures
        r@ == trim_end_char(v@, c),
{
    let mut hi: usize = v.len();
    assert(v@.subrange(0, v.len() as int) == v@);
    while hi > 0 && v[hi - 1] == c
        invariant
            hi <= v.len(),
            trim_end_char(v@, c) == trim_end_char(v@.subrange(0, hi as int), c),
        decreases hi,
    {
        assert(v@.subrange(0, hi as int).drop_last() == v@.subrange(0, hi - 1));
        hi = hi - 1;
    }
    crate::text::slice_chars(v, 0, hi)
}

/// Address of the external server's list of tools.
pub fn tools_url(server: &str) -> (r: String)
    ensures
        r@ == trim_end_char(server@, '/') + "/api/v1/tools"@,
{
    let mut v = trim_end_char_exec(&chars_of(server), '/');
    append_str(&mut v, "/api/v1/tools");
    string_of(&v)
}

/// Address at which the external server runs the tool `name`.
pub fn tool_url(server: &str, name: &str) -> (r: String)
    ensures
        r@ == trim_end_char(server@, '/') + "/api/v1/tools/"@ + name@,
{
    let mut v = trim_end_char_exec(&chars_of(server), '/');
    append_str(&mut v, "/api/v1/tools/");
    append_str(&mut v, name);
    string_of(&v)
}

/// Address of a Gemini request: the API address with the key as query.
pub fn gemini_request_url(api_url: &str, api_key: &str) -> (r: String)
    ensures
        r@ == api_url@ + "?key="@ + api_key@,
{
    let mut v = chars_of(api_url);
    append_str(&mut v, "?key=");
    append_str(&mut v, api_key);
    string_of(&v)
}

/// The consultant window: the question being written, the last answer,
/// and whether an answer is awaited.
pub struct AiWindow {
    pub show: bool,
    pub input: String,
    pub response: String,
    pub loading: bool,
}

impl AiWindow {
    /// A closed window with no question and no answer.
    pub fn default() -> (r: Self)
        ensures
            !r.show,
            r.input@.len() == 0,
            r.response@.len() == 0,
            !r.loading,
    {
        AiWindow { show: false, input: String::new(), response: String::new(), loading: false }
    }

    /// "Send": while no answer is awaited, the question is handed out to
    /// be asked, the old answer is cleared and an answer is awaited; while
    /// one is awaited, the button does nothing.
    pub fn send(&mut self) -> (r: Option<String>)
        ensures
            final(self).show == old(self).show,
            final(self).input@ == old(self).input@,
            old(self).loading ==> r is None && final(self).loading && final(self).response@ == old(self).response@,
            !old(self).loading ==> (r matches Some(q) && q@ == old(self).input@) && final(self).loading
                && final(self).response@.len() == 0,
    {
        if self.loading {
            return None;
        }
        self.loading = true;
        self.response = String::new();
        Some(self.input.clone())
    }

    /// The answer (or the failure text) arrived: it is shown, and no
    /// answer is awaited any more.
    pub fn answered(&mut self, text: String)
        ensures
            final(self).response@ == text@,
            !final(self).loading,
            final(self).input@ == old(self).input@,
            final(self).show == old(self).show,
    {
        self.response = text;
        self.loading = false;
    }

    /// "Clear": question and answer are emptied.
    pub fn clear(&mut self)
        ensures
            final(self).input@.len() == 0,
            final(self).response@.len() == 0,
            final(self).loading == old(self).loading,
            final(self).show == old(self).show,
    {
        self.input = String::new();
        self.response = String::new();
    }
}

/// The answer shown when asking failed.
pub fn failure_answer(error: &str) -> (r: String)
    ensures
        r@ == "Error: "@ + error@,
{
    let mut v = chars_of("Error: ");
    append_str(&mut v, error);
    string_of(&v)
}

/// The prompt above the question, naming the provider asked.
pub fn ask_label(p: AiProvider) -> (r: String)
    ensures
        r@ == "Ask "@ + provider_label(p) + ":"@,
{
    let mut v = chars_of("Ask ");
    append_str(&mut v, p.label().as_str());
    append_str(&mut v, ":");
    string_of(&v)
}

} // verus!

//! The `kubectl proxy` switch: what the user interface shows and which
//! process action to take, in response to the user's toggle and to what
//! the process reports. Starting, polling and stopping the process is left
//! to the caller, which reports each outcome back.
use crate::text::{append_str, chars_of, string_of};
use vstd::prelude::*;

verus! {

/// What polling the proxy process found.
pub enum PollOutcome {
    /// It is still running.
    Running,
    /// It exited, with this status.
    Exited(String),
    /// Its status could not be read, for this reason.
    Failed(String),
}

/// What the caller is to do with the proxy process.
#[derive(PartialEq, Eq, Structural, Clone, Copy, Debug)]
pub enum ProxyAction {
    /// Nothing.
    Nothing,
    /// Start `kubectl proxy`.
    Spawn,
    /// Stop the running process.
    Kill,
}

/// The state of the proxy switch.
pub struct ProxyProcess {
    pub is_running: bool,
    pub has_process: bool,
    pub error_message: Option<String>,
}

/// The optional text of an optional string.
pub open spec fn opt_view(o: Option<String>) -> Option<Seq<char>> {
    match o {
        Some(s) => Some(s@),
        None => None,
    }
}

fn with_prefix(prefix: &str, detail: &String, suffix: &str) -> (r: String)
    ensures
        r@ == prefix@ + detail@ + suffix@,
{
    let mut v = chars_of(prefix);
    append_str(&mut v, detail.as_str());
    append_str(&mut v, suffix);
    string_of(&v)
}

fn prefixed(prefix: &str, detail: &String) -> (r: String)
    ensures
        r@ == prefix@ + detail@,
{
    let mut v = chars_of(prefix);
    append_str(&mut v, detail.as_str());
    string_of(&v)
}

impl ProxyProcess {
    /// Switched off, with no process and no error.
    pub fn default() -> (r: Self)
        ensures
            !r.is_running,
            !r.has_process,
            r.error_message is None,
    {
        ProxyProcess { is_running: false, has_process: false, error_message: None }
    }

    /// What polling the process found. A process that has ended, or whose
    /// status cannot be read, is dropped and the switch turns off, with a
    /// message saying why. Without a process, nothing changes.
    pub fn polled(&mut self, outcome: PollOutcome)
        ensures
            !old(self).has_process ==> {
                &&& final(self).is_running == old(self).is_running
                &&& final(self).has_process == old(self).has_process
                &&& opt_view(final(self).error_message) == opt_view(old(self).error_message)
            },
            old(self).has_process && outcome is Running ==> {
                &&& final(self).is_running == old(self).is_running
                &&& final(self).has_process
                &&& opt_view(final(self).error_message) == opt_view(old(self).error_message)
            },
            old(self).has_process && outcome is Exited ==> {
                &&& !final(self).is_running
                &&& !final(self).has_process
                &&& opt_view(final(self).error_message) == Some("Process unexpectially stopped: "@ + outcome->Exited_0@)
            },
            old(self).has_process && outcome is Failed ==> {
                &&& !final(self).is_running
                &&& !final(self).has_process
                &&& opt_view(final(self).error_message) == Some("Error getting process status: "@ + outcome->Failed_0@)
            },
    {
        if !self.has_process {
            return;
        }
        match &outcome {
            PollOutcome::Running => {},
            PollOutcome::Exited(s) => {
                self.has_process = false;
                self.is_running = false;
                self.error_message = Some(prefixed("Process unexpectially stopped: ", s));
            },
            PollOutcome::Failed(e) => {
                self.has_process = false;
                self.is_running = false;
                self.error_message = Some(prefixed("Error getting process status: ", e));
            },
        }
    }

    /// The user flipped the switch to `enable`: the error is cleared, and
    /// the process is to be started, or stopped when there is one.
    pub fn toggled(&mut self, enable: bool) -> (r: ProxyAction)
        ensures
            final(self).is_running == enable,
            final(self).error_message is None,
            enable ==> r == ProxyAction::Spawn && final(self).has_process == old(self).has_process,
            !enable && old(self).has_process ==> r == ProxyAction::Kill && !final(self).has_process,
            !enable && !old(self).has_process ==> r == ProxyAction::Nothing && !final(self).has_process,
    {
        self.is_running = enable;
        self.error_message = None;
        if enable {
            ProxyAction::Spawn
        } else if self.has_process {
            self.has_process = false;
            ProxyAction::Kill
        } else {
            ProxyAction::Nothing
        }
    }

    /// How starting the process went: it runs, or the switch turns off with
    /// a message that `kubectl` may be missing.
    pub fn spawned(&mut self, result: Result<(), String>)
        ensures
            result is Ok ==> {
                &&& final(self).has_process
                &&& final(self).is_running == old(self).is_running
                &&& opt_view(final(self).error_message) == opt_view(old(self).error_message)
            },
            result is Err ==> {
                &&& !final(self).has_process
                &&& !final(self).is_running
                &&& opt_view(final(self).error_message) == Some(
                    "Error running kubectl: "@ + result->Err_0@ + ". Make sure 'kubectl' is installed in your system."@,
                )
            },
    {
        match result {
            Ok(()) => {
                self.has_process = true;
            },
            Err(e) => {
                self.is_running = false;
                self.has_process = false;
                self.error_message = Some(
                    with_prefix(
                        "Error running kubectl: ",
                        &e,
                        ". Make sure 'kubectl' is installed in your system.",
                    ),
                );
            },
        }
    }

    /// How stopping the process went: a failure is reported.
    pub fn killed(&mut self, result: Result<(), String>)
        ensures
            final(self).has_process == old(self).has_process,
            final(self).is_running == old(self).is_running,
            result is Ok ==> opt_view(final(self).error_message) == opt_view(old(self).error_message),
            result is Err ==> opt_view(final(self).error_message) == Some("Error stopping process: "@ + result->Err_0@),
    {
        match &result {
            Ok(()) => {},
            Err(e) => {
                self.error_message = Some(prefixed("Error stopping process: ", e));
            },
        }
    }

    /// The status line.
    pub fn status_text(&self) -> (r: String)
        ensures
            r@ == (if self.is_running {
                "▶ Status: running"@
            } else {
                "■ Status: stopped"@
            }),
    {
        if self.is_running {
            string_of(&chars_of("▶ Status: running"))
        } else {
            string_of(&chars_of("■ Status: stopped"))
        }
    }
}

} // verus!

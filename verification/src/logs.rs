//! The log window: its state, which container's log it follows, and the
//! bounded text buffer the followed log is kept in.
use crate::text::{append_chars, append_str, chars_of, join, lines, lines_of, split, string_of, views};
use std::sync::{Arc, Mutex};
use std::time::Instant;
use vstd::prelude::*;

verus! {

/// How many lines of a log are kept.
pub const MAX_LOG_LINES: usize = 600;

#[verifier::external_type_specification]
#[verifier::external_body]
#[verifier::reject_recursive_types(T)]
pub struct ExMutex<T: ?Sized>(std::sync::Mutex<T>);

#[verifier::external_type_specification]
#[verifier::external_body]
pub struct ExInstant(std::time::Instant);

/// A container of a pod and its state.
#[derive(Clone)]
pub struct ContainerStatusItem {
    pub name: String,
    /// For instance `Running`, `Terminated` or `Waiting`.
    pub state: Option<String>,
    pub message: Option<String>,
}

/// The last `max` elements of `s` (all of them when there are fewer).
pub open spec fn keep_last<A>(s: Seq<A>, max: int) -> Seq<A> {
    if s.len() > max {
        s.skip(s.len() - max)
    } else {
        s
    }
}

/// The buffer after a new log line arrived: the buffer's lines and the new
/// one, of which only the last `max` stay, each followed by `\n`.
pub open spec fn buffer_after_line(buf: Seq<char>, line: Seq<char>, max: int) -> Seq<char> {
    join(keep_last(lines(buf).push(line), max), "\n"@) + "\n"@
}

/// The pieces `parts` joined with `sep` between consecutive pieces.
pub fn join_chars(parts: &Vec<Vec<char>>, sep: &str) -> (r: Vec<char>)
    ensures
        r@ == join(views(parts@), sep@),
{
    let mut v: Vec<char> = Vec::new();
    let mut i: usize = 0;
    assert(views(parts@).take(0) =~= Seq::<Seq<char>>::empty());
    while i < parts.len()
        invariant
            i <= parts.len(),
            v@ == join(views(parts@).take(i as int), sep@),
        decreases parts.len() - i,
    {
        let ghost pre = views(parts@).take(i as int);
        let ghost next = views(parts@).take(i + 1);
        assert(next.drop_last() =~= pre);
        assert(next.last() == parts@[i as int]@);
        if i > 0 {
            append_str(&mut v, sep);
        } else {
            assert(v@ == Seq::<char>::empty());
        }
        append_chars(&mut v, &parts[i]);
        i = i + 1;
    }
    assert(views(parts@).take(parts.len() as int) =~= views(parts@));
    v
}

proof fn lemma_join_last_piece(keep: Seq<Seq<char>>)
    requires
        keep.len() >= 1,
        forall|i: int| 0 <= i < keep.last().len() ==> keep.last()[i] != '\n',
    ensures
        split(join(keep, "\n"@), '\n').len() >= 1,
        split(join(keep, "\n"@), '\n').last() == keep.last(),
{
    reveal_strlit("\n");
    crate::text::lemma_split_last(keep.last(), '\n');
    if keep.len() == 1 {
        assert(join(keep, "\n"@) == keep[0]);
    } else {
        let j = join(keep.drop_last(), "\n"@);
        assert(join(keep, "\n"@) == j + seq!['\n'] + keep.last());
        crate::text::lemma_split_concat(j, keep.last(), '\n');
        crate::text::lemma_split_len(j, '\n');
    }
}

/// Law: once a line without a line break (and not ending in a carriage
/// return) arrived, the buffer's last line is exactly that line.
pub proof fn lemma_arrived_line_is_last(buf: Seq<char>, line: Seq<char>, max: int)
    requires
        max > 0,
        forall|i: int| 0 <= i < line.len() ==> line[i] != '\n',
        !(line.len() > 0 && line.last() == '\r'),
    ensures
        lines(buffer_after_line(buf, line, max)).len() > 0,
        lines(buffer_after_line(buf, line, max)).last() == line,
{
    reveal_strlit("\n");
    let all = lines(buf).push(line);
    let keep = keep_last(all, max);
    assert(keep.len() >= 1 && keep.last() == line) by {
        if all.len() > max {
            assert(keep == all.skip(all.len() - max));
            assert(keep.last() == all.last());
        }
    }
    lemma_join_last_piece(keep);
    let a = join(keep, "\n"@);
    let r = a + "\n"@;
    assert(r == a + seq!['\n'] + Seq::<char>::empty());
    crate::text::lemma_split_concat(a, Seq::<char>::empty(), '\n');
    crate::text::lemma_split_last(Seq::<char>::empty(), '\n');
    let p = split(r, '\n');
    assert(p == split(a, '\n') + seq![Seq::<char>::empty()]);
    assert(p.last().len() == 0);
    assert(lines(r).len() == p.len() - 1);
    assert(lines(r).last() == crate::text::strip_cr(p[p.len() - 2]));
    assert(p[p.len() - 2] == split(a, '\n').last());
}

/// The buffer after the log line `line` arrived (see `buffer_after_line`).
/// When `line` holds no line break (nor ends in a carriage return), the
/// buffer's last line is that line.
pub fn append_log_line(buf: &str, line: &str, max: usize) -> (r: String)
    ensures
        r@ == buffer_after_line(buf@, line@, max as int),
        max > 0 && (forall|i: int| 0 <= i < line@.len() ==> line@[i] != '\n') && !(line@.len() > 0
            && line@.last() == '\r') ==> lines(r@).len() > 0 && lines(r@).last() == line@,
{
    proof {
        if max > 0 && (forall|i: int| 0 <= i < line@.len() ==> line@[i] != '\n') && !(line@.len() > 0
            && line@.last() == '\r') {
            lemma_arrived_line_is_last(buf@, line@, max as int);
        }
    }
    let text = chars_of(buf);
    let mut ls = lines_of(&text);
    let ghost all = views(ls@).push(line@);
    ls.push(chars_of(line));
    assert(views(ls@) =~= all);
    let kept: Vec<Vec<char>> = if ls.len() > max {
        let from = ls.len() - max;
        let mut k: Vec<Vec<char>> = Vec::new();
        let mut i: usize = from;
        while i < ls.len()
            invariant
                from <= i <= ls.len(),
                views(k@) =~= views(ls@).subrange(from as int, i as int),
            decreases ls.len() - i,
        {
            let piece = crate::text::slice_chars(&ls[i], 0, ls[i].len());
            assert(ls[i as int]@.subrange(0, ls[i as int]@.len() as int) == ls[i as int]@);
            let ghost before = k@;
            k.push(piece);
            assert(views(k@) =~= views(before).push(ls@[i as int]@));
            assert(views(ls@)[i as int] == ls@[i as int]@);
            i = i + 1;
        }
        assert(views(ls@).subrange(from as int, ls.len() as int) =~= keep_last(all, max as int));
        k
    } else {
        ls
    };
    assert(views(kept@) == keep_last(all, max as int));
    let mut v = join_chars(&kept, "\n");
    append_str(&mut v, "\n");
    string_of(&v)
}

/// The buffer right after the first part of a log was read.
pub fn initial_log_buffer(initial: &str) -> (r: String)
    ensures
        r@ == initial@ + "\n"@,
{
    let mut v = chars_of(initial);
    append_str(&mut v, "\n");
    string_of(&v)
}

/// A new lock holding `value` (`std::sync::Mutex::new`).
///
/// Trusted: nothing is claimed of the lock, whose content other tasks may
/// change at any time.
#[verifier::external_body]
pub(crate) fn new_mutex<T>(value: T) -> Mutex<T> {
    Mutex::new(value)
}

/// A new, empty shared log buffer.
fn new_shared_buffer() -> Arc<Mutex<String>> {
    Arc::new(new_mutex(String::new()))
}

/// The log window.
pub struct LogWindow {
    pub pod_name: String,
    pub containers: Vec<ContainerStatusItem>,
    pub show: bool,
    pub namespace: String,
    pub selected_container: String,
    pub buffer: Arc<Mutex<String>>,
    pub last_container: Option<String>,
    pub export_message: Option<(String, Instant)>,
    pub show_previous_logs: bool,
}

/// The name of the first container, or the empty name when there is none.
pub open spec fn first_container_name(cs: Seq<ContainerStatusItem>) -> Seq<char> {
    if cs.len() > 0 {
        cs[0].name@
    } else {
        Seq::<char>::empty()
    }
}

impl LogWindow {
    /// A hidden window that follows no log.
    pub fn new() -> (r: Self)
        ensures
            r.pod_name@.len() == 0,
            r.containers@.len() == 0,
            r.selected_container@.len() == 0,
            r.namespace@.len() == 0,
            !r.show,
            r.last_container is None,
            r.export_message is None,
            !r.show_previous_logs,
    {
        LogWindow {
            pod_name: String::new(),
            containers: Vec::new(),
            selected_container: String::new(),
            namespace: String::new(),
            show: false,
            buffer: new_shared_buffer(),
            last_container: None,
            export_message: None,
            show_previous_logs: false,
        }
    }

    /// Opens the window on a pod, following its first container. Returns the
    /// name of the container whose log is to be fetched.
    pub fn open_for_pod(
        &mut self,
        pod_name: String,
        namespace: String,
        containers: Vec<ContainerStatusItem>,
    ) -> (selected: String)
        ensures
            final(self).pod_name@ == pod_name@,
            final(self).namespace@ == namespace@,
            final(self).containers@ == containers@,
            final(self).selected_container@ == first_container_name(containers@),
            selected@ == first_container_name(containers@),
            final(self).last_container is None,
            final(self).show,
            final(self).export_message == old(self).export_message,
            final(self).show_previous_logs == old(self).show_previous_logs,
    {
        let first = if containers.len() > 0 {
            containers[0].name.clone()
        } else {
            String::new()
        };
        self.pod_name = pod_name;
        self.namespace = namespace;
        self.containers = containers;
        self.selected_container = first.clone();
        self.last_container = None;
        self.buffer = new_shared_buffer();
        self.show = true;
        first
    }

    /// Whether the selected container differs from the one whose log is
    /// followed; if so, it becomes the followed one and its log is to be
    /// fetched.
    pub fn follow_selection(&mut self) -> (fetch: bool)
        ensures
            fetch == !(old(self).last_container matches Some(c) && c@
                == old(self).selected_container@),
            fetch ==> (final(self).last_container matches Some(c) && c@
                == old(self).selected_container@),
            !fetch ==> final(self).last_container == old(self).last_container,
            final(self).selected_container == old(self).selected_container,
            final(self).show == old(self).show,
    {
        let same = match &self.last_container {
            Some(c) => *c == self.selected_container,
            None => false,
        };
        if same {
            false
        } else {
            self.last_container = Some(self.selected_container.clone());
            true
        }
    }

    /// After the "previous container" switch changed: follow the selected
    /// container afresh, in a new buffer.
    pub fn restart_following(&mut self)
        ensures
            final(self).last_container matches Some(c) && c@ == old(self).selected_container@,
            final(self).selected_container == old(self).selected_container,
            final(self).show_previous_logs == old(self).show_previous_logs,
    {
        self.last_container = Some(self.selected_container.clone());
        self.buffer = new_shared_buffer();
    }

    /// How exporting the log went, reported at `at`: `Ok` carries the
    /// written path as `Debug` prints it, `Err` the error text.
    pub fn export_done(&mut self, result: Result<String, String>, at: Instant)
        ensures
            final(self).export_message matches Some((m, t)) && t == at && m@ == export_report(result),
            final(self).pod_name == old(self).pod_name,
            final(self).namespace == old(self).namespace,
            final(self).selected_container == old(self).selected_container,
            final(self).last_container == old(self).last_container,
            final(self).show == old(self).show,
            final(self).show_previous_logs == old(self).show_previous_logs,
    {
        let mut v = match &result {
            Ok(_) => chars_of("✅ Exported to "),
            Err(_) => chars_of("❌ Failed to export: "),
        };
        match &result {
            Ok(p) => append_str(&mut v, p.as_str()),
            Err(e) => append_str(&mut v, e.as_str()),
        }
        self.export_message = Some((string_of(&v), at));
    }

    /// The export report goes away once more than three seconds have passed
    /// since it was made (`elapsed_secs` seconds and `elapsed_nanos`
    /// nanoseconds ago).
    pub fn age_export_message(&mut self, elapsed_secs: u64, elapsed_nanos: u32)
        requires
            elapsed_nanos < 1_000_000_000,
        ensures
            elapsed_secs * 1_000_000_000 + elapsed_nanos > 3_000_000_000 ==> final(self).export_message is None,
            elapsed_secs * 1_000_000_000 + elapsed_nanos <= 3_000_000_000 ==> final(self).export_message
                == old(self).export_message,
            final(self).pod_name == old(self).pod_name,
            final(self).namespace == old(self).namespace,
            final(self).selected_container == old(self).selected_container,
            final(self).last_container == old(self).last_container,
            final(self).show == old(self).show,
            final(self).show_previous_logs == old(self).show_previous_logs,
    {
        if elapsed_secs > 3 || (elapsed_secs == 3 && elapsed_nanos > 0) {
            self.export_message = None;
        }
    }

    /// Name of the file a log is exported to: namespace, pod and container
    /// joined with `_`, then `.log`.
    pub fn export_file_name(&self) -> (r: String)
        ensures
            r@ == self.namespace@ + "_"@ + self.pod_name@ + "_"@ + self.selected_container@
                + ".log"@,
    {
        let mut v = chars_of(self.namespace.as_str());
        append_str(&mut v, "_");
        append_str(&mut v, self.pod_name.as_str());
        append_str(&mut v, "_");
        append_str(&mut v, self.selected_container.as_str());
        append_str(&mut v, ".log");
        string_of(&v)
    }
}

/// The report of an export: where the log went, or why it failed.
pub open spec fn export_report(result: Result<String, String>) -> Seq<char> {
    match result {
        Ok(path) => "✅ Exported to "@ + path@,
        Err(e) => "❌ Failed to export: "@ + e@,
    }
}

/// The notice the log view shows in place of a log without lines.
pub const NO_LOG_TEXT: &'static str = "log not found...";

/// The text the log view shows for the buffer `buf`: the buffer, or the
/// notice when it holds no line.
pub fn shown_log_text(buf: &str) -> (r: String)
    ensures
        r@ == (if lines(buf@).len() == 0 {
            NO_LOG_TEXT@
        } else {
            buf@
        }),
{
    let v = chars_of(buf);
    if lines_of(&v).len() == 0 {
        string_of(&chars_of(NO_LOG_TEXT))
    } else {
        string_of(&v)
    }
}

/// How many rows the log view shows for a log of `line_count` lines.
pub fn log_view_rows(line_count: usize) -> (r: usize)
    ensures
        r == if line_count < MAX_LOG_LINES {
            line_count
        } else {
            MAX_LOG_LINES
        },
{
    if line_count < MAX_LOG_LINES {
        line_count
    } else {
        MAX_LOG_LINES
    }
}

/// Law: the buffer never holds more than `max` lines once a line arrived,
/// and its last line is the one that arrived.
pub proof fn lemma_buffer_keeps_last(buf: Seq<char>, line: Seq<char>, max: int)
    requires
        max > 0,
    ensures
        keep_last(lines(buf).push(line), max).len() <= max,
        keep_last(lines(buf).push(line), max).last() == line,
{
}

} // verus!

//! What the detail windows show, as a list of lines: fields, section
//! headings, key/value pairs, table rows and events. Each window's content
//! is computed here from the resource's data; drawing the lines is left to
//! the user interface.
use crate::overview::{age_of, age_text, item_color, item_color_of, seconds_between, whole_seconds,
    max_timestamp, min_timestamp, ItemColor};
use crate::text::{append_chars, append_str, chars_of, string_of};
use vstd::prelude::*;

verus! {

/// How a value is drawn.
#[derive(PartialEq, Eq, Structural, Clone, Copy, Debug)]
pub enum Tone {
    /// The ordinary detail colour.
    Detail,
    /// The colour of the second column of a key/value grid.
    SecondDetail,
    /// Drawn as a warning.
    Warning,
    /// Drawn in a status colour.
    Status(ItemColor),
    /// Drawn as a match of a search.
    Found,
    /// Drawn as a recommendation.
    Advice,
}

/// One line of a detail window.
pub enum Line {
    /// A labelled value: `label`, `value`, drawn in `tone`.
    Field(String, String, Tone),
    /// The title of a section.
    Heading(String),
    /// A key and its value inside a section.
    Pair(String, String),
    /// A single entry inside a section.
    Item(String, Tone),
    /// A row of a table inside a section.
    Cells(Vec<String>),
    /// A three-column row whose last column takes a status colour (an
    /// event: time, reason, message; a pod: name, namespace, phase).
    Row(String, String, String, ItemColor),
    /// A coloured square followed by a name.
    Marker(String, ItemColor),
    /// A separating rule.
    Separator,
}

/// A line as the specifications see it.
pub enum Shown {
    Field(Seq<char>, Seq<char>, Tone),
    Heading(Seq<char>),
    Pair(Seq<char>, Seq<char>),
    Item(Seq<char>, Tone),
    Cells(Seq<Seq<char>>),
    Row(Seq<char>, Seq<char>, Seq<char>, ItemColor),
    Marker(Seq<char>, ItemColor),
    Separator,
}

/// The texts of a vector of strings.
pub open spec fn texts(v: Seq<String>) -> Seq<Seq<char>> {
    v.map_values(|s: String| s@)
}

/// What a line shows.
pub open spec fn shown(l: Line) -> Shown {
    match l {
        Line::Field(a, b, t) => Shown::Field(a@, b@, t),
        Line::Heading(a) => Shown::Heading(a@),
        Line::Pair(a, b) => Shown::Pair(a@, b@),
        Line::Item(a, t) => Shown::Item(a@, t),
        Line::Cells(c) => Shown::Cells(texts(c@)),
        Line::Row(a, b, c, k) => Shown::Row(a@, b@, c@, k),
        Line::Marker(a, k) => Shown::Marker(a@, k),
        Line::Separator => Shown::Separator,
    }
}

/// What a list of lines shows.
pub open spec fn shown_all(v: Seq<Line>) -> Seq<Shown> {
    v.map_values(|l: Line| shown(l))
}

/// The optional text of an optional string.
pub open spec fn opt_view(o: Option<String>) -> Option<Seq<char>> {
    match o {
        Some(s) => Some(s@),
        None => None,
    }
}

/// The texts of key/value pairs.
pub open spec fn pair_texts(v: Seq<(String, String)>) -> Seq<(Seq<char>, Seq<char>)> {
    v.map_values(|p: (String, String)| (p.0@, p.1@))
}

/// A labelled value, shown when present.
pub open spec fn opt_field(label: Seq<char>, v: Option<Seq<char>>, tone: Tone) -> Seq<Shown> {
    match v {
        Some(x) => seq![Shown::Field(label, x, tone)],
        None => seq![],
    }
}

/// The entries of a key/value section.
pub open spec fn pair_lines(p: Seq<(Seq<char>, Seq<char>)>) -> Seq<Shown> {
    p.map_values(|kv: (Seq<char>, Seq<char>)| Shown::Pair(kv.0, kv.1))
}

/// A key/value section under a rule and a heading, shown when present.
pub open spec fn pairs_section(heading: Seq<char>, p: Option<Seq<(Seq<char>, Seq<char>)>>) -> Seq<
    Shown,
> {
    match p {
        Some(kv) => seq![Shown::Separator, Shown::Heading(heading)] + pair_lines(kv),
        None => seq![],
    }
}

/// The entries of a list section.
pub open spec fn item_lines(v: Seq<Seq<char>>) -> Seq<Shown> {
    v.map_values(|s: Seq<char>| Shown::Item(s, Tone::Detail))
}

/// A list section under a rule and a heading, shown when present.
pub open spec fn items_section(heading: Seq<char>, v: Option<Seq<Seq<char>>>) -> Seq<Shown> {
    match v {
        Some(x) => seq![Shown::Separator, Shown::Heading(heading)] + item_lines(x),
        None => seq![],
    }
}

/// An event of a resource, as the cluster reports it.
pub struct EventDetails {
    pub reason: Option<String>,
    pub message: Option<String>,
    pub event_type: Option<String>,
    pub timestamp: Option<String>,
}

/// The text of an optional string, empty when absent.
pub open spec fn or_empty(o: Option<String>) -> Seq<char> {
    match o {
        Some(s) => s@,
        None => seq![],
    }
}

/// The line of one event: missing parts are empty, and the message takes
/// the colour of the event's type.
pub open spec fn event_line(e: EventDetails) -> Shown {
    Shown::Row(
        or_empty(e.timestamp),
        or_empty(e.reason),
        or_empty(e.message),
        item_color_of(or_empty(e.event_type)),
    )
}

/// The events part of a window: a rule, the heading, then each event.
pub open spec fn events_part(events: Seq<EventDetails>) -> Seq<Shown> {
    seq![Shown::Separator, Shown::Heading("Events:"@)] + events.map_values(|e: EventDetails| event_line(e))
}

/// `UTC` date-time text (`chrono`'s `Display` of a `DateTime<Utc>`) of an
/// instant given as seconds since the Unix epoch and nanoseconds.
pub uninterp spec fn utc_text(secs: int, nanos: int) -> Seq<char>;

/// The `Display` text of the instant (`DateTime::<Utc>::from_timestamp`,
/// then `to_string`).
///
/// Trusted: the text is `utc_text` of the arguments, a named result; the
/// instant is one a `DateTime` holds (in its range, and with a second's
/// worth of extra nanoseconds only in a leap second, at second 59), so it
/// is built.
#[verifier::external_body]
fn utc_timestamp_text(secs: i64, nanos: u32) -> (r: String)
    requires
        valid_instant((secs, nanos)),
    ensures
        r@ == utc_text(secs as int, nanos as int),
{
    match chrono::DateTime::<chrono::Utc>::from_timestamp(secs, nanos) {
        Some(t) => t.to_string(),
        None => String::new(),
    }
}

/// An instant, as seconds since the Unix epoch and nanoseconds, that a
/// `chrono` date-time can hold: within its range, and with nanoseconds of a
/// second or more only in a leap second, which follows second 59 of a
/// minute.
pub open spec fn valid_instant(t: (i64, u32)) -> bool {
    &&& min_timestamp() <= t.0 <= max_timestamp()
    &&& (t.1 < 1_000_000_000 || (t.1 < 2_000_000_000 && t.0 % 60 == 59))
}

/// The creation time of a resource and its age at `now`:
/// `<date-time>, <age> ago`.
pub open spec fn creation_text(created: (i64, u32), now: (i64, u32)) -> Seq<char> {
    utc_text(created.0 as int, created.1 as int) + ", "@ + age_of(
        whole_seconds(created.0 as int, created.1 as int, now.0 as int, now.1 as int),
    ) + " ago"@
}

/// The creation-time field, shown when the time is known.
pub open spec fn creation_field(created: Option<(i64, u32)>, now: (i64, u32)) -> Seq<Shown> {
    match created {
        Some(c) => seq![Shown::Field("Creation time:"@, creation_text(c, now), Tone::Detail)],
        None => seq![],
    }
}

/// The creation time of a resource and its age at `now`.
pub fn creation_time_text(created: (i64, u32), now: (i64, u32)) -> (r: String)
    requires
        valid_instant(created),
        valid_instant(now),
    ensures
        r@ == creation_text(created, now),
{
    let mut v = chars_of(utc_timestamp_text(created.0, created.1).as_str());
    append_str(&mut v, ", ");
    let secs = seconds_between(created.0, created.1, now.0, now.1);
    append_chars(&mut v, &chars_of(age_text(secs).as_str()));
    append_str(&mut v, " ago");
    string_of(&v)
}

/// Adds a labelled value.
pub fn push_field(out: &mut Vec<Line>, label: &str, value: String, tone: Tone)
    ensures
        shown_all(final(out)@) == shown_all(old(out)@) + seq![Shown::Field(label@, value@, tone)],
{
    let ghost before = out@;
    out.push(Line::Field(string_of(&chars_of(label)), value, tone));
    assert(shown_all(out@) =~= shown_all(before) + seq![Shown::Field(label@, out@.last()->Field_1@, tone)]);
}

/// Adds a labelled value when it is present.
pub fn push_opt_field(out: &mut Vec<Line>, label: &str, value: &Option<String>, tone: Tone)
    ensures
        shown_all(final(out)@) == shown_all(old(out)@) + opt_field(label@, opt_view(*value), tone),
{
    match value {
        Some(v) => push_field(out, label, v.clone(), tone),
        None => {
            assert(shown_all(out@) =~= shown_all(out@) + opt_field(label@, opt_view(*value), tone));
        },
    }
}

/// Adds a line of its own.
pub fn push_line(out: &mut Vec<Line>, l: Line)
    ensures
        shown_all(final(out)@) == shown_all(old(out)@) + seq![shown(l)],
{
    let ghost before = out@;
    let ghost s = shown(l);
    out.push(l);
    assert(shown_all(out@) =~= shown_all(before) + seq![s]);
}

/// Adds a section heading.
pub fn push_heading(out: &mut Vec<Line>, heading: &str)
    ensures
        shown_all(final(out)@) == shown_all(old(out)@) + seq![Shown::Heading(heading@)],
{
    push_line(out, Line::Heading(string_of(&chars_of(heading))));
}

/// Adds the entries of a key/value section.
pub fn push_pairs(out: &mut Vec<Line>, pairs: &Vec<(String, String)>)
    ensures
        shown_all(final(out)@) == shown_all(old(out)@) + pair_lines(pair_texts(pairs@)),
{
    let ghost before = shown_all(out@);
    let mut i: usize = 0;
    while i < pairs.len()
        invariant
            i <= pairs@.len(),
            shown_all(out@) == before + pair_lines(pair_texts(pairs@.take(i as int))),
        decreases pairs.len() - i,
    {
        let k = pairs[i].0.clone();
        let v = pairs[i].1.clone();
        push_line(out, Line::Pair(k, v));
        assert(pair_lines(pair_texts(pairs@.take(i as int + 1))) =~= pair_lines(
            pair_texts(pairs@.take(i as int)),
        ) + seq![Shown::Pair(pairs@[i as int].0@, pairs@[i as int].1@)]);
        i = i + 1;
    }
    assert(pairs@.take(pairs@.len() as int) == pairs@);
}

/// Adds a key/value section, when present.
pub fn push_pairs_section(out: &mut Vec<Line>, heading: &str, pairs: &Option<Vec<(String, String)>>)
    ensures
        shown_all(final(out)@) == shown_all(old(out)@) + pairs_section(
            heading@,
            match *pairs {
                Some(p) => Some(pair_texts(p@)),
                None => None,
            },
        ),
{
    match pairs {
        Some(p) => {
            let ghost before = shown_all(out@);
            push_line(out, Line::Separator);
            push_heading(out, heading);
            push_pairs(out, p);
            assert(shown_all(out@) =~= before + (seq![Shown::Separator, Shown::Heading(heading@)]
                + pair_lines(pair_texts(p@))));
        },
        None => {
            assert(shown_all(out@) =~= shown_all(out@) + Seq::<Shown>::empty());
        },
    }
}

/// Adds the entries of a list section.
pub fn push_items(out: &mut Vec<Line>, items: &Vec<String>)
    ensures
        shown_all(final(out)@) == shown_all(old(out)@) + item_lines(texts(items@)),
{
    let ghost before = shown_all(out@);
    let mut i: usize = 0;
    while i < items.len()
        invariant
            i <= items@.len(),
            shown_all(out@) == before + item_lines(texts(items@.take(i as int))),
        decreases items.len() - i,
    {
        push_line(out, Line::Item(items[i].clone(), Tone::Detail));
        assert(item_lines(texts(items@.take(i as int + 1))) =~= item_lines(
            texts(items@.take(i as int)),
        ) + seq![Shown::Item(items@[i as int]@, Tone::Detail)]);
        i = i + 1;
    }
    assert(items@.take(items@.len() as int) == items@);
}

/// Adds a list section, when present.
pub fn push_items_section(out: &mut Vec<Line>, heading: &str, items: &Option<Vec<String>>)
    ensures
        shown_all(final(out)@) == shown_all(old(out)@) + items_section(
            heading@,
            match *items {
                Some(v) => Some(texts(v@)),
                None => None,
            },
        ),
{
    match items {
        Some(v) => {
            let ghost before = shown_all(out@);
            push_line(out, Line::Separator);
            push_heading(out, heading);
            push_items(out, v);
            assert(shown_all(out@) =~= before + (seq![Shown::Separator, Shown::Heading(heading@)]
                + item_lines(texts(v@))));
        },
        None => {
            assert(shown_all(out@) =~= shown_all(out@) + Seq::<Shown>::empty());
        },
    }
}

/// The text of an optional string, empty when absent.
pub fn text_or_empty(o: &Option<String>) -> (r: String)
    ensures
        r@ == or_empty(*o),
{
    match o {
        Some(s) => s.clone(),
        None => String::new(),
    }
}

/// Adds the events part.
pub fn push_events(out: &mut Vec<Line>, events: &Vec<EventDetails>)
    ensures
        shown_all(final(out)@) == shown_all(old(out)@) + events_part(events@),
{
    let ghost before = shown_all(out@);
    push_line(out, Line::Separator);
    push_heading(out, "Events:");
    let ghost head = shown_all(out@);
    let mut i: usize = 0;
    while i < events.len()
        invariant
            i <= events@.len(),
            shown_all(out@) == head + events@.take(i as int).map_values(|e: EventDetails| event_line(e)),
        decreases events.len() - i,
    {
        let e = &events[i];
        let ty = text_or_empty(&e.event_type);
        let color = item_color(ty.as_str());
        push_line(
            out,
            Line::Row(text_or_empty(&e.timestamp), text_or_empty(&e.reason), text_or_empty(&e.message), color),
        );
        assert(events@.take(i as int + 1).map_values(|e: EventDetails| event_line(e)) =~= events@.take(
            i as int,
        ).map_values(|e: EventDetails| event_line(e)) + seq![event_line(events@[i as int])]);
        i = i + 1;
    }
    assert(events@.take(events@.len() as int) == events@);
    assert(shown_all(out@) =~= before + events_part(events@));
}

/// RFC 3339 text (`DateTime::to_rfc3339`) of an instant given as seconds
/// since the Unix epoch and nanoseconds.
pub uninterp spec fn rfc3339_text(secs: int, nanos: int) -> Seq<char>;

/// The RFC 3339 text of the instant (`DateTime::<Utc>::from_timestamp`,
/// then `to_rfc3339`).
///
/// Trusted: the text is `rfc3339_text` of the arguments, a named result;
/// the instant is one a `DateTime` holds (in its range, and with a second's
/// worth of extra nanoseconds only in a leap second, at second 59), so it
/// is built.
#[verifier::external_body]
fn rfc3339_timestamp_text(secs: i64, nanos: u32) -> (r: String)
    requires
        valid_instant((secs, nanos)),
    ensures
        r@ == rfc3339_text(secs as int, nanos as int),
{
    match chrono::DateTime::<chrono::Utc>::from_timestamp(secs, nanos) {
        Some(t) => t.to_rfc3339(),
        None => String::new(),
    }
}

/// An event as the details keep it: its reason, message and type, and the
/// time it was last seen in RFC 3339 form.
pub fn event_details(
    reason: Option<String>,
    message: Option<String>,
    event_type: Option<String>,
    last_timestamp: Option<(i64, u32)>,
) -> (r: EventDetails)
    requires
        last_timestamp matches Some(t) ==> valid_instant(t),
    ensures
        opt_view(r.reason) == opt_view(reason),
        opt_view(r.message) == opt_view(message),
        opt_view(r.event_type) == opt_view(event_type),
        opt_view(r.timestamp) == (match last_timestamp {
            Some(t) => Some(rfc3339_text(t.0 as int, t.1 as int)),
            None => None,
        }),
{
    let timestamp = match last_timestamp {
        Some(t) => Some(rfc3339_timestamp_text(t.0, t.1)),
        None => None,
    };
    EventDetails { reason, message, event_type, timestamp }
}

} // verus!

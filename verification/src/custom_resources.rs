//! Table rows of well-known custom resources (cluster secret stores,
//! external secrets, virtual services, Cilium load-balancer IP pools),
//! built from the fields read out of each resource.
use crate::details::opt_view;
use crate::overview::{age_of, age_text, item_color, item_color_of, seconds_between, whole_seconds, ItemColor};
use crate::text::{append_str, chars_of, join, string_of};
use vstd::prelude::*;

verus! {

/// The instant an RFC 3339 creation timestamp stands for, as seconds since
/// the Unix epoch and nanoseconds (`str::parse::<DateTime<Utc>>`); the
/// epoch itself when the text does not parse.
pub uninterp spec fn parsed_instant(text: Seq<char>) -> (i64, u32);

/// Parses a creation timestamp (`str::parse::<DateTime<Utc>>`, then
/// `unwrap_or_default`, `timestamp` and `timestamp_subsec_nanos`).
///
/// Trusted: the instant is `parsed_instant` of the text, a named result;
/// text that does not parse gives the default date-time, the Unix epoch;
/// every `DateTime` lies in the range `chrono` documents, and its
/// sub-second nanoseconds reach a second only in a leap second, which
/// `chrono` keeps at second 59 of a minute.
#[verifier::external_body]
fn parse_instant(text: &str) -> (r: (i64, u32))
    ensures
        r == parsed_instant(text@),
        crate::overview::min_timestamp() <= r.0 <= crate::overview::max_timestamp(),
        r.1 < 1_000_000_000 || (r.1 < 2_000_000_000 && r.0 % 60 == 59),
{
    let t: chrono::DateTime<chrono::Utc> = text.parse().unwrap_or_default();
    (t.timestamp(), t.timestamp_subsec_nanos())
}

/// The text of an optional field, `-` when it is missing.
pub open spec fn or_dash(o: Option<Seq<char>>) -> Seq<char> {
    match o {
        Some(s) => s,
        None => "-"@,
    }
}

fn text_or_dash(o: &Option<String>) -> (r: String)
    ensures
        r@ == or_dash(opt_view(*o)),
{
    match o {
        Some(s) => s.clone(),
        None => string_of(&chars_of("-")),
    }
}

/// The age shown for a creation timestamp read as text (missing: `-`,
/// which does not parse) at `now`.
pub open spec fn age_cell(created: Option<Seq<char>>, now: (i64, u32)) -> Seq<char> {
    let t = parsed_instant(or_dash(created));
    age_of(whole_seconds(t.0 as int, t.1 as int, now.0 as int, now.1 as int))
}

fn age_for(created: &Option<String>, now: (i64, u32)) -> (r: String)
    requires
        crate::overview::min_timestamp() <= now.0 <= crate::overview::max_timestamp(),
    ensures
        r@ == age_cell(opt_view(*created), now),
{
    let text = text_or_dash(created);
    let t = parse_instant(text.as_str());
    age_text(seconds_between(t.0, t.1, now.0, now.1))
}

/// What a cluster secret store row shows: the first condition's message,
/// reason, type and status, the capabilities, and the creation timestamp.
pub struct SecretStoreFields {
    pub message: Option<String>,
    pub reason: Option<String>,
    pub condition_type: Option<String>,
    pub status: Option<String>,
    pub capabilities: Option<String>,
    pub created: Option<String>,
}

/// A row of a table: its cells, and the colour of its status cell.
pub struct TableRow {
    pub cells: Vec<String>,
    pub status_color: ItemColor,
}

/// The texts of a row's cells.
pub open spec fn cell_texts(r: TableRow) -> Seq<Seq<char>> {
    r.cells@.map_values(|s: String| s@)
}

/// The row of a cluster secret store at `now`; its type cell takes a
/// status colour.
pub open spec fn secret_store_row(name: Seq<char>, f: SecretStoreFields, now: (i64, u32)) -> (Seq<Seq<char>>, ItemColor) {
    (
        seq![
            name,
            or_dash(opt_view(f.message)),
            or_dash(opt_view(f.reason)),
            or_dash(opt_view(f.condition_type)),
            or_dash(opt_view(f.status)),
            or_dash(opt_view(f.capabilities)),
            age_cell(opt_view(f.created), now),
        ],
        item_color_of(or_dash(opt_view(f.condition_type))),
    )
}

/// The row of a cluster secret store at `now`.
pub fn cluster_secret_store_row(name: &String, f: &SecretStoreFields, now: (i64, u32)) -> (r: TableRow)
    requires
        crate::overview::min_timestamp() <= now.0 <= crate::overview::max_timestamp(),
    ensures
        (cell_texts(r), r.status_color) == secret_store_row(name@, *f, now),
{
    let ty = text_or_dash(&f.condition_type);
    let color = item_color(ty.as_str());
    let cells = vec![
        name.clone(),
        text_or_dash(&f.message),
        text_or_dash(&f.reason),
        ty,
        text_or_dash(&f.status),
        text_or_dash(&f.capabilities),
        age_for(&f.created, now),
    ];
    let r = TableRow { cells, status_color: color };
    assert(cell_texts(r) =~= secret_store_row(name@, *f, now).0);
    r
}

/// What an external secret row shows.
pub struct ExternalSecretFields {
    pub namespace: Option<String>,
    pub store_type: Option<String>,
    pub refresh_interval: Option<String>,
    pub condition_type: Option<String>,
    pub reason: Option<String>,
    pub created: Option<String>,
}

/// The row of an external secret at `now`; its status cell (the first
/// condition's type) takes a status colour.
pub open spec fn external_secret_cells(name: Seq<char>, f: ExternalSecretFields, now: (i64, u32)) -> (Seq<Seq<char>>, ItemColor) {
    (
        seq![
            name,
            or_dash(opt_view(f.namespace)),
            or_dash(opt_view(f.store_type)),
            or_dash(opt_view(f.refresh_interval)),
            or_dash(opt_view(f.condition_type)),
            or_dash(opt_view(f.reason)),
            age_cell(opt_view(f.created), now),
        ],
        item_color_of(or_dash(opt_view(f.condition_type))),
    )
}

/// The row of an external secret at `now`.
pub fn external_secret_row(name: &String, f: &ExternalSecretFields, now: (i64, u32)) -> (r: TableRow)
    requires
        crate::overview::min_timestamp() <= now.0 <= crate::overview::max_timestamp(),
    ensures
        (cell_texts(r), r.status_color) == external_secret_cells(name@, *f, now),
{
    let ty = text_or_dash(&f.condition_type);
    let color = item_color(ty.as_str());
    let cells = vec![
        name.clone(),
        text_or_dash(&f.namespace),
        text_or_dash(&f.store_type),
        text_or_dash(&f.refresh_interval),
        ty,
        text_or_dash(&f.reason),
        age_for(&f.created, now),
    ];
    let r = TableRow { cells, status_color: color };
    assert(cell_texts(r) =~= external_secret_cells(name@, *f, now).0);
    r
}

/// What a virtual service row shows: its namespace, first gateway, first
/// host and creation timestamp.
pub struct VirtualServiceFields {
    pub namespace: Option<String>,
    pub gateway: Option<String>,
    pub host: Option<String>,
    pub created: Option<String>,
}

/// The cells of a virtual service row at `now`.
pub open spec fn virtual_service_cells(name: Seq<char>, f: VirtualServiceFields, now: (i64, u32)) -> Seq<Seq<char>> {
    seq![
        name,
        or_dash(opt_view(f.namespace)),
        or_dash(opt_view(f.gateway)),
        or_dash(opt_view(f.host)),
        age_cell(opt_view(f.created), now),
    ]
}

/// The cells of a virtual service row at `now`.
pub fn virtual_service_row(name: &String, f: &VirtualServiceFields, now: (i64, u32)) -> (r: Vec<String>)
    requires
        crate::overview::min_timestamp() <= now.0 <= crate::overview::max_timestamp(),
    ensures
        r@.map_values(|s: String| s@) == virtual_service_cells(name@, *f, now),
{
    let r = vec![
        name.clone(),
        text_or_dash(&f.namespace),
        text_or_dash(&f.gateway),
        text_or_dash(&f.host),
        age_for(&f.created, now),
    ];
    assert(r@.map_values(|s: String| s@) =~= virtual_service_cells(name@, *f, now));
    r
}

/// An address block of an IP pool: a CIDR, or a start and stop address.
pub struct IpBlock {
    pub cidr: Option<String>,
    pub start: Option<String>,
    pub stop: Option<String>,
}

/// The text of an address block: its CIDR, else `start - stop`, else `?`.
pub open spec fn block_text(b: IpBlock) -> Seq<char> {
    match b.cidr {
        Some(c) => c@,
        None => match (b.start, b.stop) {
            (Some(a), Some(z)) => a@ + " - "@ + z@,
            _ => "?"@,
        },
    }
}

/// The blocks cell: the blocks joined by `, `, or `-` when there is no
/// block list or the joined text is empty.
pub open spec fn blocks_cell(blocks: Option<Seq<IpBlock>>) -> Seq<char> {
    match blocks {
        Some(bs) => {
            let j = join(bs.map_values(|b: IpBlock| block_text(b)), ", "@);
            if j.len() == 0 {
                "-"@
            } else {
                j
            }
        },
        None => "-"@,
    }
}

/// What an IP pool row shows.
pub struct IpPoolFields {
    pub created: Option<String>,
    pub allow_first_last_ips: Option<String>,
    pub blocks: Option<Vec<IpBlock>>,
    pub disabled: bool,
}

/// The cells of an IP pool row at `now`.
pub open spec fn ip_pool_cells(name: Seq<char>, f: IpPoolFields, now: (i64, u32)) -> Seq<Seq<char>> {
    seq![
        name,
        age_cell(opt_view(f.created), now),
        or_dash(opt_view(f.allow_first_last_ips)),
        blocks_cell(match f.blocks {
            Some(v) => Some(v@),
            None => None,
        }),
        if f.disabled {
            "Yes"@
        } else {
            "No"@
        },
    ]
}

fn block_line(b: &IpBlock) -> (r: String)
    ensures
        r@ == block_text(*b),
{
    match &b.cidr {
        Some(c) => c.clone(),
        None => match (&b.start, &b.stop) {
            (Some(a), Some(z)) => {
                let mut v = chars_of(a.as_str());
                append_str(&mut v, " - ");
                append_str(&mut v, z.as_str());
                string_of(&v)
            },
            _ => string_of(&chars_of("?")),
        },
    }
}

fn blocks_line(blocks: &Option<Vec<IpBlock>>) -> (r: String)
    ensures
        r@ == blocks_cell(match *blocks {
            Some(v) => Some(v@),
            None => None,
        }),
{
    match blocks {
        None => string_of(&chars_of("-")),
        Some(bs) => {
            let ghost texts = bs@.map_values(|b: IpBlock| block_text(b));
            let mut v: Vec<char> = Vec::new();
            let mut i: usize = 0;
            while i < bs.len()
                invariant
                    i <= bs@.len(),
                    texts == bs@.map_values(|b: IpBlock| block_text(b)),
                    v@ == join(texts.take(i as int), ", "@),
                decreases bs.len() - i,
            {
                let t = block_line(&bs[i]);
                if i > 0 {
                    append_str(&mut v, ", ");
                }
                crate::text::append_chars(&mut v, &chars_of(t.as_str()));
                proof {
                    let p = texts.take(i as int + 1);
                    assert(p.drop_last() == texts.take(i as int));
                    assert(p.last() == t@);
                    if i == 0 {
                        assert(p.len() == 1);
                        assert(v@ == p[0]);
                    }
                }
                i = i + 1;
            }
            assert(texts.take(bs@.len() as int) == texts);
            if v.len() == 0 {
                string_of(&chars_of("-"))
            } else {
                string_of(&v)
            }
        },
    }
}

/// The cells of a Cilium load-balancer IP pool row at `now`.
pub fn ip_pool_row(name: &String, f: &IpPoolFields, now: (i64, u32)) -> (r: Vec<String>)
    requires
        crate::overview::min_timestamp() <= now.0 <= crate::overview::max_timestamp(),
    ensures
        r@.map_values(|s: String| s@) == ip_pool_cells(name@, *f, now),
{
    let disabled = if f.disabled {
        string_of(&chars_of("Yes"))
    } else {
        string_of(&chars_of("No"))
    };
    let r = vec![
        name.clone(),
        age_for(&f.created, now),
        text_or_dash(&f.allow_first_last_ips),
        blocks_line(&f.blocks),
        disabled,
    ];
    assert(r@.map_values(|s: String| s@) =~= ip_pool_cells(name@, *f, now));
    r
}

} // verus!

//! Small utility windows: the random UUID generator and the IP subnet
//! calculator.
use crate::codec::utf8_of;
use crate::text::{append_chars, chars_of, string_of, trim, trim_chars};
use ipnetwork::{IpNetwork, IpNetworkError};
use std::str::FromStr;
use vstd::prelude::*;

verus! {

/// A lower-case hexadecimal digit.
pub open spec fn is_lower_hex(c: char) -> bool {
    ('0' <= c && c <= '9') || ('a' <= c && c <= 'f')
}

/// The hyphenated lower-case text of a random (version 4, RFC 4122 variant)
/// UUID: `xxxxxxxx-xxxx-4xxx-Vxxx-xxxxxxxxxxxx` with `V` one of `89ab`.
pub open spec fn is_uuid_v4_text(s: Seq<char>) -> bool {
    &&& s.len() == 36
    &&& forall|i: int|
        0 <= i < 36 ==> if i == 8 || i == 13 || i == 18 || i == 23 {
            #[trigger] s[i] == '-'
        } else {
            is_lower_hex(s[i])
        }
    &&& s[14] == '4'
    &&& (s[19] == '8' || s[19] == '9' || s[19] == 'a' || s[19] == 'b')
}

/// A fresh random UUID as text (`uuid::Uuid::new_v4().to_string()`).
///
/// Trusted: the value is random, so nothing ties it to a name; what holds
/// of every outcome is its shape. `new_v4` masks in the version and variant
/// bits and `Display` writes the hyphenated lower-case form.
#[verifier::external_body]
fn new_uuid_text() -> (r: String)
    ensures
        is_uuid_v4_text(r@),
{
    uuid::Uuid::new_v4().to_string()
}

/// The UUID generator window.
pub struct UUIDGenWindow {
    pub show: bool,
    pub uuid: String,
}

impl UUIDGenWindow {
    /// A closed window holding a fresh random UUID.
    pub fn default() -> (r: Self)
        ensures
            !r.show,
            is_uuid_v4_text(r.uuid@),
    {
        UUIDGenWindow { show: false, uuid: new_uuid_text() }
    }

    /// Replaces the shown UUID with a fresh one.
    pub fn generate(&mut self)
        ensures
            final(self).show == old(self).show,
            is_uuid_v4_text(final(self).uuid@),
    {
        self.uuid = new_uuid_text();
    }
}

#[verifier::external_type_specification]
#[verifier::external_body]
pub struct ExIpNetworkError(IpNetworkError);

/// For a CIDR text that `ipnetwork::IpNetwork::from_str` accepts: the
/// network address, the broadcast address and the number of addresses,
/// each as `to_string` writes it.
pub uninterp spec fn cidr_summary(text: Seq<char>) -> Option<(Seq<char>, Seq<char>, Seq<char>)>;

/// Parses a CIDR block (`IpNetwork::from_str`) and reports its network
/// address, broadcast address and size as text.
///
/// Trusted: the texts are `cidr_summary` of the input, a named result;
/// the call fails exactly where no summary exists.
#[verifier::external_body]
fn parse_network(text: &str) -> (r: Result<(String, String, String), IpNetworkError>)
    ensures
        match r {
            Ok(t) => cidr_summary(text@) == Some((t.0@, t.1@, t.2@)),
            Err(_) => cidr_summary(text@) is None,
        },
{
    match IpNetwork::from_str(text) {
        Ok(n) => Ok((n.network().to_string(), n.broadcast().to_string(), n.size().to_string())),
        Err(e) => Err(e),
    }
}

/// The address range and size of a CIDR block.
pub struct Calculated {
    pub first_addr: String,
    pub last_addr: String,
    pub host_count: String,
}

/// Why a CIDR block was refused. `IpNetwork::from_str` reports every
/// refusal as an invalid address, carrying the text it was given.
pub enum CidrError {
    InvalidAddr(String),
}

/// The text of a refusal of `input`.
pub open spec fn cidr_error_text(input: Seq<char>) -> Seq<char> {
    "invalid address: "@ + input
}

impl CidrError {
    /// The refusal as text (`invalid address: <input>`).
    pub fn message(&self) -> (r: String)
        ensures
            match self {
                CidrError::InvalidAddr(s) => r@ == cidr_error_text(s@),
            },
    {
        match self {
            CidrError::InvalidAddr(s) => {
                let mut v = chars_of("invalid address: ");
                append_chars(&mut v, &chars_of(s.as_str()));
                string_of(&v)
            },
        }
    }
}

/// The range, broadcast and size of the CIDR block written in `cidr`,
/// ignoring surrounding white space.
pub fn calculate_input(cidr: &str) -> (r: Result<Calculated, CidrError>)
    ensures
        match cidr_summary(trim(cidr@)) {
            Some(t) => (r matches Ok(c) && c.first_addr@ == t.0 && c.last_addr@ == t.1
                && c.host_count@ == t.2),
            None => (r matches Err(CidrError::InvalidAddr(s)) && s@ == trim(cidr@)),
        },
{
    let t = string_of(&trim_chars(&chars_of(cidr)));
    match parse_network(t.as_str()) {
        Ok((a, b, c)) => Ok(Calculated { first_addr: a, last_addr: b, host_count: c }),
        Err(_) => Err(CidrError::InvalidAddr(t)),
    }
}

/// The lines the calculator shows for a result.
pub open spec fn result_lines(r: Result<Calculated, CidrError>) -> Seq<Seq<char>> {
    match r {
        Ok(c) => seq!["Range:  "@ + c.first_addr@ + " - "@ + c.last_addr@, "Hosts count:  "@ + c.host_count@],
        Err(CidrError::InvalidAddr(s)) => if utf8_of(cidr_error_text(s@)).len() > 50 {
            seq!["Error in input"@]
        } else {
            seq!["Error: "@ + cidr_error_text(s@)]
        },
    }
}

/// The IP subnet calculator window.
pub struct IpCalculatorWindow {
    pub show: bool,
    pub input_cidr: String,
    pub calculated_data: Result<Calculated, CidrError>,
}

/// The block the calculator opens with.
pub open spec fn default_cidr() -> Seq<char> {
    "10.10.10.10/27"@
}

/// The result held for an input.
pub open spec fn result_for(input: Seq<char>, r: Result<Calculated, CidrError>) -> bool {
    match cidr_summary(trim(input)) {
        Some(t) => (r matches Ok(c) && c.first_addr@ == t.0 && c.last_addr@ == t.1
            && c.host_count@ == t.2),
        None => (r matches Err(CidrError::InvalidAddr(s)) && s@ == trim(input)),
    }
}

fn joined(parts: &Vec<&str>) -> (r: String)
    ensures
        parts@.len() == 4 ==> r@ == parts@[0]@ + parts@[1]@ + parts@[2]@ + parts@[3]@,
        parts@.len() == 2 ==> r@ == parts@[0]@ + parts@[1]@,
{
    let mut v: Vec<char> = Vec::new();
    let mut i: usize = 0;
    while i < parts.len()
        invariant
            i <= parts.len(),
            v@ == (if i == 0 {
                Seq::<char>::empty()
            } else if i == 1 {
                parts@[0]@
            } else if i == 2 {
                parts@[0]@ + parts@[1]@
            } else if i == 3 {
                parts@[0]@ + parts@[1]@ + parts@[2]@
            } else if i == 4 {
                parts@[0]@ + parts@[1]@ + parts@[2]@ + parts@[3]@
            } else {
                v@
            }),
        decreases parts.len() - i,
    {
        append_chars(&mut v, &chars_of(parts[i]));
        i = i + 1;
    }
    string_of(&v)
}

impl IpCalculatorWindow {
    /// A closed window showing the default block and its result.
    pub fn new() -> (r: Self)
        ensures
            !r.show,
            r.input_cidr@ == default_cidr(),
            result_for(r.input_cidr@, r.calculated_data),
    {
        let input = string_of(&chars_of("10.10.10.10/27"));
        let data = calculate_input(input.as_str());
        proof {
            reveal_strlit("10.10.10.10/27");
        }
        IpCalculatorWindow { show: false, input_cidr: input, calculated_data: data }
    }

    /// The input was edited: the result is computed anew.
    pub fn input_changed(&mut self)
        ensures
            final(self).show == old(self).show,
            final(self).input_cidr@ == old(self).input_cidr@,
            result_for(old(self).input_cidr@, final(self).calculated_data),
    {
        self.calculated_data = calculate_input(self.input_cidr.as_str());
    }

    /// The lines shown under the input: the range and host count, or the
    /// error (shortened when its text passes fifty bytes).
    pub fn status_lines(&self) -> (r: Vec<String>)
        ensures
            r@.len() == result_lines(self.calculated_data).len(),
            forall|i: int| 0 <= i < r@.len() ==> #[trigger] r@[i]@ == result_lines(self.calculated_data)[i],
    {
        let mut out: Vec<String> = Vec::new();
        match &self.calculated_data {
            Ok(c) => {
                let parts = vec!["Range:  ", c.first_addr.as_str(), " - ", c.last_addr.as_str()];
                assert(parts@.len() == 4);
                let a = joined(&parts);
                let parts2 = vec!["Hosts count:  ", c.host_count.as_str()];
                let b = joined(&parts2);
                assert(parts@[1]@ == c.first_addr@);
                assert(a@ == "Range:  "@ + c.first_addr@ + " - "@ + c.last_addr@);
                assert(b@ == "Hosts count:  "@ + c.host_count@);
                let ghost av = a@;
                let ghost bv = b@;
                out.push(a);
                out.push(b);
                assert(result_lines(self.calculated_data) == seq![av, bv]);
            },
            Err(e) => {
                let msg = e.message();
                if msg.as_str().as_bytes().len() > 50 {
                    out.push(string_of(&chars_of("Error in input")));
                } else {
                    let parts = vec!["Error: ", msg.as_str()];
                    assert(parts@.len() == 2);
                    let line = joined(&parts);
                    out.push(line);
                }
                assert(out@.len() == 1);
                assert(self.calculated_data matches Err(CidrError::InvalidAddr(t)) && msg@ == cidr_error_text(t@));
                assert(out@[0]@ == result_lines(self.calculated_data)[0]);

            },
        }
        out
    }
}

} // verus!

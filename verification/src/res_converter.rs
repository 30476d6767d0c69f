//! The resource converter: CPU and memory amounts kept in several units at
//! once, and the `resources:` YAML block they make. The unit arithmetic is
//! done on floating-point numbers by the caller; this module decides what
//! each field holds after an edit and what the YAML block says.
use crate::text::{append_str, chars_of, contains_chars, contains_seq, string_of, trim, trim_chars};
use vstd::prelude::*;

verus! {

/// `s` with every occurrence of `u` removed, scanning left to right
/// (`str::replace(u, "")`).
pub open spec fn remove_all(s: Seq<char>, u: Seq<char>) -> Seq<char>
    decreases s.len(),
{
    if u.len() == 0 || s.len() == 0 {
        s
    } else if u.len() <= s.len() && s.take(u.len() as int) == u {
        remove_all(s.skip(u.len() as int), u)
    } else {
        seq![s[0]] + remove_all(s.drop_first(), u)
    }
}

/// The number part of a field: the unit removed and white space trimmed.
pub open spec fn cleaned(val: Seq<char>, unit: Seq<char>) -> Seq<char> {
    trim(remove_all(val, unit))
}

/// `unit` occurs in `val` at position `i`.
fn unit_at(val: &Vec<char>, i: usize, unit: &Vec<char>) -> (r: bool)
    requires
        i <= val@.len(),
    ensures
        r == (unit@.len() <= val@.skip(i as int).len() && val@.skip(i as int).take(unit@.len() as int) == unit@),
{
    let ghost rest = val@.skip(i as int);
    if unit.len() > val.len() - i {
        return false;
    }
    let mut j: usize = 0;
    assert(val@.len() == val.len());
    while j < unit.len()
        invariant
            j <= unit@.len(),
            i <= val@.len(),
            val@.len() <= usize::MAX,
            unit@.len() <= val@.len() - i,
            rest == val@.skip(i as int),
            forall|k: int| 0 <= k < j ==> val@[i + k] == unit@[k],
        decreases unit.len() - j,
    {
        if val[i + j] != unit[j] {
            assert(rest.take(unit@.len() as int)[j as int] == val@[i + j]);
            return false;
        }
        j = j + 1;
    }
    assert(rest.take(unit@.len() as int) =~= unit@);
    true
}

/// Removes every occurrence of `unit` from `val`.
fn remove_unit(val: &Vec<char>, unit: &Vec<char>) -> (r: Vec<char>)
    ensures
        r@ == remove_all(val@, unit@),
{
    if unit.len() == 0 {
        let mut r: Vec<char> = Vec::new();
        crate::text::append_chars(&mut r, val);
        return r;
    }
    let mut out: Vec<char> = Vec::new();
    let mut i: usize = 0;
    assert(val@.skip(0) == val@);
    while i < val.len()
        invariant
            i <= val@.len(),
            unit@.len() > 0,
            out@ + remove_all(val@.skip(i as int), unit@) == remove_all(val@, unit@),
        decreases val.len() - i,
    {
        let ghost rest = val@.skip(i as int);
        let is_unit = unit_at(val, i, unit);
        if is_unit {
            assert(rest.take(unit@.len() as int) =~= unit@);
            assert(rest.skip(unit@.len() as int) == val@.skip(i + unit@.len()));
            i = i + unit.len();
        } else {
            assert(rest.drop_first() == val@.skip(i as int + 1));
            out.push(val[i]);
            assert(out@ + remove_all(val@.skip(i as int + 1), unit@) =~= out@.drop_last() + (seq![rest[0]]
                + remove_all(rest.drop_first(), unit@)));
            i = i + 1;
        }
    }
    assert(val@.skip(i as int).len() == 0);
    assert(out@ + remove_all(val@.skip(i as int), unit@) =~= out@);
    out
}

/// The number part of a field: the unit removed and white space trimmed,
/// ready to be read as a number. An empty result stands for zero.
pub fn clean_value(val: &str, unit: &str) -> (r: String)
    ensures
        r@ == cleaned(val@, unit@),
{
    let removed = remove_unit(&chars_of(val), &chars_of(unit));
    string_of(&trim_chars(&removed))
}

/// The CPU and memory fields of one block (requests or limits), and the
/// values its YAML lines carry.
pub struct ResourceFields {
    pub cpu_cores: String,
    pub cpu_milli: String,
    pub mem_ki: String,
    pub mem_mi: String,
    pub mem_gi: String,
    pub cpu: String,
    pub mem: String,
}

/// The converter window.
pub struct ResConverterWindow {
    pub requests: ResourceFields,
    pub limits: ResourceFields,
    pub yaml_preview: String,
    pub show: bool,
}

fn text_of(s: &str) -> (r: String)
    ensures
        r@ == s@,
{
    string_of(&chars_of(s))
}

/// Conversion results are marked invalid by this word.
pub open spec fn has_invalid(s: Seq<char>) -> bool {
    contains_seq(s, "invalid"@)
}

fn says_invalid(s: &String) -> (r: bool)
    ensures
        r == has_invalid(s@),
{
    contains_chars(&chars_of(s.as_str()), &chars_of("invalid"))
}

/// The trimmed text of a field followed by a unit.
fn trimmed_with(s: &String, unit: &str) -> (r: String)
    ensures
        r@ == trim(s@) + unit@,
{
    let mut v = trim_chars(&chars_of(s.as_str()));
    append_str(&mut v, unit);
    string_of(&v)
}

/// The value a YAML line carries after an edit: `fallback` when the edited
/// field is empty or a conversion failed, else the edited field trimmed
/// and followed by `unit`.
pub open spec fn yaml_value(edited: Seq<char>, failed: bool, fallback: Seq<char>, unit: Seq<char>) -> Seq<char> {
    if edited.len() == 0 || failed {
        fallback
    } else {
        trim(edited) + unit
    }
}

impl ResourceFields {
    /// The CPU cores field was edited; `milli` is its value converted to
    /// millicores.
    pub fn cpu_cores_changed(&mut self, milli: String)
        ensures
            final(self).cpu_milli@ == milli@,
            final(self).cpu@ == yaml_value(old(self).cpu_cores@, has_invalid(milli@), "0m"@, ""@),
            final(self).cpu_cores@ == old(self).cpu_cores@,
            final(self).mem_ki@ == old(self).mem_ki@,
            final(self).mem_mi@ == old(self).mem_mi@,
            final(self).mem_gi@ == old(self).mem_gi@,
            final(self).mem@ == old(self).mem@,
    {
        let failed = says_invalid(&milli);
        self.cpu_milli = milli;
        self.cpu = if self.cpu_cores.as_str().is_empty() || failed {
            text_of("0m")
        } else {
            trimmed_with(&self.cpu_cores, "")
        };
    }

    /// The millicores field was edited; `cores` is its value converted to
    /// cores.
    pub fn cpu_milli_changed(&mut self, cores: String)
        ensures
            final(self).cpu_cores@ == cores@,
            final(self).cpu@ == yaml_value(old(self).cpu_milli@, has_invalid(cores@), "0m"@, "m"@),
            final(self).cpu_milli@ == old(self).cpu_milli@,
            final(self).mem_ki@ == old(self).mem_ki@,
            final(self).mem_mi@ == old(self).mem_mi@,
            final(self).mem_gi@ == old(self).mem_gi@,
            final(self).mem@ == old(self).mem@,
    {
        let failed = says_invalid(&cores);
        self.cpu_cores = cores;
        self.cpu = if self.cpu_milli.as_str().is_empty() || failed {
            text_of("0m")
        } else {
            trimmed_with(&self.cpu_milli, "m")
        };
    }

    /// The GiB field was edited; `ki` and `mi` are its value in KiB and MiB.
    pub fn mem_gi_changed(&mut self, ki: String, mi: String)
        ensures
            final(self).mem_ki@ == ki@,
            final(self).mem_mi@ == mi@,
            final(self).mem@ == yaml_value(
                old(self).mem_gi@,
                has_invalid(mi@) || has_invalid(ki@),
                "0Gi"@,
                "Gi"@,
            ),
            final(self).mem_gi@ == old(self).mem_gi@,
            final(self).cpu_cores@ == old(self).cpu_cores@,
            final(self).cpu_milli@ == old(self).cpu_milli@,
            final(self).cpu@ == old(self).cpu@,
    {
        let failed = says_invalid(&mi) || says_invalid(&ki);
        self.mem_ki = ki;
        self.mem_mi = mi;
        self.mem = if self.mem_gi.as_str().is_empty() || failed {
            text_of("0Gi")
        } else {
            trimmed_with(&self.mem_gi, "Gi")
        };
    }

    /// The MiB field was edited; `ki` and `gi` are its value in KiB and GiB.
    pub fn mem_mi_changed(&mut self, ki: String, gi: String)
        ensures
            final(self).mem_ki@ == ki@,
            final(self).mem_gi@ == gi@,
            final(self).mem@ == yaml_value(
                old(self).mem_mi@,
                has_invalid(gi@) || has_invalid(ki@),
                "0Mi"@,
                "Mi"@,
            ),
            final(self).mem_mi@ == old(self).mem_mi@,
            final(self).cpu_cores@ == old(self).cpu_cores@,
            final(self).cpu_milli@ == old(self).cpu_milli@,
            final(self).cpu@ == old(self).cpu@,
    {
        let failed = says_invalid(&gi) || says_invalid(&ki);
        self.mem_ki = ki;
        self.mem_gi = gi;
        self.mem = if self.mem_mi.as_str().is_empty() || failed {
            text_of("0Mi")
        } else {
            trimmed_with(&self.mem_mi, "Mi")
        };
    }

    /// The KiB field was edited; `mi` and `gi` are its value in MiB and GiB.
    pub fn mem_ki_changed(&mut self, mi: String, gi: String)
        ensures
            final(self).mem_mi@ == mi@,
            final(self).mem_gi@ == gi@,
            final(self).mem@ == yaml_value(
                old(self).mem_ki@,
                has_invalid(gi@) || has_invalid(mi@),
                "0Ki"@,
                "Ki"@,
            ),
            final(self).mem_ki@ == old(self).mem_ki@,
            final(self).cpu_cores@ == old(self).cpu_cores@,
            final(self).cpu_milli@ == old(self).cpu_milli@,
            final(self).cpu@ == old(self).cpu@,
    {
        let failed = says_invalid(&gi) || says_invalid(&mi);
        self.mem_mi = mi;
        self.mem_gi = gi;
        self.mem = if self.mem_ki.as_str().is_empty() || failed {
            text_of("0Ki")
        } else {
            trimmed_with(&self.mem_ki, "Ki")
        };
    }
}

/// The `resources:` block for the given request and limit values.
pub open spec fn resources_yaml(req_cpu: Seq<char>, req_mem: Seq<char>, lim_cpu: Seq<char>, lim_mem: Seq<char>) -> Seq<char> {
    "resources:\n  requests:\n    cpu: \""@ + req_cpu + "\"\n    memory: \""@ + req_mem
        + "\"\n  limits:\n    cpu: \""@ + lim_cpu + "\"\n    memory: \""@ + lim_mem + "\"\n"@
}

impl ResConverterWindow {
    /// A closed window with a request of one core and 1Gi and a limit of
    /// two cores and 2Gi.
    pub fn default() -> (r: Self)
        ensures
            !r.show,
            r.requests.cpu@ == "1"@,
            r.limits.cpu@ == "2"@,
            r.requests.mem@ == "1Gi"@,
            r.limits.mem@ == "2Gi"@,
            r.requests.cpu_cores@ == "1"@,
            r.requests.cpu_milli@ == "1000m"@,
            r.requests.mem_ki@ == "1048576Ki"@,
            r.requests.mem_mi@ == "1024Mi"@,
            r.requests.mem_gi@ == "1Gi"@,
            r.limits.cpu_cores@ == "1"@,
            r.limits.cpu_milli@ == "1000m"@,
            r.limits.mem_ki@ == "2097152Ki"@,
            r.limits.mem_mi@ == "1024Mi"@,
            r.limits.mem_gi@ == "2Gi"@,
            r.yaml_preview@.len() == 0,
    {
        ResConverterWindow {
            requests: ResourceFields {
                cpu_cores: text_of("1"),
                cpu_milli: text_of("1000m"),
                mem_ki: text_of("1048576Ki"),
                mem_mi: text_of("1024Mi"),
                mem_gi: text_of("1Gi"),
                cpu: text_of("1"),
                mem: text_of("1Gi"),
            },
            limits: ResourceFields {
                cpu_cores: text_of("1"),
                cpu_milli: text_of("1000m"),
                mem_ki: text_of("2097152Ki"),
                mem_mi: text_of("1024Mi"),
                mem_gi: text_of("2Gi"),
                cpu: text_of("2"),
                mem: text_of("2Gi"),
            },
            yaml_preview: String::new(),
            show: false,
        }
    }

    /// Rewrites the YAML preview from the current values.
    pub fn update_preview(&mut self)
        ensures
            final(self).yaml_preview@ == resources_yaml(
                old(self).requests.cpu@,
                old(self).requests.mem@,
                old(self).limits.cpu@,
                old(self).limits.mem@,
            ),
            final(self).requests == old(self).requests,
            final(self).limits == old(self).limits,
            final(self).show == old(self).show,
    {
        let mut v = chars_of("resources:\n  requests:\n    cpu: \"");
        append_str(&mut v, self.requests.cpu.as_str());
        append_str(&mut v, "\"\n    memory: \"");
        append_str(&mut v, self.requests.mem.as_str());
        append_str(&mut v, "\"\n  limits:\n    cpu: \"");
        append_str(&mut v, self.limits.cpu.as_str());
        append_str(&mut v, "\"\n    memory: \"");
        append_str(&mut v, self.limits.mem.as_str());
        append_str(&mut v, "\"\n");
        self.yaml_preview = string_of(&v);
    }
}

} // verus!

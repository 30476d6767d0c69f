//! The latest released Kubernetes version: parsing its minor number and the
//! decisions of the background task that looks it up.
use crate::text::{
    chars_of, parse_u32, parse_u32_chars, split, split_chars, trim, trim_chars, views,
};
use vstd::prelude::*;

verus! {

/// Seconds the lookup waits before it tries again.
pub const RETRY_SECS: u64 = 60;

/// `s` without its leading `v`/`V` characters.
pub open spec fn trim_start_v(s: Seq<char>) -> Seq<char>
    decreases s.len(),
{
    if s.len() > 0 && (s[0] == 'v' || s[0] == 'V') {
        trim_start_v(s.drop_first())
    } else {
        s
    }
}

/// The minor number of a version tag such as `v1.34.2`: the second
/// `.`-separated field after trimming white space and leading `v`s, read as
/// a `u32`.
pub open spec fn k8s_minor(version: Seq<char>) -> Option<u32> {
    let parts = split(trim_start_v(trim(version)), '.');
    if parts.len() >= 2 {
        parse_u32(parts[1])
    } else {
        None
    }
}

/// Minor version number of a Kubernetes version tag (`"v1.34.1"` gives 34).
pub fn parse_k8s_minor(version: &str) -> (r: Option<u32>)
    ensures
        r == k8s_minor(version@),
{
    let all = chars_of(version);
    let t = trim_chars(&all);
    let mut lo: usize = 0;
    assert(t@.skip(0) == t@);
    while lo < t.len() && (t[lo] == 'v' || t[lo] == 'V')
        invariant
            lo <= t.len(),
            trim_start_v(t@) == trim_start_v(t@.skip(lo as int)),
        decreases t.len() - lo,
    {
        assert(t@.skip(lo as int).drop_first() == t@.skip(lo as int + 1));
        lo = lo + 1;
    }
    assert(trim_start_v(t@) == t@.skip(lo as int));
    let s = crate::text::slice_chars(&t, lo, t.len());
    assert(s@ == t@.skip(lo as int));
    let parts = split_chars(&s, '.');
    if parts.len() < 2 {
        return None;
    }
    assert(views(parts@)[1] == parts@[1]@);
    parse_u32_chars(&parts[1])
}

/// What one attempt to read the latest release brought back.
pub enum ReleaseFetch {
    /// The release record named this tag.
    Found(String),
    /// The reply came, but held no tag name.
    Missing,
    /// The request failed.
    Failed,
}

/// What the lookup task does next.
#[derive(PartialEq, Eq, Structural, Debug)]
pub enum FetchStep {
    /// The version is known: stop, recording its minor number if it has one.
    Stop { minor: Option<u32> },
    /// Try again after the given number of seconds.
    Retry { wait_secs: u64 },
}

/// The latest Kubernetes release version known so far.
pub struct KubernetesVersionFetcher {
    version: Option<String>,
}

impl KubernetesVersionFetcher {
    /// The version known so far, as characters.
    pub closed spec fn known(&self) -> Option<Seq<char>> {
        match self.version {
            Some(v) => Some(v@),
            None => None,
        }
    }

    /// A fetcher that knows no version yet.
    pub fn new() -> (r: Self)
        ensures
            r.known() is None,
    {
        KubernetesVersionFetcher { version: None }
    }

    /// The latest version, or `None` while it is not known.
    pub fn get_version(&self) -> (r: Option<String>)
        ensures
            r matches Some(v) ==> self.known() == Some(v@),
            r is None <==> self.known() is None,
    {
        match &self.version {
            Some(v) => Some(v.clone()),
            None => None,
        }
    }

    /// Takes in the outcome of one lookup attempt and says what to do next.
    /// A known version is never forgotten, and the lookup stops exactly when
    /// a version was found.
    pub fn on_fetch(&mut self, outcome: ReleaseFetch) -> (step: FetchStep)
        ensures
            match outcome {
                ReleaseFetch::Found(tag) => {
                    &&& final(self).known() == Some(tag@)
                    &&& step == FetchStep::Stop { minor: k8s_minor(tag@) }
                },
                _ => {
                    &&& final(self).known() == old(self).known()
                    &&& step == FetchStep::Retry { wait_secs: RETRY_SECS }
                },
            },
            old(self).known() is Some ==> final(self).known() is Some,
            step is Stop <==> final(self).known() is Some && outcome is Found,
    {
        match outcome {
            ReleaseFetch::Found(tag) => {
                let minor = parse_k8s_minor(tag.as_str());
                self.version = Some(tag);
                FetchStep::Stop { minor }
            },
            _ => FetchStep::Retry { wait_secs: RETRY_SECS },
        }
    }
}

} // verus!

use vstd::prelude::*;

verus! {

/// Where the status of the DNS state machine stands.
#[derive(PartialEq, Eq, Structural, Clone, Copy, Debug, Hash)]
pub enum AppState {
    Loading,
    Success,
    Error,
}

impl Default for AppState {
    fn default() -> (r: AppState)
        ensures
            r == AppState::Loading,
    {
        AppState::Loading
    }
}

/// The category of a DNS server list: unknown, a known provider, or the
/// user's custom list.
#[derive(PartialEq, Eq, Structural, Clone, Copy, Debug, Hash)]
pub enum DnsType {
    Unknown,
    Google,
    Custom,
}

impl Default for DnsType {
    fn default() -> (r: DnsType)
        ensures
            r == DnsType::Unknown,
    {
        DnsType::Unknown
    }
}

/// A provider identifier is any category but `Unknown` and `Custom`.
pub open spec fn is_provider(t: DnsType) -> bool {
    t != DnsType::Unknown && t != DnsType::Custom
}

/// The user's custom DNS entry: an ordered server list and a display label.
pub struct DnsConfig {
    pub custom_dns: Vec<String>,
    pub custom_dns_name: String,
}

/// Fired after a completed transition of the DNS state machine.
pub struct ListChangedEvent {}

/// The contents of an ordered list of strings, as character sequences.
pub open spec fn strings_view(v: Seq<String>) -> Seq<Seq<char>> {
    v.map_values(|s: String| s@)
}

/// Order-sensitive equality of two server lists.
pub fn lists_equal(a: &Vec<String>, b: &Vec<String>) -> (r: bool)
    ensures
        r == (strings_view(a@) == strings_view(b@)),
{
    if a.len() != b.len() {
        assert(strings_view(a@).len() != strings_view(b@).len());
        return false;
    }
    let mut i: usize = 0;
    while i < a.len()
        invariant
            a.len() == b.len(),
            0 <= i <= a.len(),
            forall|j: int| 0 <= j < i ==> #[trigger] a@[j]@ == b@[j]@,
        decreases a.len() - i,
    {
        if a[i] != b[i] {
            assert(strings_view(a@)[i as int] != strings_view(b@)[i as int]);
            return false;
        }
        i = i + 1;
    }
    assert(strings_view(a@) =~= strings_view(b@));
    true
}

/// A copy of a server list with the same contents.
pub fn copy_list(v: &Vec<String>) -> (r: Vec<String>)
    ensures
        r@ == v@,
{
    let mut r: Vec<String> = Vec::new();
    let mut i: usize = 0;
    while i < v.len()
        invariant
            0 <= i <= v.len(),
            r@ == v@.subrange(0, i as int),
        decreases v.len() - i,
    {
        r.push(v[i].clone());
        i = i + 1;
    }
    assert(r@ =~= v@);
    r
}

} // verus!

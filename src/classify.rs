use vstd::prelude::*;
use vstd::string::*;
use crate::types::{DnsType, DnsConfig, is_provider, strings_view, lists_equal, copy_list};

verus! {

/// A provider table as data: each entry pairs an identifier with its servers.
pub type TableView = Seq<(DnsType, Seq<Seq<char>>)>;

/// `i` is the first entry of `t` whose identifier is `id`.
pub open spec fn first_with_id(t: TableView, id: DnsType, i: int) -> bool {
    0 <= i < t.len() && t[i].0 == id && forall|j: int| 0 <= j < i ==> t[j].0 != id
}

/// `i` is the first entry of `t` whose server list is `l`.
pub open spec fn first_with_list(t: TableView, l: Seq<Seq<char>>, i: int) -> bool {
    0 <= i < t.len() && t[i].1 == l && forall|j: int| 0 <= j < i ==> t[j].1 != l
}

/// The servers of provider `id`.
pub open spec fn lookup_spec(t: TableView, id: DnsType) -> Option<Seq<Seq<char>>> {
    if exists|i: int| 0 <= i < t.len() && t[i].0 == id {
        Some(t[choose|i: int| first_with_id(t, id, i)].1)
    } else {
        None
    }
}

/// The first provider whose server list is order-equal to `l`.
pub open spec fn reverse_lookup_spec(t: TableView, l: Seq<Seq<char>>) -> Option<DnsType> {
    if exists|i: int| 0 <= i < t.len() && t[i].1 == l {
        Some(t[choose|i: int| first_with_list(t, l, i)].0)
    } else {
        None
    }
}

/// The category of `l`: the custom list first, then the providers in table
/// order, else unknown.
pub open spec fn classify_spec(l: Seq<Seq<char>>, custom: Seq<Seq<char>>, t: TableView) -> DnsType {
    if l == custom {
        DnsType::Custom
    } else {
        match reverse_lookup_spec(t, l) {
            Some(id) => id,
            None => DnsType::Unknown,
        }
    }
}

/// The mapping from provider identifiers to their server lists.
pub struct ProviderTable {
    entries: Vec<(DnsType, Vec<String>)>,
}

impl View for ProviderTable {
    type V = TableView;

    closed spec fn view(&self) -> TableView {
        self.entries@.map_values(|e: (DnsType, Vec<String>)| (e.0, strings_view(e.1@)))
    }
}

impl ProviderTable {
    /// Every key is a provider identifier and no key appears twice.
    pub open spec fn wf(&self) -> bool {
        &&& forall|i: int| 0 <= i < self@.len() ==> is_provider(#[trigger] self@[i].0)
        &&& forall|i: int, j: int|
            0 <= i < j < self@.len() ==> #[trigger] self@[i].0 != #[trigger] self@[j].0
    }

    /// A table without entries.
    pub fn new() -> (r: ProviderTable)
        ensures
            r.wf(),
            r@.len() == 0,
    {
        let r = ProviderTable { entries: Vec::new() };
        assert(r@ =~= Seq::<(DnsType, Seq<Seq<char>>)>::empty());
        r
    }

    /// The table of built-in providers: Google's two public resolvers.
    pub fn builtin() -> (r: ProviderTable)
        ensures
            r.wf(),
            r@ == seq![(DnsType::Google, seq!["8.8.8.8"@, "8.8.4.4"@])],
            lookup_spec(r@, DnsType::Google) == Some(seq!["8.8.8.8"@, "8.8.4.4"@]),
            reverse_lookup_spec(r@, seq!["8.8.8.8"@, "8.8.4.4"@]) == Some(DnsType::Google),
    {
        let mut servers: Vec<String> = Vec::new();
        servers.push(String::from_str("8.8.8.8"));
        servers.push(String::from_str("8.8.4.4"));
        let mut entries: Vec<(DnsType, Vec<String>)> = Vec::new();
        entries.push((DnsType::Google, servers));
        let r = ProviderTable { entries };
        assert(strings_view(servers@) =~= seq!["8.8.8.8"@, "8.8.4.4"@]);
        assert(r@ =~= seq![(DnsType::Google, seq!["8.8.8.8"@, "8.8.4.4"@])]);
        assert(first_with_id(r@, DnsType::Google, 0));
        assert(first_with_list(r@, seq!["8.8.8.8"@, "8.8.4.4"@], 0));
        r
    }

    fn index_of(&self, id: DnsType) -> (r: Option<usize>)
        ensures
            match r {
                Some(i) => first_with_id(self@, id, i as int),
                None => forall|i: int| 0 <= i < self@.len() ==> self@[i].0 != id,
            },
    {
        let mut i: usize = 0;
        while i < self.entries.len()
            invariant
                0 <= i <= self@.len(),
                self@.len() == self.entries@.len(),
                forall|j: int| 0 <= j < i ==> self@[j].0 != id,
            decreases self@.len() - i,
        {
            if self.entries[i].0 == id {
                return Some(i);
            }
            i = i + 1;
        }
        None
    }

    /// The servers of provider `id`, if the table holds it.
    pub fn lookup(&self, id: DnsType) -> (r: Option<Vec<String>>)
        ensures
            match r {
                Some(v) => lookup_spec(self@, id) == Some(strings_view(v@)),
                None => lookup_spec(self@, id) is None,
            },
    {
        match self.index_of(id) {
            Some(i) => {
                proof {
                    let c = choose|c: int| first_with_id(self@, id, c);
                    assert(c == i as int) by {
                        if c < i {
                        } else if c > i {
                        }
                    }
                }
                Some(copy_list(&self.entries[i].1))
            },
            None => None,
        }
    }

    /// The first provider whose server list is order-equal to `list`.
    pub fn reverse_lookup(&self, list: &Vec<String>) -> (r: Option<DnsType>)
        ensures
            r == reverse_lookup_spec(self@, strings_view(list@)),
    {
        let ghost l = strings_view(list@);
        let mut i: usize = 0;
        while i < self.entries.len()
            invariant
                0 <= i <= self@.len(),
                self@.len() == self.entries@.len(),
                l == strings_view(list@),
                forall|j: int| 0 <= j < i ==> self@[j].1 != l,
            decreases self@.len() - i,
        {
            assert(self@[i as int].1 == strings_view(self.entries@[i as int].1@));
            let same = lists_equal(&self.entries[i].1, list);
            if same {
                proof {
                    assert(first_with_list(self@, l, i as int));
                    let c = choose|c: int| first_with_list(self@, l, c);
                    assert(c == i as int) by {
                        if c < i {
                        } else if c > i {
                        }
                    }
                }
                return Some(self.entries[i].0);
            }
            i = i + 1;
        }
        None
    }
}

/// The category of `list` against the user's custom list and the providers.
pub fn classify(list: &Vec<String>, config: &DnsConfig, table: &ProviderTable) -> (r: DnsType)
    ensures
        r == classify_spec(strings_view(list@), strings_view(config.custom_dns@), table@),
{
    if lists_equal(list, &config.custom_dns) {
        return DnsType::Custom;
    }
    match table.reverse_lookup(list) {
        Some(id) => id,
        None => DnsType::Unknown,
    }
}

/// Classification goes by exact order: a list that is order-equal neither to
/// the custom list nor to any provider's list is unknown, whatever elements it
/// shares with them.
pub proof fn lemma_unmatched_list_is_unknown(l: Seq<Seq<char>>, custom: Seq<Seq<char>>, t: TableView)
    requires
        l != custom,
        forall|i: int| 0 <= i < t.len() ==> t[i].1 != l,
    ensures
        classify_spec(l, custom, t) == DnsType::Unknown,
{
}

/// Reordering a list can change its category: a two-server custom list is
/// custom, and its reversal is unknown where no provider lists the reversal.
pub proof fn lemma_reordering_changes_category(a: Seq<char>, b: Seq<char>, t: TableView)
    requires
        a != b,
        forall|i: int| 0 <= i < t.len() ==> t[i].1 != seq![b, a],
    ensures
        classify_spec(seq![a, b], seq![a, b], t) == DnsType::Custom,
        classify_spec(seq![b, a], seq![a, b], t) == DnsType::Unknown,
{
    assert(seq![b, a][0] != seq![a, b][0]);
}

/// The custom list takes precedence: a list equal to the custom list is
/// custom even where a provider lists exactly the same servers.
pub proof fn lemma_custom_takes_precedence(l: Seq<Seq<char>>, custom: Seq<Seq<char>>, t: TableView, i: int)
    requires
        0 <= i < t.len(),
        t[i].1 == custom,
        l == custom,
    ensures
        classify_spec(l, custom, t) == DnsType::Custom,
        reverse_lookup_spec(t, l) is Some,
{
}

/// A list that is not the custom list and that a provider lists is
/// classified as the first such provider.
pub proof fn lemma_first_matching_provider(l: Seq<Seq<char>>, custom: Seq<Seq<char>>, t: TableView, i: int)
    requires
        l != custom,
        first_with_list(t, l, i),
    ensures
        classify_spec(l, custom, t) == t[i].0,
{
    let c = choose|c: int| first_with_list(t, l, c);
    assert(c == i) by {
        if c < i {
        } else if c > i {
        }
    }
}

/// An empty list is unknown where the custom list is not empty and no
/// provider has an empty list.
pub proof fn lemma_empty_list_is_unknown(custom: Seq<Seq<char>>, t: TableView)
    requires
        custom.len() > 0,
        forall|i: int| 0 <= i < t.len() ==> t[i].1.len() > 0,
    ensures
        classify_spec(Seq::empty(), custom, t) == DnsType::Unknown,
{
}

} // verus!

use vstd::prelude::*;
use crate::types::{AppState, DnsType, DnsConfig, ListChangedEvent, strings_view, copy_list};
use crate::classify::{ProviderTable, TableView, classify, classify_spec, lookup_spec};
use crate::dns::{QueryError, ApplyError};

verus! {

/// What the DNS state holds, as mathematical values.
pub struct AppDataView {
    pub status: AppState,
    pub servers: Seq<Seq<char>>,
    pub kind: DnsType,
    pub custom: Seq<Seq<char>>,
    pub custom_name: Seq<char>,
    pub table: TableView,
    pub generation: u64,
}

/// The generation after `g`; it wraps around after the largest value.
pub open spec fn next_generation(g: u64) -> u64 {
    if g == u64::MAX {
        0
    } else {
        (g + 1) as u64
    }
}

/// `new` is `old` with an operation started: a fresh generation, status
/// loading, no servers shown and no category, the configuration kept.
pub open spec fn started(old: AppDataView, new: AppDataView) -> bool {
    &&& new.status == AppState::Loading
    &&& new.servers.len() == 0
    &&& new.kind == DnsType::Unknown
    &&& new.generation == next_generation(old.generation)
    &&& new.custom == old.custom
    &&& new.custom_name == old.custom_name
    &&& new.table == old.table
}

/// `new` is `old` with an apply run started: a fresh generation, so that any
/// query still outstanding is discarded, and everything shown kept.
pub open spec fn apply_started(old: AppDataView, new: AppDataView) -> bool {
    new == (AppDataView { generation: next_generation(old.generation), ..old })
}

/// Why a switch could not be resolved to a server list.
#[derive(PartialEq, Eq, Structural, Clone, Copy, Debug)]
pub enum SwitchError {
    /// The target is neither the custom list nor a provider of the table.
    UnknownProvider,
}

/// The DNS state: status, the servers shown and their category, the user's
/// custom entry and the provider table. Query and apply runs happen outside;
/// their results come back through the `finish_` methods.
pub struct AppData {
    dns_list: Vec<String>,
    app_state: AppState,
    dns_type: DnsType,
    config: DnsConfig,
    providers: ProviderTable,
    generation: u64,
}

impl View for AppData {
    type V = AppDataView;

    closed spec fn view(&self) -> AppDataView {
        AppDataView {
            status: self.app_state,
            servers: strings_view(self.dns_list@),
            kind: self.dns_type,
            custom: strings_view(self.config.custom_dns@),
            custom_name: self.config.custom_dns_name@,
            table: self.providers@,
            generation: self.generation,
        }
    }
}

impl AppData {
    /// The servers shown are those of the last successful query, and their
    /// category is derived from them. While loading nothing is shown; after a
    /// failure either nothing is shown or what was shown before it stays.
    pub closed spec fn wf(&self) -> bool {
        &&& self.providers.wf()
        &&& self@.status == AppState::Success ==> self@.kind == classify_spec(
            self@.servers,
            self@.custom,
            self@.table,
        )
        &&& self@.status == AppState::Loading ==> (self@.servers.len() == 0 && self@.kind
            == DnsType::Unknown)
        &&& self@.status == AppState::Error ==> (self@.kind == classify_spec(
            self@.servers,
            self@.custom,
            self@.table,
        ) || (self@.servers.len() == 0 && self@.kind == DnsType::Unknown))
    }

    fn advance_generation(&mut self) -> (g: u64)
        requires
            old(self).wf(),
        ensures
            final(self).wf(),
            apply_started(old(self)@, final(self)@),
            g == final(self)@.generation,
    {
        self.generation = if self.generation == u64::MAX {
            0
        } else {
            self.generation + 1
        };
        self.generation
    }

    /// A state that waits for its first query: loading, nothing shown.
    pub fn new(config: DnsConfig, providers: ProviderTable) -> (r: AppData)
        requires
            providers.wf(),
        ensures
            r.wf(),
            r@.status == AppState::Loading,
            r@.servers.len() == 0,
            r@.kind == DnsType::Unknown,
            r@.custom == strings_view(config.custom_dns@),
            r@.custom_name == config.custom_dns_name@,
            r@.table == providers@,
            r@.generation == 0,
    {
        let r = AppData {
            dns_list: Vec::new(),
            app_state: AppState::Loading,
            dns_type: DnsType::Unknown,
            config,
            providers,
            generation: 0,
        };
        assert(r@.servers =~= Seq::<Seq<char>>::empty());
        r
    }

    /// Starts a refresh: the shown servers are dropped at once and the
    /// returned generation tags the query that the caller now runs.
    pub fn start_loading_dns(&mut self) -> (g: u64)
        requires
            old(self).wf(),
        ensures
            final(self).wf(),
            started(old(self)@, final(self)@),
            g == final(self)@.generation,
    {
        self.dns_list = Vec::new();
        self.app_state = AppState::Loading;
        self.dns_type = DnsType::Unknown;
        self.generation = if self.generation == u64::MAX {
            0
        } else {
            self.generation + 1
        };
        assert(self@.servers =~= Seq::<Seq<char>>::empty());
        self.generation
    }

    /// Takes the outcome of the query tagged `generation`. An outcome of an
    /// earlier generation is discarded; otherwise a list is shown with its
    /// category and any failure shows the error status with nothing else.
    /// Returns the change notification where the state changed.
    pub fn finish_loading_dns(&mut self, generation: u64, result: Result<Vec<String>, QueryError>) -> (r: Option<ListChangedEvent>)
        requires
            old(self).wf(),
        ensures
            final(self).wf(),
            generation != old(self)@.generation ==> (final(self)@ == old(self)@ && r is None),
            generation == old(self)@.generation ==> r is Some && final(self)@.generation
                == old(self)@.generation && final(self)@.custom == old(self)@.custom
                && final(self)@.custom_name == old(self)@.custom_name && final(self)@.table
                == old(self)@.table && match result {
                Ok(v) => {
                    &&& final(self)@.status == AppState::Success
                    &&& final(self)@.servers == strings_view(v@)
                    &&& final(self)@.kind == classify_spec(
                        strings_view(v@),
                        old(self)@.custom,
                        old(self)@.table,
                    )
                },
                Err(_) => {
                    &&& final(self)@.status == AppState::Error
                    &&& final(self)@.servers.len() == 0
                    &&& final(self)@.kind == DnsType::Unknown
                },
            },
    {
        if generation != self.generation {
            return None;
        }
        match result {
            Ok(v) => {
                self.dns_type = classify(&v, &self.config, &self.providers);
                self.dns_list = v;
                self.app_state = AppState::Success;
            },
            Err(_) => {
                self.dns_list = Vec::new();
                self.dns_type = DnsType::Unknown;
                self.app_state = AppState::Error;
                assert(self@.servers =~= Seq::<Seq<char>>::empty());
            },
        }
        Some(ListChangedEvent {  })
    }

    /// Starts a return to automatic resolution: returns the empty list that
    /// the caller now applies. What is shown stays until the apply's outcome.
    pub fn clear_dns(&mut self) -> (r: Vec<String>)
        requires
            old(self).wf(),
        ensures
            final(self).wf(),
            apply_started(old(self)@, final(self)@),
            r@.len() == 0,
    {
        self.advance_generation();
        Vec::new()
    }

    /// Starts a switch to the custom list or to a provider of the table:
    /// returns the server list that the caller now applies. What is shown
    /// stays until the apply's outcome. Any other target is refused and
    /// leaves the state as it was.
    pub fn set_dns_type(&mut self, t: &DnsType) -> (r: Result<Vec<String>, SwitchError>)
        requires
            old(self).wf(),
        ensures
            final(self).wf(),
            *t == DnsType::Custom ==> r is Ok && strings_view(r->Ok_0@) == old(self)@.custom,
            *t != DnsType::Custom && lookup_spec(old(self)@.table, *t) is Some ==> r is Ok
                && strings_view(r->Ok_0@) == lookup_spec(old(self)@.table, *t)->0,
            *t != DnsType::Custom && lookup_spec(old(self)@.table, *t) is None ==> r == Err::<
                Vec<String>,
                SwitchError,
            >(SwitchError::UnknownProvider),
            r is Ok ==> apply_started(old(self)@, final(self)@),
            r is Err ==> final(self)@ == old(self)@,
    {
        let servers = match *t {
            DnsType::Custom => copy_list(&self.config.custom_dns),
            _ => match self.providers.lookup(*t) {
                Some(v) => v,
                None => {
                    return Err(SwitchError::UnknownProvider);
                },
            },
        };
        self.advance_generation();
        Ok(servers)
    }

    /// Takes the outcome of an apply run. On success a refresh starts and its
    /// generation is returned; on failure only the status changes, to error,
    /// and no refresh is attempted.
    pub fn finish_apply(&mut self, result: Result<(), ApplyError>) -> (r: Option<u64>)
        requires
            old(self).wf(),
        ensures
            final(self).wf(),
            result is Ok ==> r == Some(final(self)@.generation) && started(old(self)@, final(self)@),
            result is Err ==> r is None && final(self)@ == (AppDataView {
                status: AppState::Error,
                ..old(self)@
            }),
    {
        match result {
            Ok(()) => Some(self.start_loading_dns()),
            Err(_) => {
                self.app_state = AppState::Error;
                None
            },
        }
    }

    /// The servers shown.
    pub fn dns_list(&self) -> (r: &Vec<String>)
        ensures
            strings_view(r@) == self@.servers,
    {
        &self.dns_list
    }

    /// The status.
    pub fn app_state(&self) -> (r: AppState)
        ensures
            r == self@.status,
    {
        self.app_state
    }

    /// The category of the servers shown.
    pub fn dns_type(&self) -> (r: DnsType)
        ensures
            r == self@.kind,
    {
        self.dns_type
    }

    /// The display label of the custom entry.
    pub fn custom_dns_name(&self) -> (r: &String)
        ensures
            r@ == self@.custom_name,
    {
        &self.config.custom_dns_name
    }

    /// The generation of the latest operation started.
    pub fn generation(&self) -> (r: u64)
        ensures
            r == self@.generation,
    {
        self.generation
    }
}

/// In every reachable state the category shown is the classification of the
/// servers shown, or nothing is shown: while loading nothing is shown, and
/// after a failure either nothing is shown or the servers shown before it
/// stay with their category.
pub proof fn lemma_shown_state_is_consistent(d: &AppData)
    requires
        d.wf(),
    ensures
        d@.status == AppState::Success ==> d@.kind == classify_spec(d@.servers, d@.custom, d@.table),
        d@.status == AppState::Loading ==> d@.servers.len() == 0 && d@.kind == DnsType::Unknown,
        d@.status == AppState::Error ==> d@.kind == classify_spec(d@.servers, d@.custom, d@.table)
            || (d@.servers.len() == 0 && d@.kind == DnsType::Unknown),
{
}

} // verus!

//! Identity, status and statistics of watch sessions, and the decisions of
//! the generic resource watcher.
use vstd::prelude::*;
use vstd::relations::sorted_by;
use crate::errors::K8sError;
use crate::k8s::resource_registry::{core_registry, is_core_resource_type, MetadataView};
use crate::ordering::{
    join_strings, lemma_lex_total_ordering, lex_order, push_str, seq_join, sort_strings, views,
};
use crate::table::{all_values_of, lemma_drained_values, one_for_each, related_in_order, KeyedTable};
use crate::text::{owned, str_eq};

verus! {

/// The namespaces of a watch request; none means all namespaces.
pub open spec fn requested_namespaces(namespaces: Option<Vec<String>>) -> Seq<Seq<char>> {
    match namespaces {
        Some(v) => views(v@),
        None => Seq::empty(),
    }
}

/// The key of a watch on `resource_type` over the namespaces `ns`:
/// `type:all` when no namespace is named, `type:ns1,ns2,...` otherwise.
pub open spec fn watch_key_text(resource_type: Seq<char>, ns: Seq<Seq<char>>) -> Seq<char> {
    if ns.len() == 0 {
        resource_type + ":all"@
    } else {
        resource_type + ":"@ + seq_join(ns, ","@)
    }
}

/// Identifier for a watch session.
#[derive(Debug, Clone, PartialEq, Eq, Hash)]
pub struct WatchId {
    pub resource_type: String,
    /// Empty means all namespaces.
    pub namespaces: Vec<String>,
}

impl WatchId {
    /// The identifier of a watch on `resource_type` over `namespaces`, with
    /// the namespaces put in order so that the same set of namespaces always
    /// gives the same identifier.
    pub fn new(resource_type: String, namespaces: Option<Vec<String>>) -> (r: Self)
        ensures
            r.resource_type@ == resource_type@,
            views(r.namespaces@) == requested_namespaces(namespaces).sort_by(lex_order()),
    {
        let ghost requested = requested_namespaces(namespaces);
        let ns = match namespaces {
            Some(v) => v,
            None => Vec::new(),
        };
        assert(views(ns@) =~= requested);
        let sorted = sort_strings(ns);
        proof {
            lemma_lex_total_ordering();
            requested.lemma_sort_by_ensures(lex_order());
            vstd::seq_lib::lemma_sorted_unique(
                views(sorted@),
                requested.sort_by(lex_order()),
                lex_order(),
            );
        }
        WatchId { resource_type, namespaces: sorted }
    }

    /// The key of this watch: `type:all`, or `type:` followed by the
    /// namespaces joined by commas.
    pub fn to_key(&self) -> (r: String)
        ensures
            r@ == watch_key_text(self.resource_type@, views(self.namespaces@)),
    {
        let mut r = owned(self.resource_type.as_str());
        if self.namespaces.len() == 0 {
            push_str(&mut r, ":all");
        } else {
            push_str(&mut r, ":");
            let joined = join_strings(&self.namespaces, ",");
            push_str(&mut r, joined.as_str());
            assert(r@ =~= self.resource_type@ + ":"@ + seq_join(views(self.namespaces@), ","@));
        }
        r
    }
}

/// Requests for the same resource type over the same namespaces, named in
/// any order, get the same watch identifier and so the same key.
pub proof fn lemma_watch_key_ignores_namespace_order(
    resource_type: Seq<char>,
    a: Seq<Seq<char>>,
    b: Seq<Seq<char>>,
)
    requires
        a.to_multiset() == b.to_multiset(),
    ensures
        a.sort_by(lex_order()) == b.sort_by(lex_order()),
        watch_key_text(resource_type, a.sort_by(lex_order())) == watch_key_text(
            resource_type,
            b.sort_by(lex_order()),
        ),
{
    lemma_lex_total_ordering();
    a.lemma_sort_by_ensures(lex_order());
    b.lemma_sort_by_ensures(lex_order());
    vstd::seq_lib::lemma_sorted_unique(a.sort_by(lex_order()), b.sort_by(lex_order()), lex_order());
}

/// Status of a watch session.
#[derive(Debug, Clone, PartialEq)]
pub enum WatchStatus {
    Starting,
    Active,
    Stopping,
    Stopped,
    Failed(String),
}

/// The name under which a status is counted.
pub open spec fn status_name(s: WatchStatus) -> Seq<char> {
    match s {
        WatchStatus::Starting => "starting"@,
        WatchStatus::Active => "active"@,
        WatchStatus::Stopping => "stopping"@,
        WatchStatus::Stopped => "stopped"@,
        WatchStatus::Failed(_) => "failed"@,
    }
}

impl WatchStatus {
    /// The name under which this status is counted.
    pub fn name(&self) -> (r: &'static str)
        ensures
            r@ == status_name(*self),
    {
        match self {
            WatchStatus::Starting => "starting",
            WatchStatus::Active => "active",
            WatchStatus::Stopping => "stopping",
            WatchStatus::Stopped => "stopped",
            WatchStatus::Failed(_) => "failed",
        }
    }
}

/// How often `k` occurs in `keys`.
pub open spec fn count_of(keys: Seq<Seq<char>>, k: Seq<char>) -> nat {
    keys.filter(|x: Seq<char>| x == k).len()
}

/// How often each key occurs in `keys`; keys that do not occur are absent.
pub fn tally(keys: &Vec<String>) -> (r: KeyedTable<usize>)
    ensures
        forall|k: Seq<char>| #[trigger] r@.contains_key(k) <==> count_of(views(keys@), k) > 0,
        forall|k: Seq<char>| #[trigger] r@.contains_key(k) ==> r@[k] == count_of(views(keys@), k),
{
    let ghost ks = views(keys@);
    let mut r: KeyedTable<usize> = KeyedTable::new();
    let mut i: usize = 0;
    while i < keys.len()
        invariant
            i <= keys.len(),
            ks == views(keys@),
            forall|k: Seq<char>| #[trigger] r@.contains_key(k) <==> count_of(ks.take(i as int), k) > 0,
            forall|k: Seq<char>| #[trigger] r@.contains_key(k) ==> r@[k] == count_of(ks.take(i as int), k),
        decreases keys.len() - i,
    {
        let key = &keys[i];
        let ghost k0 = key@;
        proof {
            assert(ks.take(i + 1) =~= ks.take(i as int).push(k0));
            assert forall|k: Seq<char>| #[trigger] count_of(ks.take(i + 1), k) == count_of(ks.take(i as int), k) + (if k == k0 { 1nat } else { 0nat }) by {
                ks.take(i as int).lemma_filter_push(k0, |x: Seq<char>| x == k);
            }
        }
        let current: usize = match r.get(key.as_str()) {
            Some(c) => *c,
            None => 0,
        };
        proof {
            ks.take(i as int).lemma_filter_len(|x: Seq<char>| x == k0);
        }
        r.insert(owned(key.as_str()), current + 1);
        i = i + 1;
    }
    assert(ks.take(keys.len() as int) =~= ks);
    r
}

/// Statistics about active watches.
#[derive(Debug)]
pub struct WatchStatistics {
    pub total_watches: usize,
    pub by_status: KeyedTable<usize>,
    pub by_resource_type: KeyedTable<usize>,
}

/// The status names of a list of watches.
pub open spec fn status_names(watches: Seq<(WatchId, WatchStatus)>) -> Seq<Seq<char>> {
    watches.map_values(|w: (WatchId, WatchStatus)| status_name(w.1))
}

/// The resource types of a list of watches.
pub open spec fn watched_types(watches: Seq<(WatchId, WatchStatus)>) -> Seq<Seq<char>> {
    watches.map_values(|w: (WatchId, WatchStatus)| w.0.resource_type@)
}

/// The number of watches, and how many there are of each status and of
/// each resource type.
pub fn watch_statistics(watches: &Vec<(WatchId, WatchStatus)>) -> (r: WatchStatistics)
    ensures
        r.total_watches == watches@.len(),
        forall|k: Seq<char>|
            #[trigger] r.by_status@.contains_key(k) <==> count_of(status_names(watches@), k) > 0,
        forall|k: Seq<char>|
            #[trigger] r.by_status@.contains_key(k) ==> r.by_status@[k] == count_of(
                status_names(watches@),
                k,
            ),
        forall|k: Seq<char>|
            #[trigger] r.by_resource_type@.contains_key(k) <==> count_of(watched_types(watches@), k)
                > 0,
        forall|k: Seq<char>|
            #[trigger] r.by_resource_type@.contains_key(k) ==> r.by_resource_type@[k] == count_of(
                watched_types(watches@),
                k,
            ),
{
    let mut statuses: Vec<String> = Vec::new();
    let mut types: Vec<String> = Vec::new();
    let mut i: usize = 0;
    while i < watches.len()
        invariant
            i <= watches.len(),
            views(statuses@) == status_names(watches@).take(i as int),
            views(types@) == watched_types(watches@).take(i as int),
        decreases watches.len() - i,
    {
        let ghost s0 = statuses@;
        let ghost t0 = types@;
        let s = owned(watches[i].1.name());
        let t = owned(watches[i].0.resource_type.as_str());
        statuses.push(s);
        types.push(t);
        assert(views(statuses@) =~= views(s0).push(s@));
        assert(views(types@) =~= views(t0).push(t@));
        assert(status_names(watches@).take(i + 1) =~= status_names(watches@).take(i as int).push(
            status_name(watches@[i as int].1),
        ));
        assert(watched_types(watches@).take(i + 1) =~= watched_types(watches@).take(i as int).push(
            watches@[i as int].0.resource_type@,
        ));
        i = i + 1;
    }
    assert(status_names(watches@).take(watches.len() as int) =~= status_names(watches@));
    assert(watched_types(watches@).take(watches.len() as int) =~= watched_types(watches@));
    WatchStatistics {
        total_watches: watches.len(),
        by_status: tally(&statuses),
        by_resource_type: tally(&types),
    }
}

/// Generic watcher for the resource types of the core registry.
#[derive(Debug)]
pub struct GenericResourceWatcher;

impl GenericResourceWatcher {
    pub fn new() -> (r: Self) {
        GenericResourceWatcher
    }

    /// Whether this watcher can watch `resource_type`: it must be one of the
    /// core registered resource types.
    pub fn can_watch(&self, resource_type: &str) -> (r: bool)
        ensures
            r == core_registry().contains_key(resource_type@),
    {
        is_core_resource_type(resource_type)
    }

    /// The resource types this watcher handles: all registered ones.
    pub fn resource_type(&self) -> (r: &'static str)
        ensures
            r@ == "*"@,
    {
        "*"
    }

    /// Whether a watch over `id` is confined to its namespaces: only a
    /// namespaced resource type with namespaces named is; anything else is
    /// watched across the cluster.
    pub fn watches_namespaces(&self, metadata: &crate::k8s::resource_registry::ResourceMetadata, id: &WatchId) -> (r: bool)
        ensures
            r == (metadata@.is_namespaced && id.namespaces@.len() > 0),
    {
        metadata.is_namespaced && id.namespaces.len() > 0
    }
}

/// Default event processor: it stamps each event with the time it was
/// processed.
#[derive(Debug)]
pub struct DefaultEventProcessor;

/// The check a dispatcher makes before it starts a watch: the resource type
/// must be registered.
pub fn validate_watch_request(resource_type: &str) -> (r: Result<(), K8sError>)
    ensures
        match r {
            Ok(()) => core_registry().contains_key(resource_type@),
            Err(e) => !core_registry().contains_key(resource_type@) && (e matches K8sError::InvalidResourceType {
                resource_type: t,
            } && t@ == resource_type@),
        },
{
    if !is_core_resource_type(resource_type) {
        return Err(K8sError::InvalidResourceType { resource_type: owned(resource_type) });
    }
    Ok(())
}


impl WatchId {
    /// A copy of this identifier.
    pub fn duplicate(&self) -> (r: Self)
        ensures
            r.resource_type@ == self.resource_type@,
            views(r.namespaces@) == views(self.namespaces@),
    {
        WatchId {
            resource_type: owned(self.resource_type.as_str()),
            namespaces: crate::k8s::resource_registry::copy_strings(&self.namespaces),
        }
    }
}

impl WatchStatus {
    /// A copy of this status.
    pub fn duplicate(&self) -> (r: Self)
        ensures
            status_name(r) == status_name(*self),
            match (r, *self) {
                (WatchStatus::Failed(a), WatchStatus::Failed(b)) => a@ == b@,
                (x, y) => x == y || (x is Failed && y is Failed),
            },
    {
        match self {
            WatchStatus::Starting => WatchStatus::Starting,
            WatchStatus::Active => WatchStatus::Active,
            WatchStatus::Stopping => WatchStatus::Stopping,
            WatchStatus::Stopped => WatchStatus::Stopped,
            WatchStatus::Failed(m) => WatchStatus::Failed(owned(m.as_str())),
        }
    }
}

/// A running watch: what it watches, its status, when it started
/// (milliseconds since the epoch), how many events it received, and the
/// handle of its task.
#[derive(Debug)]
pub struct WatchSession<H> {
    pub id: WatchId,
    pub status: WatchStatus,
    pub started_at: i64,
    pub events_received: u64,
    pub handle: H,
}

/// Stopping a watch undoes starting it: when a watch on `resource_type`
/// over `namespaces` is recorded under the identifier that starting it
/// gave, a stop request for the same resource type over the same
/// namespaces, named in any order, finds it, and removing it leaves the
/// watches as they were before.
pub proof fn lemma_stop_undoes_start<H>(
    before: Map<Seq<char>, WatchSession<H>>,
    after: Map<Seq<char>, WatchSession<H>>,
    resource_type: Seq<char>,
    started_with: Seq<Seq<char>>,
    stopped_with: Seq<Seq<char>>,
    id: WatchId,
)
    requires
        started_with.to_multiset() == stopped_with.to_multiset(),
        id.resource_type@ == resource_type,
        views(id.namespaces@) == started_with.sort_by(lex_order()),
        !before.contains_key(id_key(id)),
        after.dom() == before.dom().insert(id_key(id)),
        forall|k: Seq<char>| k != id_key(id) && #[trigger] before.contains_key(k) ==> after[k] == before[k],
    ensures
        after.contains_key(watch_key_text(resource_type, stopped_with.sort_by(lex_order()))),
        after.remove(watch_key_text(resource_type, stopped_with.sort_by(lex_order()))) == before,
{
    lemma_watch_key_ignores_namespace_order(resource_type, started_with, stopped_with);
    assert(after.remove(id_key(id)) =~= before);
}

/// Whether an identifier and status report a session's: the same resource
/// type, namespaces and status.
pub open spec fn reports<H>(p: (WatchId, WatchStatus), s: WatchSession<H>) -> bool {
    &&& p.0.resource_type@ == s.id.resource_type@
    &&& views(p.0.namespaces@) == views(s.id.namespaces@)
    &&& status_name(p.1) == status_name(s.status)
    &&& match (p.1, s.status) {
        (WatchStatus::Failed(a), WatchStatus::Failed(b)) => a@ == b@,
        (x, y) => x == y,
    }
}

/// A session marked as stopping, otherwise unchanged.
pub open spec fn stopping<H>(s: WatchSession<H>) -> WatchSession<H> {
    WatchSession { status: WatchStatus::Stopping, ..s }
}

/// The key under which a watch identifier is tracked.
pub open spec fn id_key(id: WatchId) -> Seq<char> {
    watch_key_text(id.resource_type@, views(id.namespaces@))
}

/// How a request to start a watch is answered.
#[derive(Debug)]
pub enum WatchStart {
    /// The watch runs already; nothing is started.
    AlreadyActive,
    /// The watch is to be started under this identifier.
    Start(WatchId),
}

/// The watches that run, keyed by their identifiers' keys, and the
/// watchers that can start them.
#[derive(Debug)]
pub struct WatchLifecycleManager<H> {
    active_watches: KeyedTable<WatchSession<H>>,
    watchers: Vec<GenericResourceWatcher>,
}

impl<H> WatchLifecycleManager<H> {
    /// The running watches, by key.
    pub closed spec fn watches(&self) -> Map<Seq<char>, WatchSession<H>> {
        self.active_watches@
    }

    /// How many watchers are registered.
    pub closed spec fn watcher_count(&self) -> nat {
        self.watchers@.len()
    }

    /// No watches, and the generic watcher registered.
    pub fn new() -> (r: Self)
        ensures
            r.watches() == Map::<Seq<char>, WatchSession<H>>::empty(),
            r.watcher_count() == 1,
    {
        let mut watchers: Vec<GenericResourceWatcher> = Vec::new();
        watchers.push(GenericResourceWatcher::new());
        WatchLifecycleManager { active_watches: KeyedTable::new(), watchers }
    }

    /// Registers one more watcher.
    pub fn register_watcher(&mut self, watcher: GenericResourceWatcher)
        ensures
            final(self).watches() == old(self).watches(),
            final(self).watcher_count() == old(self).watcher_count() + 1,
    {
        self.watchers.push(watcher);
    }

    /// Answers a request to watch `resource_type` over `namespaces`: a watch
    /// that runs is left alone; otherwise a registered watcher must handle
    /// the type, or it is refused as invalid.
    pub fn start_watch(&self, resource_type: String, namespaces: Option<Vec<String>>) -> (r: Result<
        WatchStart,
        K8sError,
    >)
        ensures
            ({
                let key = watch_key_text(
                    resource_type@,
                    requested_namespaces(namespaces).sort_by(lex_order()),
                );
                if self.watches().contains_key(key) {
                    r matches Ok(WatchStart::AlreadyActive)
                } else if self.watcher_count() > 0 && core_registry().contains_key(resource_type@) {
                    r matches Ok(WatchStart::Start(id)) && id.resource_type@ == resource_type@ && views(
                        id.namespaces@,
                    ) == requested_namespaces(namespaces).sort_by(lex_order())
                } else {
                    r matches Err(K8sError::InvalidResourceType { resource_type: t }) && t@
                        == resource_type@
                }
            }),
    {
        let ghost sorted_ns = requested_namespaces(namespaces).sort_by(lex_order());
        let rt = owned(resource_type.as_str());
        let id = WatchId::new(resource_type, namespaces);
        let key = id.to_key();
        if self.active_watches.contains_key(key.as_str()) {
            return Ok(WatchStart::AlreadyActive);
        }
        let mut i: usize = 0;
        while i < self.watchers.len()
            invariant
                i <= self.watchers.len(),
                i > 0 ==> !core_registry().contains_key(rt@),
                id.resource_type@ == rt@,
                rt@ == resource_type@,
                views(id.namespaces@) == sorted_ns,
                sorted_ns == requested_namespaces(namespaces).sort_by(lex_order()),
                key@ == watch_key_text(rt@, sorted_ns),
                !self.watches().contains_key(key@),
            decreases self.watchers.len() - i,
        {
            if self.watchers[i].can_watch(rt.as_str()) {
                return Ok(WatchStart::Start(id));
            }
            i = i + 1;
        }
        Err(K8sError::InvalidResourceType { resource_type: rt })
    }

    /// Records a started watch as active, with no events yet.
    pub fn record_watch(&mut self, id: WatchId, handle: H, now: i64)
        ensures
            final(self).watcher_count() == old(self).watcher_count(),
            final(self).watches().dom() == old(self).watches().dom().insert(id_key(id)),
            final(self).watches()[id_key(id)] == (WatchSession {
                id,
                status: WatchStatus::Active,
                started_at: now,
                events_received: 0,
                handle,
            }),
            forall|k: Seq<char>|
                k != id_key(id) && #[trigger] old(self).watches().contains_key(k)
                    ==> final(self).watches()[k] == old(self).watches()[k],
    {
        let key = id.to_key();
        let session = WatchSession {
            id,
            status: WatchStatus::Active,
            started_at: now,
            events_received: 0,
            handle,
        };
        self.active_watches.insert(key, session);
    }

    /// Forgets the watch on `resource_type` over `namespaces` and hands back
    /// its session, marked as stopping (its task is then stopped), if it
    /// runs.
    pub fn stop_watch(&mut self, resource_type: String, namespaces: Option<Vec<String>>) -> (r:
        Option<WatchSession<H>>)
        ensures
            final(self).watcher_count() == old(self).watcher_count(),
            ({
                let key = watch_key_text(
                    resource_type@,
                    requested_namespaces(namespaces).sort_by(lex_order()),
                );
                &&& final(self).watches() == old(self).watches().remove(key)
                &&& match r {
                    Some(s) => old(self).watches().contains_key(key) && s == (WatchSession {
                        status: WatchStatus::Stopping,
                        ..old(self).watches()[key]
                    }),
                    None => !old(self).watches().contains_key(key),
                }
            }),
    {
        let id = WatchId::new(resource_type, namespaces);
        let key = id.to_key();
        match self.active_watches.remove(key.as_str()) {
            Some(mut s) => {
                s.status = WatchStatus::Stopping;
                Some(s)
            },
            None => None,
        }
    }

    /// Forgets every watch and hands back their sessions, marked as
    /// stopping.
    pub fn stop_all_watches(&mut self) -> (r: Vec<WatchSession<H>>)
        ensures
            final(self).watcher_count() == old(self).watcher_count(),
            final(self).watches() == Map::<Seq<char>, WatchSession<H>>::empty(),
            r@.len() == old(self).watches().len(),
            forall|i: int| 0 <= i < r@.len() ==> (#[trigger] r@[i]).status == WatchStatus::Stopping,
            all_values_of(r@, old(self).watches().map_values(|s: WatchSession<H>| stopping(s))),
    {
        let n = self.active_watches.len();
        let entries = self.active_watches.drain();
        assert(entries@.len() == n);
        let ghost all = entries@;
        let mut r: Vec<WatchSession<H>> = Vec::new();
        for e in it: entries
            invariant
                it.seq() == all,
                all.len() == n,
                n == old(self).watches().len(),
                r@.len() == it.index(),
                forall|i: int| 0 <= i < r@.len() ==> (#[trigger] r@[i]).status == WatchStatus::Stopping,
                forall|j: int| 0 <= j < r@.len() ==> r@[j] == stopping(#[trigger] all[j].1),
        {
            let (_, mut s) = e;
            s.status = WatchStatus::Stopping;
            r.push(s);
        }
        proof {
            lemma_drained_values(all, old(self).watches(), r@, |s: WatchSession<H>| stopping(s));
        }
        r
    }

    /// Forgets the watches whose tasks have finished (their keys are among
    /// `finished`) and says how many were forgotten.
    pub fn forget_finished(&mut self, finished: &Vec<String>) -> (r: usize)
        ensures
            final(self).watcher_count() == old(self).watcher_count(),
            final(self).watches() == old(self).watches().restrict(
                Set::new(|k: Seq<char>| !views(finished@).contains(k)),
            ),
            r == old(self).watches().len() - final(self).watches().len(),
    {
        self.active_watches.remove_keys(finished)
    }

    /// The number of running watches.
    pub fn active_watch_count(&self) -> (r: usize)
        ensures
            r == self.watches().len(),
    {
        self.active_watches.len()
    }

    /// The identifier and status of every running watch.
    pub fn get_active_watches(&self) -> (r: Vec<(WatchId, WatchStatus)>)
        ensures
            r@.len() == self.watches().len(),
            one_for_each(
                r@,
                self.watches(),
                |p: (WatchId, WatchStatus), s: WatchSession<H>| reports(p, s),
            ),
    {
        let n = self.active_watches.len();
        let sessions = self.active_watches.values();
        let ghost keys = self.active_watches.key_list();
        let mut r: Vec<(WatchId, WatchStatus)> = Vec::new();
        let mut i: usize = 0;
        while i < sessions.len()
            invariant
                i <= sessions.len(),
                sessions@.len() == n,
                n == self.watches().len(),
                keys.len() == sessions@.len(),
                forall|j: int| 0 <= j < sessions@.len() ==> *sessions@[j] == self.watches()[#[trigger] keys[j]],
                r@.len() == i,
                forall|j: int| 0 <= j < i ==> reports(#[trigger] r@[j], self.watches()[keys[j]]),
            decreases sessions.len() - i,
        {
            let s = sessions[i];
            r.push((s.id.duplicate(), s.status.duplicate()));
            i = i + 1;
        }
        proof {
            let rel = |p: (WatchId, WatchStatus), s: WatchSession<H>| reports(p, s);
            assert(related_in_order(r@, self.watches(), keys, rel));
        }
        r
    }
}

impl<H> Default for WatchLifecycleManager<H> {
    /// No watches, and the generic watcher registered.
    fn default() -> (r: Self)
        ensures
            r.watches() == Map::<Seq<char>, WatchSession<H>>::empty(),
            r.watcher_count() == 1,
    {
        WatchLifecycleManager::new()
    }
}

} // verus!

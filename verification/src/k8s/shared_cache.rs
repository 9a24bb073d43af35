//! Scopes of shared watches, their subscription counts, the cache of the
//! objects they report, and when idle watches are dropped.
use vstd::prelude::*;
use crate::ordering::push_str;
use crate::k8s::catalog::{find_row, lemma_find_row_at, resource_table};
use crate::k8s::watch::StreamEvent;
use crate::pair_table::{key_of, pair_keys, PairTable};
use crate::table::KeyedTable;
use crate::text::{lowercase_of, owned, seq_starts_with, str_eq, to_lowercase};

verus! {

/// Scope of a watch: cluster, namespace and selectors.
#[derive(Debug, Clone, PartialEq, Eq, Hash)]
pub struct WatchScope {
    pub cluster_context: String,
    /// None means cluster-wide.
    pub namespace: Option<String>,
    pub label_selector: Option<String>,
    pub field_selector: Option<String>,
}

/// The text of an optional value, or `default` when there is none.
pub open spec fn text_or(v: Option<String>, default: Seq<char>) -> Seq<char> {
    match v {
        Some(s) => s@,
        None => default,
    }
}

/// The key of a scope: cluster, namespace (`all` when cluster-wide), label
/// selector and field selector, separated by colons.
pub open spec fn scope_key_text(
    cluster: Seq<char>,
    namespace: Option<String>,
    label_selector: Option<String>,
    field_selector: Option<String>,
) -> Seq<char> {
    cluster + ":"@ + text_or(namespace, "all"@) + ":"@ + text_or(label_selector, ""@) + ":"@
        + text_or(field_selector, ""@)
}

impl WatchScope {
    /// The cluster-wide scope of a cluster, without selectors.
    pub fn new(cluster_context: String) -> (r: Self)
        ensures
            r.cluster_context == cluster_context,
            r.namespace is None,
            r.label_selector is None,
            r.field_selector is None,
    {
        WatchScope { cluster_context, namespace: None, label_selector: None, field_selector: None }
    }

    /// This scope confined to `namespace` (or made cluster-wide by `None`).
    pub fn with_namespace(self, namespace: Option<String>) -> (r: Self)
        ensures
            r == (WatchScope { namespace, ..self }),
    {
        WatchScope { namespace, ..self }
    }

    /// This scope with the given label selector.
    pub fn with_label_selector(self, selector: Option<String>) -> (r: Self)
        ensures
            r == (WatchScope { label_selector: selector, ..self }),
    {
        WatchScope { label_selector: selector, ..self }
    }

    /// The key of this scope.
    pub fn scope_key(&self) -> (r: String)
        ensures
            r@ == scope_key_text(
                self.cluster_context@,
                self.namespace,
                self.label_selector,
                self.field_selector,
            ),
    {
        let mut r = owned(self.cluster_context.as_str());
        push_str(&mut r, ":");
        match &self.namespace {
            Some(ns) => push_str(&mut r, ns.as_str()),
            None => push_str(&mut r, "all"),
        }
        push_str(&mut r, ":");
        match &self.label_selector {
            Some(s) => push_str(&mut r, s.as_str()),
            None => push_str(&mut r, ""),
        }
        push_str(&mut r, ":");
        match &self.field_selector {
            Some(s) => push_str(&mut r, s.as_str()),
            None => push_str(&mut r, ""),
        }
        r
    }
}

/// A scope key begins with the scope's cluster followed by a colon.
pub proof fn lemma_scope_key_starts_with_cluster(
    cluster: Seq<char>,
    namespace: Option<String>,
    label_selector: Option<String>,
    field_selector: Option<String>,
)
    ensures
        seq_starts_with(
            scope_key_text(cluster, namespace, label_selector, field_selector),
            cluster + ":"@,
        ),
{
    let key = scope_key_text(cluster, namespace, label_selector, field_selector);
    let rest = text_or(namespace, "all"@) + ":"@ + text_or(label_selector, ""@) + ":"@ + text_or(
        field_selector,
        ""@,
    );
    assert(key =~= (cluster + ":"@) + rest);
    assert(key.subrange(0, (cluster + ":"@).len() as int) =~= cluster + ":"@);
}

/// Watches of two different clusters never share a key when their
/// namespace and selectors agree, so a cache filled from one cluster is
/// never handed out for another.
pub proof fn lemma_scope_keys_separate_clusters(
    cluster_a: Seq<char>,
    cluster_b: Seq<char>,
    namespace: Option<String>,
    label_selector: Option<String>,
    field_selector: Option<String>,
)
    requires
        cluster_a != cluster_b,
    ensures
        scope_key_text(cluster_a, namespace, label_selector, field_selector) != scope_key_text(
            cluster_b,
            namespace,
            label_selector,
            field_selector,
        ),
{
    let rest = ":"@ + text_or(namespace, "all"@) + ":"@ + text_or(label_selector, ""@) + ":"@
        + text_or(field_selector, ""@);
    let ka = scope_key_text(cluster_a, namespace, label_selector, field_selector);
    let kb = scope_key_text(cluster_b, namespace, label_selector, field_selector);
    assert(ka =~= cluster_a + rest);
    assert(kb =~= cluster_b + rest);
    if ka == kb {
        assert(cluster_a.len() == cluster_b.len());
        assert(ka.subrange(0, cluster_a.len() as int) =~= cluster_a);
        assert(kb.subrange(0, cluster_b.len() as int) =~= cluster_b);
    }
}

/// Whether an idle watch is dropped: only a watch without subscribers that
/// has been idle for longer than the timeout (both in nanoseconds).
pub fn should_evict(subscriber_count: u32, idle_nanos: u128, idle_timeout_nanos: u128) -> (r: bool)
    ensures
        r == (subscriber_count == 0 && idle_nanos > idle_timeout_nanos),
{
    subscriber_count == 0 && idle_nanos > idle_timeout_nanos
}

/// The default idle timeout of a shared watch, in seconds (20 minutes).
pub const SHARED_WATCH_IDLE_TIMEOUT_SECS: u64 = 1200;

/// How often idle shared watches are looked for, in seconds (5 minutes).
pub const SHARED_WATCH_CLEANUP_INTERVAL_SECS: u64 = 300;

/// The most shared watches that run at once.
pub const MAX_SHARED_WATCHES: usize = 50;

/// How a subscription request is answered.
#[derive(Debug, PartialEq, Eq)]
pub enum SubscribeDecision {
    /// A watch for the scope runs already: join it and read its cache.
    JoinExisting,
    /// Start a new watch for the scope.
    StartNew,
    /// No new watch may start.
    LimitReached,
}

/// What a running watch reports about the objects it watches.
pub enum CacheEvent<T> {
    /// An object was created or changed (`uid` is its identifier, if any).
    Apply { uid: Option<String>, item: T },
    /// An object was deleted.
    Delete { uid: Option<String> },
    /// The watch (re)starts its initial listing.
    Init,
    /// The initial listing is complete.
    InitDone,
}

/// The cache after an event: applied objects are stored under their
/// identifier, deleted ones removed, and a restart empties the cache.
/// Objects without an identifier are not cached.
pub open spec fn cache_after<T>(cache: Map<Seq<char>, T>, event: CacheEvent<T>) -> Map<Seq<char>, T> {
    match event {
        CacheEvent::Apply { uid, item } => match uid {
            Some(u) => cache.insert(u@, item),
            None => cache,
        },
        CacheEvent::Delete { uid } => match uid {
            Some(u) => cache.remove(u@),
            None => cache,
        },
        CacheEvent::Init => Map::empty(),
        CacheEvent::InitDone => cache,
    }
}

/// Applies a watch event to the cache of a shared watch.
pub fn apply_cache_event<T>(cache: &mut KeyedTable<T>, event: CacheEvent<T>)
    ensures
        final(cache)@ == cache_after(old(cache)@, event),
{
    match event {
        CacheEvent::Apply { uid, item } => match uid {
            Some(u) => {
                cache.insert(u, item);
            },
            None => {},
        },
        CacheEvent::Delete { uid } => match uid {
            Some(u) => {
                cache.remove(u.as_str());
            },
            None => {},
        },
        CacheEvent::Init => {
            let _ = cache.drain();
        },
        CacheEvent::InitDone => {},
    }
}

/// The cache after the objects of an initial listing are stored, each under
/// its identifier, in order; objects without one are skipped.
pub open spec fn cache_after_listing<T>(cache: Map<Seq<char>, T>, items: Seq<(Option<String>, T)>) -> Map<
    Seq<char>,
    T,
>
    decreases items.len(),
{
    if items.len() == 0 {
        cache
    } else {
        let last = items.last();
        let before = cache_after_listing(cache, items.drop_last());
        match last.0 {
            Some(u) => before.insert(u@, last.1),
            None => before,
        }
    }
}

/// Stores the objects of an initial listing in the cache.
pub fn populate_cache<T>(cache: &mut KeyedTable<T>, items: Vec<(Option<String>, T)>)
    ensures
        final(cache)@ == cache_after_listing(old(cache)@, items@),
{
    let ghost start = cache@;
    let ghost all = items@;
    let ghost mut done: Seq<(Option<String>, T)> = Seq::empty();
    let mut rest = items;
    while rest.len() > 0
        invariant
            cache@ == cache_after_listing(start, done),
            done + rest@ == all,
        decreases rest.len(),
    {
        let x = rest.remove(0);
        proof {
            assert(done.push(x) + rest@ =~= all);
            assert(done.push(x).drop_last() =~= done);
            done = done.push(x);
        }
        let (uid, item) = x;
        match uid {
            Some(u) => {
                cache.insert(u, item);
            },
            None => {},
        }
    }
    assert(done =~= all);
}


/// The identifiers of the objects of a listing that have one.
pub open spec fn listed_uids<T>(items: Seq<(Option<String>, T)>) -> Set<Seq<char>>
    decreases items.len(),
{
    if items.len() == 0 {
        Set::empty()
    } else {
        let rest = listed_uids(items.drop_last());
        match items.last().0 {
            Some(u) => rest.insert(u@),
            None => rest,
        }
    }
}

/// An object reported as created or changed can be read back from the
/// cache under its identifier, and nothing else in the cache changes.
pub proof fn lemma_applied_object_is_cached<T>(cache: Map<Seq<char>, T>, uid: String, item: T)
    ensures
        cache_after(cache, CacheEvent::Apply { uid: Some(uid), item }).contains_key(uid@),
        cache_after(cache, CacheEvent::Apply { uid: Some(uid), item })[uid@] == item,
        forall|k: Seq<char>|
            k != uid@ ==> #[trigger] cache_after(
                cache,
                CacheEvent::Apply { uid: Some(uid), item },
            ).contains_key(k) == cache.contains_key(k),
{
}

/// An object reported as deleted is no longer in the cache.
pub proof fn lemma_deleted_object_leaves_cache<T>(cache: Map<Seq<char>, T>, uid: String)
    ensures
        !cache_after(cache, CacheEvent::<T>::Delete { uid: Some(uid) }).contains_key(uid@),
{
}

/// A restarted listing begins from an empty cache.
pub proof fn lemma_restart_empties_cache<T>(cache: Map<Seq<char>, T>)
    ensures
        cache_after(cache, CacheEvent::<T>::Init).dom() =~= Set::<Seq<char>>::empty(),
{
}

/// After an initial listing the cache holds what it held before and every
/// listed identifier, and nothing else.
pub proof fn lemma_listing_keys<T>(cache: Map<Seq<char>, T>, items: Seq<(Option<String>, T)>)
    ensures
        cache_after_listing(cache, items).dom() =~= cache.dom().union(listed_uids(items)),
    decreases items.len(),
{
    if items.len() > 0 {
        lemma_listing_keys(cache, items.drop_last());
    }
}

/// When the listed identifiers are distinct, every listed object can be
/// read back from the cache under its identifier.
pub proof fn lemma_listed_objects_are_cached<T>(
    cache: Map<Seq<char>, T>,
    items: Seq<(Option<String>, T)>,
    i: int,
)
    requires
        0 <= i < items.len(),
        items[i].0 is Some,
        forall|a: int, b: int|
            0 <= a < b < items.len() && items[a].0 is Some && (#[trigger] items[b].0) is Some
                ==> (#[trigger] items[a].0)->0@ != items[b].0->0@,
    ensures
        cache_after_listing(cache, items).contains_key(items[i].0->0@),
        cache_after_listing(cache, items)[items[i].0->0@] == items[i].1,
    decreases items.len(),
{
    let n = items.len() - 1;
    if i < n {
        let front = items.drop_last();
        assert forall|a: int, b: int|
            0 <= a < b < front.len() && front[a].0 is Some && (#[trigger] front[b].0) is Some
                implies (#[trigger] front[a].0)->0@ != front[b].0->0@ by {
            assert(front[a] == items[a]);
            assert(front[b] == items[b]);
        }
        assert(front[i] == items[i]);
        lemma_listed_objects_are_cached(cache, front, i);
        if items[n].0 is Some {
            assert(items[i].0->0@ != items[n].0->0@);
        }
    }
}


/// Whether the shared cache lists the existing objects of a resource type
/// (given in lowercase) when a watch on it starts, and if so whether the
/// type lives in namespaces (`Some(true)`) or across the cluster.
pub open spec fn initial_listing_kind(lower: Seq<char>) -> Option<bool> {
    if lower == "pods"@ || lower == "services"@ || lower == "configmaps"@ || lower == "secrets"@
        || lower == "deployments"@ || lower == "replicasets"@ || lower == "statefulsets"@
        || lower == "daemonsets"@ || lower == "ingresses"@ {
        Some(true)
    } else if lower == "nodes"@ || lower == "namespaces"@ {
        Some(false)
    } else {
        None
    }
}

/// Where the initial listing of a new watch on `resource_type` in `scope`
/// looks: `None` when the type is not listed at all (the listing is then
/// empty), `Some(None)` across the cluster, `Some(Some(ns))` in one
/// namespace. Namespaced types follow the scope's namespace; the type's
/// case does not matter.
pub fn initial_listing_namespace(resource_type: &str, scope: &WatchScope) -> (r: Option<
    Option<String>,
>)
    ensures
        match initial_listing_kind(lowercase_of(resource_type@)) {
            None => r is None,
            Some(true) => r matches Some(ns) && match (ns, scope.namespace) {
                (Some(a), Some(b)) => a@ == b@,
                (None, None) => true,
                _ => false,
            },
            Some(false) => r == Some(None::<String>),
        },
{
    let lower = to_lowercase(resource_type);
    let l = lower.as_str();
    if str_eq(l, "pods") || str_eq(l, "services") || str_eq(l, "configmaps") || str_eq(l, "secrets")
        || str_eq(l, "deployments") || str_eq(l, "replicasets") || str_eq(l, "statefulsets")
        || str_eq(l, "daemonsets") || str_eq(l, "ingresses") {
        match &scope.namespace {
            Some(ns) => Some(Some(owned(ns.as_str()))),
            None => Some(None),
        }
    } else if str_eq(l, "nodes") || str_eq(l, "namespaces") {
        Some(None)
    } else {
        None
    }
}

/// A running shared watch: its scope and resource type, when it was last
/// used (in nanoseconds on a monotonic clock), how many subscribers it has,
/// and the objects it reported, keyed by identifier.
#[derive(Debug)]
pub struct WatchInfo<T> {
    pub scope: WatchScope,
    pub resource_type: String,
    pub last_accessed: u128,
    pub resource_cache: KeyedTable<T>,
    pub subscribers: u32,
}

impl<T> WatchInfo<T> {
    /// A watch without subscribers and with an empty cache, last used `now`.
    pub fn new(resource_type: String, scope: WatchScope, now: u128) -> (r: Self)
        ensures
            r.resource_type == resource_type,
            r.scope == scope,
            r.last_accessed == now,
            r.resource_cache@ == Map::<Seq<char>, T>::empty(),
            r.subscribers == 0,
    {
        WatchInfo { scope, resource_type, last_accessed: now, resource_cache: KeyedTable::new(), subscribers: 0 }
    }

    /// Records that the watch was used `now`.
    pub fn touch(&mut self, now: u128)
        ensures
            *final(self) == (WatchInfo { last_accessed: now, ..*old(self) }),
    {
        self.last_accessed = now;
    }

    /// One more subscriber; the watch counts as used `now`.
    pub fn subscribe(&mut self, now: u128)
        requires
            old(self).subscribers < u32::MAX,
        ensures
            *final(self) == (WatchInfo {
                subscribers: (old(self).subscribers + 1) as u32,
                last_accessed: now,
                ..*old(self)
            }),
    {
        self.subscribers = self.subscribers + 1;
        self.touch(now);
    }

    /// One subscriber fewer; the count does not go below zero.
    pub fn unsubscribe(&mut self)
        ensures
            *final(self) == (WatchInfo {
                subscribers: if old(self).subscribers > 0 {
                    (old(self).subscribers - 1) as u32
                } else {
                    0
                },
                ..*old(self)
            }),
    {
        if self.subscribers > 0 {
            self.subscribers = self.subscribers - 1;
        }
    }

    /// The number of subscribers.
    pub fn subscriber_count(&self) -> (r: u32)
        ensures
            r == self.subscribers,
    {
        self.subscribers
    }
}

/// How long a watch last used at `last` has been idle at `now`; a clock
/// reading before `last` counts as no time at all.
pub open spec fn idle_for(now: u128, last: u128) -> int {
    if now >= last {
        now - last
    } else {
        0
    }
}

/// Whether a watch is dropped at `now`: it has no subscribers and has been
/// idle for longer than the timeout.
pub open spec fn evictable<T>(w: WatchInfo<T>, now: u128, timeout: u128) -> bool {
    w.subscribers == 0 && idle_for(now, w.last_accessed) > timeout
}

/// The texts of a list of key pairs.
pub open spec fn pair_views(s: Seq<(String, String)>) -> Seq<(Seq<char>, Seq<char>)> {
    s.map_values(|p: (String, String)| (p.0@, p.1@))
}

/// The running watches after a subscriber joins the watch keyed `k` at
/// `now`: it gains a subscriber and counts as used.
pub open spec fn joined<T>(
    watches: Map<(Seq<char>, Seq<char>), WatchInfo<T>>,
    k: (Seq<char>, Seq<char>),
    now: u128,
) -> Map<(Seq<char>, Seq<char>), WatchInfo<T>> {
    let w = watches[k];
    watches.insert(k, WatchInfo { subscribers: (w.subscribers + 1) as u32, last_accessed: now, ..w })
}

/// The running watches after a subscriber leaves the watch keyed `k`: it
/// loses a subscriber, never going below zero; a watch that does not run is
/// left alone.
pub open spec fn left<T>(
    watches: Map<(Seq<char>, Seq<char>), WatchInfo<T>>,
    k: (Seq<char>, Seq<char>),
) -> Map<(Seq<char>, Seq<char>), WatchInfo<T>> {
    if watches.contains_key(k) {
        let w = watches[k];
        watches.insert(
            k,
            WatchInfo {
                subscribers: if w.subscribers > 0 {
                    (w.subscribers - 1) as u32
                } else {
                    0
                },
                ..w
            },
        )
    } else {
        watches
    }
}

/// Joining a running watch and leaving it again restores its subscriber
/// count, its cache and the set of running watches; only the time of last
/// use moves.
pub proof fn lemma_join_then_leave<T>(
    watches: Map<(Seq<char>, Seq<char>), WatchInfo<T>>,
    k: (Seq<char>, Seq<char>),
    now: u128,
)
    requires
        watches.contains_key(k),
        watches[k].subscribers < u32::MAX,
    ensures
        left(joined(watches, k, now), k) == watches.insert(
            k,
            WatchInfo { last_accessed: now, ..watches[k] },
        ),
{
    let after = left(joined(watches, k, now), k);
    assert(after =~= watches.insert(k, WatchInfo { last_accessed: now, ..watches[k] }));
}

/// A watch with subscribers is never dropped by the idle cleanup, however
/// long it has been idle.
pub proof fn lemma_subscribed_watches_survive_cleanup<T>(w: WatchInfo<T>, now: u128, timeout: u128)
    requires
        w.subscribers > 0,
    ensures
        !evictable(w, now, timeout),
{
}

/// The watches that share their objects among subscribers, keyed by
/// resource type and scope key, never more than the limit at once.
pub struct SharedWatchCache<T> {
    active_watches: PairTable<WatchInfo<T>>,
    idle_timeout: u128,
    max_watches: usize,
}

impl<T> SharedWatchCache<T> {
    #[verifier::type_invariant]
    spec fn within_limit(&self) -> bool {
        self.active_watches@.len() <= self.max_watches
    }

    /// The running watches, keyed by resource type and scope key.
    pub closed spec fn watches(&self) -> Map<(Seq<char>, Seq<char>), WatchInfo<T>> {
        self.active_watches@
    }

    /// The idle time, in nanoseconds, after which a watch without
    /// subscribers is dropped.
    pub closed spec fn idle_timeout(&self) -> u128 {
        self.idle_timeout
    }

    /// The most watches that run at once.
    pub closed spec fn max_watches(&self) -> usize {
        self.max_watches
    }

    /// No watches yet; at most 50 run at once, and one without subscribers
    /// is dropped after 20 minutes of idleness.
    pub fn new() -> (r: Self)
        ensures
            r.watches() == Map::<(Seq<char>, Seq<char>), WatchInfo<T>>::empty(),
            r.max_watches() == MAX_SHARED_WATCHES,
            r.idle_timeout() == SHARED_WATCH_IDLE_TIMEOUT_SECS as u128 * 1_000_000_000u128,
    {
        SharedWatchCache {
            active_watches: PairTable::new(),
            idle_timeout: SHARED_WATCH_IDLE_TIMEOUT_SECS as u128 * 1_000_000_000u128,
            max_watches: MAX_SHARED_WATCHES,
        }
    }

    /// The number of running watches.
    pub fn active_watch_count(&self) -> (r: usize)
        ensures
            r == self.watches().len(),
            r <= self.max_watches(),
    {
        proof {
            use_type_invariant(self);
        }
        self.active_watches.len()
    }

    /// The subscribers of the watch on `resource_type` in `scope`, if it runs.
    pub fn subscriber_count(&self, resource_type: &str, scope: &WatchScope) -> (r: Option<u32>)
        ensures
            ({
                let k = (resource_type@, scope_key_text(
                    scope.cluster_context@,
                    scope.namespace,
                    scope.label_selector,
                    scope.field_selector,
                ));
                match r {
                    Some(n) => self.watches().contains_key(k) && n == self.watches()[k].subscribers,
                    None => !self.watches().contains_key(k),
                }
            }),
    {
        let sk = scope.scope_key();
        match self.active_watches.get(resource_type, sk.as_str()) {
            Some(w) => Some(w.subscribers),
            None => None,
        }
    }

    /// Answers a subscription to `resource_type` in `scope` at `now`: a
    /// running watch gains a subscriber and is joined; otherwise a new watch
    /// is to be started, unless the limit is reached. Only joining changes
    /// the cache.
    pub fn subscribe(&mut self, resource_type: &str, scope: &WatchScope, now: u128) -> (r:
        SubscribeDecision)
        requires
            ({
                let k = (resource_type@, scope_key_text(
                    scope.cluster_context@,
                    scope.namespace,
                    scope.label_selector,
                    scope.field_selector,
                ));
                old(self).watches().contains_key(k) ==> old(self).watches()[k].subscribers
                    < u32::MAX
            }),
        ensures
            ({
                let k = (resource_type@, scope_key_text(
                    scope.cluster_context@,
                    scope.namespace,
                    scope.label_selector,
                    scope.field_selector,
                ));
                &&& final(self).max_watches() == old(self).max_watches()
                &&& final(self).idle_timeout() == old(self).idle_timeout()
                &&& if old(self).watches().contains_key(k) {
                    &&& r == SubscribeDecision::JoinExisting
                    &&& final(self).watches() == joined(old(self).watches(), k, now)
                } else {
                    &&& final(self).watches() == old(self).watches()
                    &&& r == if old(self).watches().len() >= old(self).max_watches() {
                        SubscribeDecision::LimitReached
                    } else {
                        SubscribeDecision::StartNew
                    }
                }
            }),
    {
        proof {
            use_type_invariant(&*self);
        }
        let sk = scope.scope_key();
        if self.active_watches.contains_key(resource_type, sk.as_str()) {
            let mut table = PairTable::new();
            std::mem::swap(&mut table, &mut self.active_watches);
            let ghost before = table@;
            let mut w = match table.remove(resource_type, sk.as_str()) {
                Some(w) => w,
                None => {
                    assert(false);
                    return SubscribeDecision::JoinExisting;
                },
            };
            w.subscribe(now);
            table.insert((owned(resource_type), sk), w);
            proof {
                assert(table@.dom() =~= before.dom());
            }
            self.active_watches = table;
            SubscribeDecision::JoinExisting
        } else if self.active_watches.len() >= self.max_watches {
            SubscribeDecision::LimitReached
        } else {
            SubscribeDecision::StartNew
        }
    }

    /// Records a newly started watch on `resource_type` in `scope` with its
    /// first subscriber, an empty cache, and `now` as its last use.
    pub fn register_watch(&mut self, resource_type: String, scope: WatchScope, now: u128)
        requires
            !old(self).watches().contains_key(
                (resource_type@, scope_key_text(
                    scope.cluster_context@,
                    scope.namespace,
                    scope.label_selector,
                    scope.field_selector,
                )),
            ),
            old(self).watches().len() < old(self).max_watches(),
        ensures
            final(self).max_watches() == old(self).max_watches(),
            final(self).idle_timeout() == old(self).idle_timeout(),
            final(self).watches() == old(self).watches().insert(
                (resource_type@, scope_key_text(
                    scope.cluster_context@,
                    scope.namespace,
                    scope.label_selector,
                    scope.field_selector,
                )),
                WatchInfo {
                    scope,
                    resource_type,
                    last_accessed: now,
                    resource_cache: final(self).watches()[(resource_type@, scope_key_text(
                        scope.cluster_context@,
                        scope.namespace,
                        scope.label_selector,
                        scope.field_selector,
                    ))].resource_cache,
                    subscribers: 1,
                },
            ),
            final(self).watches()[(resource_type@, scope_key_text(
                scope.cluster_context@,
                scope.namespace,
                scope.label_selector,
                scope.field_selector,
            ))].resource_cache@ == Map::<Seq<char>, T>::empty(),
    {
        let sk = scope.scope_key();
        let key_type = owned(resource_type.as_str());
        let mut w = WatchInfo::new(resource_type, scope, now);
        w.subscribe(now);
        let mut table = PairTable::new();
        std::mem::swap(&mut table, &mut self.active_watches);
        table.insert((key_type, sk), w);
        self.active_watches = table;
    }

    /// The scope key of `scope` paired with `resource_type`.
    pub open spec fn key_of(resource_type: &str, scope: &WatchScope) -> (Seq<char>, Seq<char>) {
        (resource_type@, scope_key_text(
            scope.cluster_context@,
            scope.namespace,
            scope.label_selector,
            scope.field_selector,
        ))
    }

    /// Takes the watch keyed `k` out of the table, applies `f`, and puts the
    /// result back under the same key.
    fn take_watch(&mut self, resource_type: &str, scope_key: &str) -> (r: Option<WatchInfo<T>>)
        ensures
            final(self).max_watches() == old(self).max_watches(),
            final(self).idle_timeout() == old(self).idle_timeout(),
            final(self).watches() == old(self).watches().remove((resource_type@, scope_key@)),
            r is Some ==> final(self).watches().len() < old(self).watches().len(),
            old(self).watches().len() <= old(self).max_watches(),
            match r {
                Some(w) => old(self).watches().contains_key((resource_type@, scope_key@)) && w
                    == old(self).watches()[(resource_type@, scope_key@)],
                None => !old(self).watches().contains_key((resource_type@, scope_key@)),
            },
    {
        proof {
            use_type_invariant(&*self);
        }
        let mut table = PairTable::new();
        std::mem::swap(&mut table, &mut self.active_watches);
        let ghost before = table@;
        let r = table.remove(resource_type, scope_key);
        proof {
        }
        self.active_watches = table;
        r
    }

    /// Puts a watch back under the key it was taken from.
    fn put_watch(&mut self, resource_type: &str, scope_key: String, w: WatchInfo<T>)
        requires
            !old(self).watches().contains_key((resource_type@, scope_key@)),
            old(self).watches().len() < old(self).max_watches(),
        ensures
            final(self).max_watches() == old(self).max_watches(),
            final(self).idle_timeout() == old(self).idle_timeout(),
            final(self).watches() == old(self).watches().insert((resource_type@, scope_key@), w),
    {
        let mut table = PairTable::new();
        std::mem::swap(&mut table, &mut self.active_watches);
        table.insert((owned(resource_type), scope_key), w);
        self.active_watches = table;
    }

    /// One subscriber fewer for the watch on `resource_type` in `scope`, if
    /// it runs; the count does not go below zero.
    pub fn unsubscribe(&mut self, resource_type: &str, scope: &WatchScope)
        ensures
            final(self).max_watches() == old(self).max_watches(),
            final(self).idle_timeout() == old(self).idle_timeout(),
            final(self).watches() == left(old(self).watches(), Self::key_of(resource_type, scope)),
    {
        let sk = scope.scope_key();
        let ghost k = (resource_type@, sk@);
        match self.take_watch(resource_type, sk.as_str()) {
            Some(mut w) => {
                w.unsubscribe();
                self.put_watch(resource_type, sk, w);
                proof {
                    assert(self.watches() =~= old(self).watches().insert(k, w));
                }
            },
            None => {
                proof {
                    assert(self.watches() =~= old(self).watches());
                }
            },
        }
    }

    /// The cached objects of the watch on `resource_type` in `scope`, if it
    /// runs.
    pub fn get_cached_data(&self, resource_type: &str, scope: &WatchScope) -> (r: Option<
        &KeyedTable<T>,
    >)
        ensures
            ({
                let k = Self::key_of(resource_type, scope);
                match r {
                    Some(c) => self.watches().contains_key(k) && c@ == self.watches()[k].resource_cache@,
                    None => !self.watches().contains_key(k),
                }
            }),
    {
        let sk = scope.scope_key();
        match self.active_watches.get(resource_type, sk.as_str()) {
            Some(w) => Some(&w.resource_cache),
            None => None,
        }
    }

    /// Applies an event reported by the watch on `resource_type` with scope
    /// key `scope_key` to its cache; events of a watch that no longer runs
    /// change nothing.
    pub fn apply_event(&mut self, resource_type: &str, scope_key: &str, event: CacheEvent<T>)
        ensures
            final(self).max_watches() == old(self).max_watches(),
            final(self).idle_timeout() == old(self).idle_timeout(),
            final(self).watches().dom() == old(self).watches().dom(),
            forall|k: (Seq<char>, Seq<char>)|
                #[trigger] final(self).watches().contains_key(k) && k != (resource_type@, scope_key@)
                    ==> final(self).watches()[k] == old(self).watches()[k],
            old(self).watches().contains_key((resource_type@, scope_key@)) ==> {
                let w = old(self).watches()[(resource_type@, scope_key@)];
                let v = final(self).watches()[(resource_type@, scope_key@)];
                &&& v.resource_cache@ == cache_after(w.resource_cache@, event)
                &&& v.scope == w.scope
                &&& v.resource_type == w.resource_type
                &&& v.last_accessed == w.last_accessed
                &&& v.subscribers == w.subscribers
            },
    {
        let ghost k = (resource_type@, scope_key@);
        match self.take_watch(resource_type, scope_key) {
            Some(mut w) => {
                let ghost w0 = w;
                apply_cache_event(&mut w.resource_cache, event);
                self.put_watch(resource_type, owned(scope_key), w);
                proof {
                    assert(self.watches().dom() =~= old(self).watches().dom());
                }
            },
            None => {
                proof {
                    assert(self.watches() =~= old(self).watches());
                }
            },
        }
    }

    /// Stores the objects of the initial listing of the watch on
    /// `resource_type` in `scope` in its cache; a watch that does not run
    /// stores nothing.
    pub fn store_initial_data(
        &mut self,
        resource_type: &str,
        scope: &WatchScope,
        items: Vec<(Option<String>, T)>,
    )
        ensures
            final(self).max_watches() == old(self).max_watches(),
            final(self).idle_timeout() == old(self).idle_timeout(),
            final(self).watches().dom() == old(self).watches().dom(),
            forall|k: (Seq<char>, Seq<char>)|
                #[trigger] final(self).watches().contains_key(k) && k != Self::key_of(resource_type, scope)
                    ==> final(self).watches()[k] == old(self).watches()[k],
            old(self).watches().contains_key(Self::key_of(resource_type, scope)) ==> {
                let w = old(self).watches()[Self::key_of(resource_type, scope)];
                let v = final(self).watches()[Self::key_of(resource_type, scope)];
                &&& v.resource_cache@ == cache_after_listing(w.resource_cache@, items@)
                &&& v.scope == w.scope
                &&& v.resource_type == w.resource_type
                &&& v.last_accessed == w.last_accessed
                &&& v.subscribers == w.subscribers
            },
    {
        let sk = scope.scope_key();
        let ghost k = (resource_type@, sk@);
        match self.take_watch(resource_type, sk.as_str()) {
            Some(mut w) => {
                populate_cache(&mut w.resource_cache, items);
                self.put_watch(resource_type, sk, w);
                proof {
                    assert(self.watches().dom() =~= old(self).watches().dom());
                }
            },
            None => {
                proof {
                    assert(self.watches() =~= old(self).watches());
                }
            },
        }
    }

    /// Drops, at `now`, every watch without subscribers that has been idle
    /// for longer than the timeout, and returns the keys of the dropped
    /// watches (whose tasks are then stopped). Watches with subscribers are
    /// never dropped.
    pub fn cleanup_idle_watches(&mut self, now: u128) -> (r: Vec<(String, String)>)
        ensures
            final(self).max_watches() == old(self).max_watches(),
            final(self).idle_timeout() == old(self).idle_timeout(),
            final(self).watches() == old(self).watches().restrict(
                Set::new(
                    |k: (Seq<char>, Seq<char>)|
                        !evictable(old(self).watches()[k], now, old(self).idle_timeout()),
                ),
            ),
            pair_views(r@).to_set() == Set::new(
                |k: (Seq<char>, Seq<char>)|
                    old(self).watches().contains_key(k) && evictable(
                        old(self).watches()[k],
                        now,
                        old(self).idle_timeout(),
                    ),
            ),
            pair_views(r@).no_duplicates(),
    {
        proof {
            use_type_invariant(&*self);
        }
        let timeout = self.idle_timeout;
        let mut table = PairTable::new();
        std::mem::swap(&mut table, &mut self.active_watches);
        let ghost old_map = table@;
        let ghost old_keys = table.key_list();
        let mut rest = table.drain();
        let ghost drained = rest@;
        let ghost keep = Set::new(
            |k: (Seq<char>, Seq<char>)| !evictable(old_map[k], now, timeout),
        );
        let ghost gone = Set::new(
            |k: (Seq<char>, Seq<char>)| old_map.contains_key(k) && evictable(old_map[k], now, timeout),
        );
        let mut kept: PairTable<WatchInfo<T>> = PairTable::new();
        let mut removed: Vec<(String, String)> = Vec::new();
        proof {
            assert(pair_keys(drained).subrange(drained.len() as int, drained.len() as int).to_set()
                =~= Set::empty());
            assert(kept@ =~= old_map.restrict(keep.intersect(Set::empty())));
            assert(pair_views(removed@).to_set() =~= gone.intersect(Set::empty()));
        }
        while rest.len() > 0
            invariant
                rest.len() <= drained.len(),
                rest@ == drained.take(rest.len() as int),
                pair_keys(drained) == old_keys,
                old_keys.no_duplicates(),
                old_map.dom() == old_keys.to_set(),
                forall|i: int|
                    0 <= i < drained.len() ==> drained[i].1 == old_map[#[trigger] old_keys[i]],
                keep == Set::new(
                    |k: (Seq<char>, Seq<char>)| !evictable(old_map[k], now, timeout),
                ),
                gone == Set::new(
                    |k: (Seq<char>, Seq<char>)|
                        old_map.contains_key(k) && evictable(old_map[k], now, timeout),
                ),
                kept@ == old_map.restrict(
                    keep.intersect(old_keys.subrange(rest.len() as int, drained.len() as int).to_set()),
                ),
                pair_views(removed@).to_set() == gone.intersect(
                    old_keys.subrange(rest.len() as int, drained.len() as int).to_set(),
                ),
                pair_views(removed@).no_duplicates(),
            decreases rest.len(),
        {
            let ghost n = rest.len() as int;
            let ghost done = old_keys.subrange(n, drained.len() as int).to_set();
            let ghost k = old_keys[n - 1];
            let e = rest.pop().unwrap();
            proof {
                assert(e == drained[n - 1]);
                assert(key_of(e) == k);
                assert(e.1 == old_map[k]);
                assert(!done.contains(k)) by {
                    if done.contains(k) {
                        let j = choose|j: int|
                            0 <= j < old_keys.subrange(n, drained.len() as int).len()
                                && (#[trigger] old_keys.subrange(n, drained.len() as int)[j]) == k;
                        assert(old_keys[n + j] == k);
                    }
                }
                assert(old_keys.subrange(n - 1, drained.len() as int).to_set() =~= done.insert(k))
                    by {
                    assert forall|x: (Seq<char>, Seq<char>)|
                        #[trigger] old_keys.subrange(n - 1, drained.len() as int).to_set().contains(x)
                            implies done.insert(k).contains(x) by {
                        let j = choose|j: int|
                            0 <= j < old_keys.subrange(n - 1, drained.len() as int).len()
                                && (#[trigger] old_keys.subrange(n - 1, drained.len() as int)[j]) == x;
                        if j > 0 {
                            assert(old_keys.subrange(n, drained.len() as int)[j - 1] == x);
                        }
                    }
                    assert forall|x: (Seq<char>, Seq<char>)| #[trigger] done.insert(k).contains(x)
                        implies old_keys.subrange(n - 1, drained.len() as int).to_set().contains(x) by {
                        if x == k {
                            assert(old_keys.subrange(n - 1, drained.len() as int)[0] == x);
                        } else {
                            let j = choose|j: int|
                                0 <= j < old_keys.subrange(n, drained.len() as int).len()
                                    && (#[trigger] old_keys.subrange(n, drained.len() as int)[j]) == x;
                            assert(old_keys.subrange(n - 1, drained.len() as int)[j + 1] == x);
                        }
                    }
                }
                assert(rest@ =~= drained.take(n - 1));
                assert(old_map.contains_key(k)) by {
                    assert(old_keys.contains(k)) by {
                        assert(old_keys[n - 1] == k);
                    }
                }
            }
            let ((rt, sk), w) = e;
            let idle: u128 = if now >= w.last_accessed {
                now - w.last_accessed
            } else {
                0
            };
            if should_evict(w.subscribers, idle, timeout) {
                let ghost before = removed@;
                removed.push((rt, sk));
                proof {
                    assert(pair_views(removed@) =~= pair_views(before).push(k));
                    pair_views(before).lemma_push_to_set_commute(k);
                    assert(gone.contains(k));
                    assert(!gone.intersect(done).contains(k));
                    assert(!pair_views(before).to_set().contains(k));
                    assert(!pair_views(before).contains(k));
                    assert(pair_views(removed@).to_set() =~= gone.intersect(done.insert(k)));
                    assert(kept@ =~= old_map.restrict(keep.intersect(done.insert(k))));
                }
            } else {
                let ghost before = kept@;
                proof {
                    assert(!before.contains_key(k));
                }
                kept.insert((rt, sk), w);
                proof {
                    assert(kept@ =~= old_map.restrict(keep.intersect(done.insert(k))));
                    assert(pair_views(removed@).to_set() =~= gone.intersect(done.insert(k)));
                }
            }
        }
        proof {
            assert(old_keys.subrange(0, drained.len() as int) =~= old_keys);
            assert(keep.intersect(old_keys.to_set()) =~= keep.intersect(old_map.dom()));
            assert(old_map.restrict(keep.intersect(old_map.dom())) =~= old_map.restrict(keep));
            assert(gone.intersect(old_keys.to_set()) =~= gone);
            assert(kept@.dom().subset_of(old_map.dom()));
            vstd::set_lib::lemma_len_subset(kept@.dom(), old_map.dom());
            assert(old_map == old(self).watches());
            assert(timeout == old(self).idle_timeout());
            assert(kept@ =~= old_map.restrict(keep));
            assert(pair_views(removed@).to_set() =~= gone);
        }
        self.active_watches = kept;
        removed
    }

    /// Drops every watch and returns their keys (whose tasks are then
    /// stopped).
    pub fn shutdown(&mut self) -> (r: Vec<(String, String)>)
        ensures
            final(self).max_watches() == old(self).max_watches(),
            final(self).idle_timeout() == old(self).idle_timeout(),
            final(self).watches() == Map::<(Seq<char>, Seq<char>), WatchInfo<T>>::empty(),
            pair_views(r@).to_set() == old(self).watches().dom(),
            pair_views(r@).no_duplicates(),
    {
        let mut table = PairTable::new();
        std::mem::swap(&mut table, &mut self.active_watches);
        let ghost old_keys = table.key_list();
        let entries = table.drain();
        let mut keys: Vec<(String, String)> = Vec::new();
        for e in it: entries
            invariant
                pair_keys(it.seq()) == old_keys,
                pair_views(keys@) == old_keys.take(it.index() as int),
        {
            let ghost before = keys@;
            let (k, _) = e;
            keys.push(k);
            proof {
                assert(pair_views(keys@) =~= pair_views(before).push(key_of(e)));
                assert(old_keys[it.index() as int] == key_of(e));
                assert(old_keys.take(it.index() + 1) =~= old_keys.take(it.index() as int).push(
                    old_keys[it.index() as int],
                ));
            }
        }
        proof {
            assert(old_keys.take(old_keys.len() as int) =~= old_keys);
        }
        keys
    }
}


/// What a shared watch reports to the user interface, tagged with its
/// cluster.
#[derive(Debug, Clone, Copy, PartialEq, Eq, Structural)]
pub enum SharedEmission {
    Added,
    Deleted,
    InitialSyncComplete,
}

/// How a shared watch goes on after an event.
#[derive(Debug, Clone, Copy, PartialEq, Eq, Structural)]
pub enum SharedNext {
    /// Read the next event.
    Continue,
    /// Wait this many seconds, then read on.
    RetryAfterSecs(u64),
    /// End the watch.
    Stop,
}

/// What a shared watch does after an event: what it reports and how it goes
/// on. The change to its cache is given by `cache_event_for`.
#[derive(Debug, Clone, Copy, PartialEq, Eq, Structural)]
pub struct SharedStep {
    pub emission: Option<SharedEmission>,
    pub next: SharedNext,
}

/// The step of a shared watch after an event: converted objects are
/// reported as added or deleted, the end of the initial listing is
/// reported, an error is waited out for five seconds, a timeout is passed
/// over, and the end of the stream ends the watch.
/// The step of a shared watch after an event.
pub open spec fn shared_step_of(event: StreamEvent) -> SharedStep {
    match event {
        StreamEvent::Apply { converted }
        | StreamEvent::InitApply { converted } => SharedStep {
            emission: if converted {
                Some(SharedEmission::Added)
            } else {
                None
            },
            next: SharedNext::Continue,
        },
        StreamEvent::Delete { converted } => SharedStep {
            emission: if converted {
                Some(SharedEmission::Deleted)
            } else {
                None
            },
            next: SharedNext::Continue,
        },
        StreamEvent::Init => SharedStep { emission: None, next: SharedNext::Continue },
        StreamEvent::InitDone => SharedStep {
            emission: Some(SharedEmission::InitialSyncComplete),
            next: SharedNext::Continue,
        },
        StreamEvent::Error => SharedStep {
            emission: None,
            next: SharedNext::RetryAfterSecs(5),
        },
        StreamEvent::TimedOut => SharedStep {
            emission: None,
            next: SharedNext::Continue,
        },
        StreamEvent::Ended => SharedStep { emission: None, next: SharedNext::Stop },
    }
}

pub fn shared_watch_step(event: StreamEvent) -> (r: SharedStep)
    ensures
        r == shared_step_of(event),
{
    match event {
        StreamEvent::Apply { converted } | StreamEvent::InitApply { converted } => SharedStep {
            emission: if converted {
                Some(SharedEmission::Added)
            } else {
                None
            },
            next: SharedNext::Continue,
        },
        StreamEvent::Delete { converted } => SharedStep {
            emission: if converted {
                Some(SharedEmission::Deleted)
            } else {
                None
            },
            next: SharedNext::Continue,
        },
        StreamEvent::Init => SharedStep { emission: None, next: SharedNext::Continue },
        StreamEvent::InitDone => SharedStep {
            emission: Some(SharedEmission::InitialSyncComplete),
            next: SharedNext::Continue,
        },
        StreamEvent::Error => SharedStep { emission: None, next: SharedNext::RetryAfterSecs(5) },
        StreamEvent::TimedOut => SharedStep { emission: None, next: SharedNext::Continue },
        StreamEvent::Ended => SharedStep { emission: None, next: SharedNext::Stop },
    }
}

/// The change a shared watch makes to its cache after `event`, given the
/// object it delivered, if any, with its identifier and as converted (an
/// object that could not be converted is not passed).
pub open spec fn cache_change<T>(event: StreamEvent, object: Option<(Option<String>, T)>) -> Option<
    CacheEvent<T>,
> {
    match (event, object) {
        (StreamEvent::Apply { .. }, Some((uid, item))) => Some(CacheEvent::Apply { uid, item }),
        (StreamEvent::InitApply { .. }, Some((uid, item))) => Some(CacheEvent::Apply { uid, item }),
        (StreamEvent::Delete { .. }, Some((uid, _))) => Some(CacheEvent::Delete { uid }),
        (StreamEvent::Init, _) => Some(CacheEvent::Init),
        _ => None,
    }
}

/// The change a shared watch makes to its cache: a converted object that
/// was applied or listed is stored, a converted object that was deleted is
/// removed, a restart of the listing empties the cache, and nothing else
/// changes it.
pub fn cache_event_for<T>(event: StreamEvent, object: Option<(Option<String>, T)>) -> (r: Option<
    CacheEvent<T>,
>)
    ensures
        r == cache_change(event, object),
{
    match (event, object) {
        (StreamEvent::Apply { .. }, Some((uid, item))) => Some(CacheEvent::Apply { uid, item }),
        (StreamEvent::InitApply { .. }, Some((uid, item))) => Some(CacheEvent::Apply { uid, item }),
        (StreamEvent::Delete { .. }, Some((uid, _))) => Some(CacheEvent::Delete { uid }),
        (StreamEvent::Init, _) => Some(CacheEvent::Init),
        _ => None,
    }
}

/// The cache after an optional change.
pub open spec fn cache_after_change<T>(cache: Map<Seq<char>, T>, change: Option<CacheEvent<T>>) -> Map<
    Seq<char>,
    T,
> {
    match change {
        Some(e) => cache_after(cache, e),
        None => cache,
    }
}

/// What a shared watch reports matches its cache: an object with an
/// identifier that it reports as added is in the cache under that
/// identifier afterwards, one that it reports as deleted is no longer
/// there, and reporting the end of the initial listing leaves the cache as
/// it was.
pub proof fn lemma_reports_match_cache<T>(cache: Map<Seq<char>, T>, event: StreamEvent, uid: String, item: T)
    ensures
        shared_step_of(event).emission == Some(SharedEmission::Added) ==> cache_after_change(
            cache,
            cache_change(event, Some((Some(uid), item))),
        ) == cache.insert(uid@, item),
        shared_step_of(event).emission == Some(SharedEmission::Deleted) ==> cache_after_change(
            cache,
            cache_change(event, Some((Some(uid), item))),
        ) == cache.remove(uid@),
        shared_step_of(event).emission == Some(SharedEmission::InitialSyncComplete) ==> cache_after_change(
            cache,
            cache_change(event, Some((Some(uid), item))),
        ) == cache,
{
}

/// Which listing a new watch starts from agrees with the resource table:
/// every type that is listed is a known type, listed in the scope's
/// namespace exactly when the table says it is namespaced, and across the
/// cluster otherwise.
pub proof fn lemma_initial_listing_follows_scope(t: Seq<char>)
    ensures
        initial_listing_kind(t) matches Some(namespaced) ==> (find_row(t) matches Some(row)
            && row.is_namespaced == namespaced),
{
    if t == "pods"@ {
        lemma_find_row_at(0);
        assert(resource_table()[0].resource_type == "pods"@);
    } else if t == "services"@ {
        lemma_find_row_at(8);
        assert(resource_table()[8].resource_type == "services"@);
    } else if t == "configmaps"@ {
        lemma_find_row_at(14);
        assert(resource_table()[14].resource_type == "configmaps"@);
    } else if t == "secrets"@ {
        lemma_find_row_at(15);
        assert(resource_table()[15].resource_type == "secrets"@);
    } else if t == "deployments"@ {
        lemma_find_row_at(1);
        assert(resource_table()[1].resource_type == "deployments"@);
    } else if t == "replicasets"@ {
        lemma_find_row_at(6);
        assert(resource_table()[6].resource_type == "replicasets"@);
    } else if t == "statefulsets"@ {
        lemma_find_row_at(2);
        assert(resource_table()[2].resource_type == "statefulsets"@);
    } else if t == "daemonsets"@ {
        lemma_find_row_at(3);
        assert(resource_table()[3].resource_type == "daemonsets"@);
    } else if t == "ingresses"@ {
        lemma_find_row_at(9);
        assert(resource_table()[9].resource_type == "ingresses"@);
    } else if t == "nodes"@ {
        lemma_find_row_at(26);
        assert(resource_table()[26].resource_type == "nodes"@);
    } else if t == "namespaces"@ {
        lemma_find_row_at(25);
        assert(resource_table()[25].resource_type == "namespaces"@);
    }
}

} // verus!

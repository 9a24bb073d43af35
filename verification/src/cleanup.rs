//! Background tasks kept by name, and the error that a bulk cleanup
//! reports when some of its parts failed.
use vstd::prelude::*;
use crate::errors::{AppError, SystemError};
use crate::ordering::{join_strings, push_str, seq_join, views};
use crate::table::{entry_keys, KeyedTable};
use crate::shell_session::finished_contains;
use crate::text::owned;

verus! {

/// The text of one failed part of a cleanup: `Label 'id': error`.
pub open spec fn failure_text(label: Seq<char>, f: (Seq<char>, Seq<char>)) -> Seq<char> {
    label + " '"@ + f.0 + "': "@ + f.1
}

/// The texts of the failed parts.
pub open spec fn failure_texts(label: Seq<char>, fs: Seq<(String, String)>) -> Seq<Seq<char>> {
    fs.map_values(|f: (String, String)| failure_text(label, (f.0@, f.1@)))
}

/// The error of a cleanup of `resource` in which parts failed: none when
/// nothing failed, else the failures, each as `Label 'id': error`, joined
/// by semicolons after the heading.
pub fn cleanup_failure(resource: &str, heading: &str, label: &str, failures: &Vec<(String, String)>) -> (r:
    Option<AppError>)
    ensures
        failures@.len() == 0 ==> r is None,
        failures@.len() > 0 ==> (r matches Some(
            AppError::System(SystemError::ResourceUnavailable { resource: res, message }),
        ) && res@ == resource@ && message@ == heading@ + ": "@ + seq_join(
            failure_texts(label@, failures@),
            "; "@,
        )),
{
    if failures.len() == 0 {
        return None;
    }
    let mut texts: Vec<String> = Vec::new();
    let mut i: usize = 0;
    while i < failures.len()
        invariant
            i <= failures.len(),
            views(texts@) == failure_texts(label@, failures@).take(i as int),
        decreases failures.len() - i,
    {
        let ghost before = texts@;
        let mut t = owned(label);
        push_str(&mut t, " '");
        push_str(&mut t, failures[i].0.as_str());
        push_str(&mut t, "': ");
        push_str(&mut t, failures[i].1.as_str());
        texts.push(t);
        proof {
            assert(views(texts@) =~= views(before).push(t@));
            assert(failure_texts(label@, failures@).take(i + 1) =~= failure_texts(label@, failures@).take(
                i as int,
            ).push(failure_text(label@, (failures@[i as int].0@, failures@[i as int].1@))));
        }
        i = i + 1;
    }
    proof {
        assert(failure_texts(label@, failures@).take(failures.len() as int) =~= failure_texts(
            label@,
            failures@,
        ));
    }
    let mut message = owned(heading);
    push_str(&mut message, ": ");
    let joined = join_strings(&texts, "; ");
    push_str(&mut message, joined.as_str());
    Some(AppError::System(SystemError::ResourceUnavailable { resource: owned(resource), message }))
}

/// A part of the application that holds something to release: a session,
/// a stream, a background task.
pub trait Cleanup {
    /// Whether releasing this part fails.
    spec fn cleanup_fails(&self) -> bool;

    /// Releases what the part holds; an error says what went wrong.
    fn cleanup(&mut self) -> (r: Result<(), AppError>)
        ensures
            r is Err <==> old(self).cleanup_fails(),
    ;

    /// Whether the part has been cleaned up.
    fn is_cleaned_up(&self) -> bool;

    /// The part's name, for messages.
    fn component_name(&self) -> &str;
}

/// The identifiers of the parts, in order, whose cleanup fails.
pub open spec fn failing_keys<P: Cleanup>(parts: Seq<(String, P)>) -> Seq<Seq<char>>
    decreases parts.len(),
{
    if parts.len() == 0 {
        Seq::empty()
    } else {
        let rest = failing_keys(parts.drop_first());
        if parts[0].1.cleanup_fails() {
            seq![parts[0].0@] + rest
        } else {
            rest
        }
    }
}

/// The identifiers of the parts kept in `m` whose cleanup fails.
pub open spec fn failing_ids<P: Cleanup>(m: Map<Seq<char>, P>) -> Set<Seq<char>> {
    Set::new(|id: Seq<char>| m.contains_key(id) && m[id].cleanup_fails())
}

/// The failures that a bulk cleanup reports when the parts named in
/// `failing` fail: each of them once, and no other.
pub open spec fn failure_report(fs: Seq<(String, String)>, failing: Set<Seq<char>>) -> bool {
    &&& entry_keys(fs).no_duplicates()
    &&& entry_keys(fs).to_set() == failing
}

/// The failing identifiers of parts with distinct identifiers are
/// distinct, and are those of the parts that fail.
proof fn lemma_failing_keys<P: Cleanup>(parts: Seq<(String, P)>)
    requires
        entry_keys(parts).no_duplicates(),
    ensures
        failing_keys(parts).no_duplicates(),
        forall|x: Seq<char>|
            #[trigger] failing_keys(parts).contains(x) <==> exists|i: int|
                0 <= i < parts.len() && #[trigger] entry_keys(parts)[i] == x
                    && parts[i].1.cleanup_fails(),
    decreases parts.len(),
{
    if parts.len() > 0 {
        let rest = parts.drop_first();
        assert(entry_keys(rest) =~= entry_keys(parts).drop_first());
        lemma_failing_keys(rest);
        let f = failing_keys(parts);
        let fr = failing_keys(rest);
        let k0 = parts[0].0@;
        assert(entry_keys(parts)[0] == k0);
        assert forall|i: int| 0 <= i < rest.len() implies #[trigger] entry_keys(rest)[i]
            == entry_keys(parts)[i + 1] && rest[i] == parts[i + 1] by {}
        if parts[0].1.cleanup_fails() {
            assert(f == seq![k0] + fr);
            if fr.contains(k0) {
                let i = choose|i: int|
                    0 <= i < rest.len() && #[trigger] entry_keys(rest)[i] == k0
                        && rest[i].1.cleanup_fails();
                assert(entry_keys(parts)[i + 1] == entry_keys(parts)[0]);
            }
            assert forall|a: int, b: int| 0 <= a < b < f.len() implies f[a] != f[b] by {
                if a == 0 {
                    assert(f[b] == fr[b - 1]);
                    assert(fr.contains(fr[b - 1]));
                } else {
                    assert(f[a] == fr[a - 1]);
                    assert(f[b] == fr[b - 1]);
                }
            }
        } else {
            assert(f == fr);
        }
        assert forall|x: Seq<char>| #[trigger] f.contains(x) <==> exists|i: int|
            0 <= i < parts.len() && #[trigger] entry_keys(parts)[i] == x
                && parts[i].1.cleanup_fails() by {
            if f.contains(x) {
                let j = choose|j: int| 0 <= j < f.len() && f[j] == x;
                if parts[0].1.cleanup_fails() && j == 0 {
                    assert(entry_keys(parts)[0] == x);
                } else {
                    let jj = if parts[0].1.cleanup_fails() {
                        j - 1
                    } else {
                        j
                    };
                    assert(fr[jj] == x);
                    assert(fr.contains(x));
                    let i = choose|i: int|
                        0 <= i < rest.len() && #[trigger] entry_keys(rest)[i] == x
                            && rest[i].1.cleanup_fails();
                    assert(entry_keys(parts)[i + 1] == x);
                }
            }
            if exists|i: int|
                0 <= i < parts.len() && #[trigger] entry_keys(parts)[i] == x
                    && parts[i].1.cleanup_fails() {
                let i = choose|i: int|
                    0 <= i < parts.len() && #[trigger] entry_keys(parts)[i] == x
                        && parts[i].1.cleanup_fails();
                if i == 0 {
                    assert(f[0] == x);
                } else {
                    assert(entry_keys(rest)[i - 1] == x);
                    assert(fr.contains(x));
                    let j = choose|j: int| 0 <= j < fr.len() && fr[j] == x;
                    if parts[0].1.cleanup_fails() {
                        assert(f[j + 1] == x);
                    } else {
                        assert(f[j] == x);
                    }
                }
            }
        }
    }
}

/// Cleans up each of `parts` once, in order, whatever the others gave,
/// and collects the failures as identifier and error text: one for each
/// part whose cleanup failed, in the same order.
fn clean_each<P: Cleanup>(parts: Vec<(String, P)>) -> (r: Vec<(String, String)>)
    ensures
        entry_keys(r@) == failing_keys(parts@),
{
    let ghost orig = parts@;
    let mut parts = parts;
    let mut failures: Vec<(String, String)> = Vec::new();
    proof {
        assert(entry_keys(failures@) + failing_keys(parts@) =~= failing_keys(orig));
    }
    while parts.len() > 0
        invariant
            entry_keys(failures@) + failing_keys(parts@) == failing_keys(orig),
        decreases parts@.len(),
    {
        let ghost cur = parts@;
        let (id, mut part) = parts.remove(0);
        proof {
            assert(cur.remove(0) =~= cur.drop_first());
        }
        let ghost fails = part.cleanup_fails();
        let ghost before = failures@;
        match part.cleanup() {
            Ok(()) => {},
            Err(e) => {
                let text = e.to_string();
                failures.push((id, text));
            },
        }
        proof {
            if fails {
                assert(entry_keys(failures@) =~= entry_keys(before).push(id@));
                assert(failing_keys(cur) == seq![id@] + failing_keys(parts@));
                assert(entry_keys(failures@) + failing_keys(parts@) =~= entry_keys(before)
                    + failing_keys(cur));
            } else {
                assert(failures@ == before);
                assert(failing_keys(cur) == failing_keys(parts@));
            }
        }
    }
    proof {
        assert(entry_keys(failures@) + failing_keys(parts@) =~= entry_keys(failures@));
    }
    failures
}

/// The outcome of a bulk cleanup of `resource` from its failures: success
/// when nothing failed, else the error that `cleanup_failure` gives.
fn cleanup_result(resource: &str, heading: &str, label: &str, failures: &Vec<(String, String)>) -> (r:
    Result<(), AppError>)
    ensures
        failures@.len() == 0 ==> r is Ok,
        failures@.len() > 0 ==> (r matches Err(
            AppError::System(SystemError::ResourceUnavailable { resource: res, message }),
        ) && res@ == resource@ && message@ == heading@ + ": "@ + seq_join(
            failure_texts(label@, failures@),
            "; "@,
        )),
{
    match cleanup_failure(resource, heading, label, failures) {
        None => Ok(()),
        Some(e) => Err(e),
    }
}

/// Cleans up every part of `table` once and empties it; the outcome is
/// success exactly when no part failed, else the error of `resource` that
/// lists each failed part once, as `label 'id': error`.
fn bulk_cleanup<P: Cleanup>(table: &mut KeyedTable<P>, resource: &str, heading: &str, label: &str) -> (r:
    Result<(), AppError>)
    ensures
        final(table)@ == Map::<Seq<char>, P>::empty(),
        r is Ok <==> (forall|id: Seq<char>|
            #[trigger] old(table)@.contains_key(id) ==> !old(table)@[id].cleanup_fails()),
        r is Ok || (r matches Err(AppError::System(SystemError::ResourceUnavailable { resource: res, message }))
            && res@ == resource@ && exists|fs: Seq<(String, String)>|
            #[trigger] failure_report(fs, failing_ids(old(table)@)) && message@ == heading@ + ": "@
            + seq_join(failure_texts(label@, fs), "; "@)),
{
    let ghost m = table@;
    let ghost keys = table.key_list();
    let parts = table.drain();
    let ghost d = parts@;
    let failures = clean_each(parts);
    let r = cleanup_result(resource, heading, label, &failures);
    proof {
        lemma_failing_keys(d);
        let f = failing_keys(d);
        assert(entry_keys(d) == keys);
        assert forall|x: Seq<char>| #[trigger] f.contains(x) <==> failing_ids(m).contains(x) by {
            if f.contains(x) {
                let i = choose|i: int|
                    0 <= i < d.len() && #[trigger] entry_keys(d)[i] == x && d[i].1.cleanup_fails();
                assert(d[i].1 == m[keys[i]]);
                assert(entry_keys(d).to_set().contains(x));
            }
            if failing_ids(m).contains(x) {
                assert(entry_keys(d).to_set().contains(x));
                assert(entry_keys(d).contains(x));
                let i = choose|i: int| 0 <= i < entry_keys(d).len() && entry_keys(d)[i] == x;
                assert(d[i].1 == m[keys[i]]);
            }
        }
        assert(f.to_set() =~= failing_ids(m));
        if failures@.len() > 0 {
            assert(failure_report(failures@, failing_ids(m)));
            assert(f.contains(f[0]));
            assert(failing_ids(m).contains(f[0]));
        } else {
            assert forall|id: Seq<char>| #[trigger] m.contains_key(id) implies !m[id].cleanup_fails() by {
                if m[id].cleanup_fails() {
                    assert(failing_ids(m).contains(id));
                    assert(f.to_set().contains(id));
                }
            }
        }
    }
    r
}

/// Resources kept by identifier until they are cleaned up together.
#[derive(Debug)]
pub struct ResourceCollection<R> {
    resources: KeyedTable<R>,
    name: String,
    cleaned_up: bool,
}

impl<R> ResourceCollection<R> {
    /// The resources, by identifier.
    pub closed spec fn resources(&self) -> Map<Seq<char>, R> {
        self.resources@
    }

    /// Cleans up every resource once, even after another one failed, takes
    /// them all out and marks the collection as cleaned up. The failures,
    /// each as `Resource 'id': error`, make one error named after the
    /// collection; with no resources the cleanup succeeds.
    pub fn cleanup(&mut self) -> (r: Result<(), AppError>)
        where R: Cleanup
        ensures
            final(self).resources() == Map::<Seq<char>, R>::empty(),
            final(self).is_done(),
            final(self).name_text() == old(self).name_text(),
            r is Ok <==> (forall|id: Seq<char>|
                #[trigger] old(self).resources().contains_key(id) ==> !old(self).resources()[id].cleanup_fails()),
            r is Ok || (r matches Err(AppError::System(SystemError::ResourceUnavailable { resource, message }))
                && resource@ == old(self).name_text() && exists|fs: Seq<(String, String)>|
                #[trigger] failure_report(fs, failing_ids(old(self).resources())) && message@ == "Cleanup errors: "@ + seq_join(
                failure_texts("Resource"@, fs),
                "; "@,
            )),
    {
        proof {
            reveal_strlit("Cleanup errors");
            reveal_strlit(": ");
            reveal_strlit("Cleanup errors: ");
            assert("Cleanup errors"@ + ": "@ =~= "Cleanup errors: "@);
        }
        let ghost m = self.resources@;
        self.cleaned_up = true;
        let r = bulk_cleanup(&mut self.resources, self.name.as_str(), "Cleanup errors", "Resource");
        proof {
            assert(old(self).resources() == m);
            assert(failing_ids(old(self).resources()) == failing_ids(m));
        }
        r
    }

    /// Whether the collection has been cleaned up.
    pub closed spec fn is_done(&self) -> bool {
        self.cleaned_up
    }

    /// The collection's name.
    pub closed spec fn name_text(&self) -> Seq<char> {
        self.name@
    }

    /// An empty collection named `name`.
    pub fn new(name: &str) -> (r: Self)
        ensures
            r.resources() == Map::<Seq<char>, R>::empty(),
            !r.is_done(),
            r.name_text() == name@,
    {
        ResourceCollection { resources: KeyedTable::new(), name: owned(name), cleaned_up: false }
    }

    /// Keeps `resource` under `id`, replacing any resource kept there.
    pub fn add_resource(&mut self, id: String, resource: R)
        ensures
            final(self).resources() == old(self).resources().insert(id@, resource),
            final(self).is_done() == old(self).is_done(),
            final(self).name_text() == old(self).name_text(),
    {
        self.resources.insert(id, resource);
    }

    /// Takes the resource `id` out of the collection, if it is there.
    pub fn remove_resource(&mut self, id: &str) -> (r: Option<R>)
        ensures
            final(self).resources() == old(self).resources().remove(id@),
            final(self).is_done() == old(self).is_done(),
            final(self).name_text() == old(self).name_text(),
            match r {
                Some(x) => old(self).resources().contains_key(id@) && x == old(self).resources()[id@],
                None => !old(self).resources().contains_key(id@),
            },
    {
        self.resources.remove(id)
    }

    /// The number of resources kept.
    pub fn resource_count(&self) -> (r: usize)
        ensures
            r == self.resources().len(),
    {
        self.resources.len()
    }

    /// The identifiers of the resources kept, each once.
    pub fn resource_ids(&self) -> (r: Vec<String>)
        ensures
            views(r@).to_set() == self.resources().dom(),
            views(r@).no_duplicates(),
    {
        self.resources.keys()
    }

    /// Whether the collection has been cleaned up.
    pub fn is_cleaned_up(&self) -> (r: bool)
        ensures
            r == self.is_done(),
    {
        self.cleaned_up
    }

    /// The collection's name.
    pub fn component_name(&self) -> (r: &str)
        ensures
            r@ == self.name_text(),
    {
        self.name.as_str()
    }
}

/// Background tasks kept by identifier, each with the handle of its task.
#[derive(Debug)]
pub struct TaskManager<H> {
    tasks: KeyedTable<H>,
    name: String,
    cleaned_up: bool,
}

/// Whether an identifier is among a list of identifiers.
pub open spec fn listed(ids: Seq<String>, k: Seq<char>) -> bool {
    views(ids).contains(k)
}

impl<H> TaskManager<H> {
    /// The tasks, by identifier.
    pub closed spec fn tasks(&self) -> Map<Seq<char>, H> {
        self.tasks@
    }

    /// Stops every task once, even after another one failed, forgets them
    /// all and marks the manager as cleaned up. The failures, each as
    /// `Task 'id': error`, make one error named after the manager; with no
    /// tasks the cleanup succeeds.
    pub fn cleanup(&mut self) -> (r: Result<(), AppError>)
        where H: Cleanup
        ensures
            final(self).tasks() == Map::<Seq<char>, H>::empty(),
            final(self).is_done(),
            final(self).name_text() == old(self).name_text(),
            r is Ok <==> (forall|id: Seq<char>|
                #[trigger] old(self).tasks().contains_key(id) ==> !old(self).tasks()[id].cleanup_fails()),
            r is Ok || (r matches Err(AppError::System(SystemError::ResourceUnavailable { resource, message }))
                && resource@ == old(self).name_text() && exists|fs: Seq<(String, String)>|
                #[trigger] failure_report(fs, failing_ids(old(self).tasks())) && message@ == "Task cleanup errors: "@ + seq_join(
                failure_texts("Task"@, fs),
                "; "@,
            )),
    {
        proof {
            reveal_strlit("Task cleanup errors");
            reveal_strlit(": ");
            reveal_strlit("Task cleanup errors: ");
            assert("Task cleanup errors"@ + ": "@ =~= "Task cleanup errors: "@);
        }
        let ghost m = self.tasks@;
        self.cleaned_up = true;
        let r = bulk_cleanup(&mut self.tasks, self.name.as_str(), "Task cleanup errors", "Task");
        proof {
            assert(old(self).tasks() == m);
            assert(failing_ids(old(self).tasks()) == failing_ids(m));
        }
        r
    }

    /// Whether the manager has been cleaned up.
    pub closed spec fn is_done(&self) -> bool {
        self.cleaned_up
    }

    /// The manager's name.
    pub closed spec fn name_text(&self) -> Seq<char> {
        self.name@
    }

    /// A manager named `name` without tasks.
    pub fn new(name: &str) -> (r: Self)
        ensures
            r.tasks() == Map::<Seq<char>, H>::empty(),
            !r.is_done(),
            r.name_text() == name@,
    {
        TaskManager { tasks: KeyedTable::new(), name: owned(name), cleaned_up: false }
    }

    /// Keeps a started task under `id`, replacing any task kept there.
    pub fn spawn_task(&mut self, id: String, handle: H)
        ensures
            final(self).tasks() == old(self).tasks().insert(id@, handle),
            final(self).is_done() == old(self).is_done(),
            final(self).name_text() == old(self).name_text(),
    {
        self.tasks.insert(id, handle);
    }

    /// Forgets the task `id` and hands back its handle (to be stopped), if
    /// there is one.
    pub fn stop_task(&mut self, id: &str) -> (r: Option<H>)
        ensures
            final(self).tasks() == old(self).tasks().remove(id@),
            final(self).is_done() == old(self).is_done(),
            final(self).name_text() == old(self).name_text(),
            match r {
                Some(h) => old(self).tasks().contains_key(id@) && h == old(self).tasks()[id@],
                None => !old(self).tasks().contains_key(id@),
            },
    {
        self.tasks.remove(id)
    }

    /// The number of tasks kept.
    pub fn task_count(&self) -> (r: usize)
        ensures
            r == self.tasks().len(),
    {
        self.tasks.len()
    }

    /// Forgets the tasks that have finished (those among `finished`) and
    /// says how many were forgotten.
    pub fn clean_finished_tasks(&mut self, finished: &Vec<String>) -> (r: usize)
        ensures
            final(self).tasks() == old(self).tasks().restrict(
                Set::new(|k: Seq<char>| !listed(finished@, k)),
            ),
            r == old(self).tasks().len() - final(self).tasks().len(),
            final(self).is_done() == old(self).is_done(),
            final(self).name_text() == old(self).name_text(),
    {
        proof {
            assert(Set::new(|k: Seq<char>| !listed(finished@, k)) =~= Set::new(
                |k: Seq<char>| !views(finished@).contains(k),
            ));
        }
        self.tasks.remove_keys(finished)
    }

    /// The identifiers of the tasks that have not finished (those not among
    /// `finished`), each once.
    pub fn active_task_ids(&self, finished: &Vec<String>) -> (r: Vec<String>)
        ensures
            views(r@).to_set() == self.tasks().dom().filter(|k: Seq<char>| !listed(finished@, k)),
            views(r@).no_duplicates(),
    {
        let keys = self.tasks.keys();
        let ghost ks = views(keys@);
        let ghost mut src: Seq<int> = Seq::empty();
        let mut r: Vec<String> = Vec::new();
        let mut i: usize = 0;
        while i < keys.len()
            invariant
                i <= keys.len(),
                ks == views(keys@),
                ks.no_duplicates(),
                ks.to_set() == self.tasks().dom(),
                views(r@).no_duplicates(),
                src.len() == r@.len(),
                forall|j: int|
                    0 <= j < r@.len() ==> 0 <= #[trigger] src[j] < i && ks[src[j]] == views(r@)[j]
                        && !listed(finished@, views(r@)[j]),
                forall|m: int| 0 <= m < i && !listed(finished@, ks[m]) ==> views(r@).contains(#[trigger] ks[m]),
            decreases keys.len() - i,
        {
            if !finished_contains(finished, keys[i].as_str()) {
                let ghost before = views(r@);
                let k = owned(keys[i].as_str());
                r.push(k);
                proof {
                    assert(views(r@) =~= before.push(ks[i as int]));
                    assert forall|j: int| 0 <= j < before.len() implies before[j] != ks[i as int] by {
                        assert(ks[src[j]] != ks[i as int]);
                    }
                    src = src.push(i as int);
                    assert forall|m: int| 0 <= m < i + 1 && !listed(finished@, ks[m]) implies views(
                        r@,
                    ).contains(#[trigger] ks[m]) by {
                        if m < i {
                            let j = choose|j: int| 0 <= j < before.len() && before[j] == ks[m];
                            assert(views(r@)[j] == ks[m]);
                        } else {
                            assert(views(r@)[before.len() as int] == ks[m]);
                        }
                    }
                }
            }
            i = i + 1;
        }
        proof {
            let want = self.tasks().dom().filter(|k: Seq<char>| !listed(finished@, k));
            assert forall|k: Seq<char>| views(r@).to_set().contains(k) <==> want.contains(k) by {
                if views(r@).contains(k) {
                    let j = choose|j: int| 0 <= j < views(r@).len() && views(r@)[j] == k;
                    assert(ks.contains(ks[src[j]]));
                }
                if want.contains(k) {
                    assert(ks.to_set().contains(k));
                    let m = choose|m: int| 0 <= m < ks.len() && ks[m] == k;
                    assert(views(r@).contains(ks[m]));
                }
            }
            assert(views(r@).to_set() =~= want);
        }
        r
    }

    /// The number of tasks that have not finished (those not among
    /// `finished`).
    pub fn active_task_count(&self, finished: &Vec<String>) -> (r: usize)
        ensures
            r == self.tasks().dom().filter(|k: Seq<char>| !listed(finished@, k)).len(),
    {
        let ids = self.active_task_ids(finished);
        proof {
            views(ids@).unique_seq_to_set();
        }
        ids.len()
    }

    /// Whether the manager has been cleaned up.
    pub fn is_cleaned_up(&self) -> (r: bool)
        ensures
            r == self.is_done(),
    {
        self.cleaned_up
    }

    /// The manager's name.
    pub fn component_name(&self) -> (r: &str)
        ensures
            r@ == self.name_text(),
    {
        self.name.as_str()
    }
}

/// A collection is itself a part: it fails to clean up when one of its
/// resources does.
impl<R: Cleanup> Cleanup for ResourceCollection<R> {
    open spec fn cleanup_fails(&self) -> bool {
        exists|id: Seq<char>| #[trigger] self.resources().contains_key(id) && self.resources()[id].cleanup_fails()
    }

    fn cleanup(&mut self) -> (r: Result<(), AppError>) {
        ResourceCollection::cleanup(self)
    }

    fn is_cleaned_up(&self) -> bool {
        ResourceCollection::is_cleaned_up(self)
    }

    fn component_name(&self) -> &str {
        ResourceCollection::component_name(self)
    }
}

/// A task manager is itself a part: it fails to clean up when one of its
/// tasks does.
impl<H: Cleanup> Cleanup for TaskManager<H> {
    open spec fn cleanup_fails(&self) -> bool {
        exists|id: Seq<char>| #[trigger] self.tasks().contains_key(id) && self.tasks()[id].cleanup_fails()
    }

    fn cleanup(&mut self) -> (r: Result<(), AppError>) {
        TaskManager::cleanup(self)
    }

    fn is_cleaned_up(&self) -> bool {
        TaskManager::is_cleaned_up(self)
    }

    fn component_name(&self) -> &str {
        TaskManager::component_name(self)
    }
}

} // verus!

//! Shell sessions into pods: their configuration and its checks, the state
//! of one session, and the table of sessions with its limit and idle
//! timeout.
use vstd::prelude::*;
use crate::errors::ShellError;
use crate::ordering::views;
use crate::table::{all_values_of, lemma_drained_values, KeyedTable};
use crate::text::owned;

verus! {

/// How a shell session into a pod is opened.
#[derive(Debug)]
pub struct ShellSessionConfig {
    pub pod_name: String,
    pub namespace: String,
    pub container_name: Option<String>,
    pub cols: u16,
    pub rows: u16,
    pub shell_command: Option<String>,
    pub timeout_seconds: u64,
}

impl Default for ShellSessionConfig {
    /// No pod or namespace yet, an 80 by 24 terminal, the default shell and
    /// a five-minute timeout.
    fn default() -> (r: Self)
        ensures
            r.pod_name@ == Seq::<char>::empty(),
            r.namespace@ == Seq::<char>::empty(),
            r.container_name is None,
            r.cols == 80,
            r.rows == 24,
            r.shell_command is None,
            r.timeout_seconds == 300,
    {
        ShellSessionConfig {
            pod_name: String::new(),
            namespace: String::new(),
            container_name: None,
            cols: 80,
            rows: 24,
            shell_command: None,
            timeout_seconds: 300,
        }
    }
}

/// The problem with a session configuration, if any: an empty pod name,
/// then an empty namespace, then an empty shell command, as field and
/// message.
pub open spec fn config_problem(config: ShellSessionConfig) -> Option<(Seq<char>, Seq<char>)> {
    if config.pod_name@.len() == 0 {
        Some(("pod_name"@, "Pod name cannot be empty"@))
    } else if config.namespace@.len() == 0 {
        Some(("namespace"@, "Namespace cannot be empty"@))
    } else if config.shell_command matches Some(c) && c@.len() == 0 {
        Some(("shell_command"@, "Shell command cannot be empty"@))
    } else {
        None
    }
}

/// Checks a session configuration.
pub fn validate_config(config: &ShellSessionConfig) -> (r: Result<(), ShellError>)
    ensures
        match config_problem(*config) {
            None => r is Ok,
            Some((f, m)) => r matches Err(ShellError::ValidationFailed { field, message })
                && field@ == f && message@ == m,
        },
{
    if config.pod_name.as_str().unicode_len() == 0 {
        return Err(
            ShellError::ValidationFailed {
                field: owned("pod_name"),
                message: owned("Pod name cannot be empty"),
            },
        );
    }
    if config.namespace.as_str().unicode_len() == 0 {
        return Err(
            ShellError::ValidationFailed {
                field: owned("namespace"),
                message: owned("Namespace cannot be empty"),
            },
        );
    }
    match &config.shell_command {
        Some(c) => {
            if c.as_str().unicode_len() == 0 {
                return Err(
                    ShellError::ValidationFailed {
                        field: owned("shell_command"),
                        message: owned("Shell command cannot be empty"),
                    },
                );
            }
        },
        None => {},
    }
    Ok(())
}

/// A shell session: its identifier and configuration, the handle of its
/// task, when it started and was last used (milliseconds since the epoch),
/// and whether it is still open.
#[derive(Debug)]
pub struct ShellSession<H> {
    pub id: String,
    pub config: ShellSessionConfig,
    pub handle: H,
    pub started_at: i64,
    pub last_activity: i64,
    pub is_active: bool,
}

/// A session as it is once closed.
pub open spec fn closed<H>(s: ShellSession<H>) -> ShellSession<H> {
    ShellSession { is_active: false, ..s }
}

/// Terminating a session undoes adding it: the session handed back is the
/// added one, closed, and the other sessions are as they were.
pub proof fn lemma_terminate_undoes_add<H>(sessions: Map<Seq<char>, ShellSession<H>>, session: ShellSession<H>)
    requires
        !sessions.contains_key(session.id@),
    ensures
        sessions.insert(session.id@, session).contains_key(session.id@),
        closed(sessions.insert(session.id@, session)[session.id@]) == closed(session),
        sessions.insert(session.id@, session).remove(session.id@) == sessions,
{
    assert(sessions.insert(session.id@, session).remove(session.id@) =~= sessions);
}

/// How long, in milliseconds, from `earlier` to `later`.
pub open spec fn elapsed(later: i64, earlier: i64) -> int {
    later - earlier
}

impl<H> ShellSession<H> {
    /// An open session started `now`.
    pub fn new(id: String, config: ShellSessionConfig, handle: H, now: i64) -> (r: Self)
        ensures
            r == (ShellSession { id, config, handle, started_at: now, last_activity: now, is_active: true }),
    {
        ShellSession { id, config, handle, started_at: now, last_activity: now, is_active: true }
    }

    /// Records input sent `now`; a closed session refuses it.
    pub fn send_input(&mut self, now: i64) -> (r: Result<(), ShellError>)
        ensures
            old(self).is_active ==> r is Ok && *final(self) == (ShellSession {
                last_activity: now,
                ..*old(self)
            }),
            !old(self).is_active ==> *final(self) == *old(self) && (r matches Err(
                ShellError::SessionNotActive { session_id },
            ) && session_id@ == old(self).id@),
    {
        if !self.is_active {
            return Err(ShellError::SessionNotActive { session_id: owned(self.id.as_str()) });
        }
        self.last_activity = now;
        Ok(())
    }

    /// Whether the session is open and its task still runs.
    pub fn is_session_active(&self, task_finished: bool) -> (r: bool)
        ensures
            r == (self.is_active && !task_finished),
    {
        self.is_active && !task_finished
    }

    /// How long the session has run at `now`, in milliseconds.
    pub fn duration(&self, now: i64) -> (r: i128)
        ensures
            r == elapsed(now, self.started_at),
    {
        now as i128 - self.started_at as i128
    }

    /// Whether the session has been idle at `now` for longer than
    /// `idle_timeout` milliseconds.
    pub fn is_idle(&self, now: i64, idle_timeout: i64) -> (r: bool)
        ensures
            r == (elapsed(now, self.last_activity) > idle_timeout),
    {
        now as i128 - self.last_activity as i128 > idle_timeout as i128
    }

    /// Closes the session (its task is then stopped).
    pub fn terminate(&mut self)
        ensures
            *final(self) == (ShellSession { is_active: false, ..*old(self) }),
    {
        self.is_active = false;
    }
}

/// What the user interface is told about an open session; times in
/// milliseconds.
#[derive(Debug)]
pub struct ShellSessionInfo {
    pub id: String,
    pub pod_name: String,
    pub namespace: String,
    pub container_name: Option<String>,
    pub started_at: i64,
    pub duration: i128,
    pub is_active: bool,
}

/// Whether the periodic cleanup removes a session at `now`: it is closed,
/// its task has finished, or it has been idle longer than the timeout.
pub open spec fn needs_cleanup<H>(s: ShellSession<H>, finished: bool, now: i64, idle_timeout: i64) -> bool {
    !s.is_active || finished || elapsed(now, s.last_activity) > idle_timeout
}

/// The open sessions, by identifier, with their limit and idle timeout.
#[derive(Debug)]
pub struct ShellSessionManager<H> {
    sessions: KeyedTable<ShellSession<H>>,
    max_sessions: usize,
    idle_timeout: i64,
}

/// The most sessions open at once, unless configured otherwise.
pub const DEFAULT_MAX_SESSIONS: usize = 10;

/// The idle timeout of a session, in milliseconds (30 minutes), unless
/// configured otherwise.
pub const DEFAULT_IDLE_TIMEOUT_MILLIS: i64 = 1_800_000;

/// How often, in seconds, idle sessions are looked for.
pub const SESSION_CLEANUP_INTERVAL_SECS: u64 = 60;

impl<H> ShellSessionManager<H> {
    /// The sessions, by identifier.
    pub closed spec fn sessions(&self) -> Map<Seq<char>, ShellSession<H>> {
        self.sessions@
    }

    /// The most sessions open at once.
    pub closed spec fn max_sessions(&self) -> usize {
        self.max_sessions
    }

    /// The idle timeout, in milliseconds.
    pub closed spec fn idle_timeout(&self) -> i64 {
        self.idle_timeout
    }

    /// No sessions, the default limit and idle timeout.
    pub fn new() -> (r: Self)
        ensures
            r.sessions() == Map::<Seq<char>, ShellSession<H>>::empty(),
            r.max_sessions() == DEFAULT_MAX_SESSIONS,
            r.idle_timeout() == DEFAULT_IDLE_TIMEOUT_MILLIS,
    {
        ShellSessionManager {
            sessions: KeyedTable::new(),
            max_sessions: DEFAULT_MAX_SESSIONS,
            idle_timeout: DEFAULT_IDLE_TIMEOUT_MILLIS,
        }
    }

    /// The same manager with another limit.
    pub fn with_max_sessions(self, max_sessions: usize) -> (r: Self)
        ensures
            r.sessions() == self.sessions(),
            r.max_sessions() == max_sessions,
            r.idle_timeout() == self.idle_timeout(),
    {
        ShellSessionManager { max_sessions, ..self }
    }

    /// The same manager with another idle timeout, in milliseconds.
    pub fn with_idle_timeout(self, idle_timeout: i64) -> (r: Self)
        ensures
            r.sessions() == self.sessions(),
            r.max_sessions() == self.max_sessions(),
            r.idle_timeout() == idle_timeout,
    {
        ShellSessionManager { idle_timeout, ..self }
    }

    /// The most sessions open at once.
    pub fn max_session_count(&self) -> (r: usize)
        ensures
            r == self.max_sessions(),
    {
        self.max_sessions
    }

    /// The number of sessions.
    pub fn session_count(&self) -> (r: usize)
        ensures
            r == self.sessions().len(),
    {
        self.sessions.len()
    }

    /// Whether a session with `config` may start: not when the limit is
    /// reached, nor when the configuration has a problem (checked in that
    /// order).
    pub fn check_new_session(&self, config: &ShellSessionConfig) -> (r: Result<(), ShellError>)
        ensures
            self.sessions().len() >= self.max_sessions() ==> (r matches Err(
                ShellError::TooManySessions { current, max },
            ) && current == self.sessions().len() && max == self.max_sessions()),
            self.sessions().len() < self.max_sessions() ==> match config_problem(*config) {
                None => r is Ok,
                Some((f, m)) => r matches Err(ShellError::ValidationFailed { field, message })
                    && field@ == f && message@ == m,
            },
    {
        let current = self.sessions.len();
        if current >= self.max_sessions {
            return Err(ShellError::TooManySessions { current, max: self.max_sessions });
        }
        validate_config(config)
    }

    /// Records a started session under its identifier.
    pub fn add_session(&mut self, session: ShellSession<H>)
        ensures
            final(self).sessions() == old(self).sessions().insert(session.id@, session),
            final(self).max_sessions() == old(self).max_sessions(),
            final(self).idle_timeout() == old(self).idle_timeout(),
    {
        let id = owned(session.id.as_str());
        self.sessions.insert(id, session);
    }

    /// Records input sent `now` to the session `session_id`: an unknown
    /// session is not found, a closed one refuses it.
    pub fn send_input(&mut self, session_id: &str, now: i64) -> (r: Result<(), ShellError>)
        ensures
            final(self).max_sessions() == old(self).max_sessions(),
            final(self).idle_timeout() == old(self).idle_timeout(),
            !old(self).sessions().contains_key(session_id@) ==> final(self).sessions() == old(
                self,
            ).sessions() && (r matches Err(ShellError::SessionNotFound { session_id: s })
                && s@ == session_id@),
            old(self).sessions().contains_key(session_id@) ==> ({
                let s = old(self).sessions()[session_id@];
                if s.is_active {
                    r is Ok && final(self).sessions() == old(self).sessions().insert(
                        session_id@,
                        ShellSession { last_activity: now, ..s },
                    )
                } else {
                    final(self).sessions() == old(self).sessions() && (r matches Err(
                        ShellError::SessionNotActive { session_id: x },
                    ) && x@ == s.id@)
                }
            }),
    {
        match self.sessions.remove(session_id) {
            None => Err(ShellError::SessionNotFound { session_id: owned(session_id) }),
            Some(mut s) => {
                let r = s.send_input(now);
                self.sessions.insert(owned(session_id), s);
                proof {
                    if !old(self).sessions()[session_id@].is_active {
                        assert(self.sessions() =~= old(self).sessions());
                    }
                }
                r
            },
        }
    }

    /// Removes the session `session_id`, closed, and hands it back (its task
    /// is then stopped); an unknown session is not found.
    pub fn terminate_session(&mut self, session_id: &str) -> (r: Result<ShellSession<H>, ShellError>)
        ensures
            final(self).max_sessions() == old(self).max_sessions(),
            final(self).idle_timeout() == old(self).idle_timeout(),
            final(self).sessions() == old(self).sessions().remove(session_id@),
            match r {
                Ok(s) => old(self).sessions().contains_key(session_id@) && s == (ShellSession {
                    is_active: false,
                    ..old(self).sessions()[session_id@]
                }),
                Err(e) => !old(self).sessions().contains_key(session_id@) && (e matches ShellError::SessionNotFound {
                    session_id: x,
                } && x@ == session_id@),
            },
    {
        match self.sessions.remove(session_id) {
            Some(mut s) => {
                s.terminate();
                Ok(s)
            },
            None => Err(ShellError::SessionNotFound { session_id: owned(session_id) }),
        }
    }

    /// The identifiers of the sessions that the periodic cleanup removes at
    /// `now`: closed ones, those whose task is among `finished`, and those
    /// idle for longer than the timeout.
    pub fn sessions_to_clean(&self, now: i64, finished: &Vec<String>) -> (r: Vec<String>)
        ensures
            forall|i: int|
                0 <= i < r@.len() ==> self.sessions().contains_key(#[trigger] r@[i]@) && needs_cleanup(
                    self.sessions()[r@[i]@],
                    views(finished@).contains(r@[i]@),
                    now,
                    self.idle_timeout(),
                ),
            forall|k: Seq<char>|
                #[trigger] self.sessions().contains_key(k) && needs_cleanup(
                    self.sessions()[k],
                    views(finished@).contains(k),
                    now,
                    self.idle_timeout(),
                ) ==> views(r@).contains(k),
            views(r@).no_duplicates(),
    {
        let keys = self.sessions.keys();
        let mut r: Vec<String> = Vec::new();
        let ghost mut src: Seq<int> = Seq::empty();
        let mut i: usize = 0;
        while i < keys.len()
            invariant
                i <= keys.len(),
                views(keys@) == self.sessions.key_list(),
                self.sessions.key_list().to_set() == self.sessions@.dom(),
                self.sessions.key_list().no_duplicates(),
                src.len() == r@.len(),
                forall|j: int| 0 <= j < r@.len() ==> 0 <= #[trigger] src[j] < i && views(keys@)[src[j]] == r@[j]@,
                views(r@).no_duplicates(),
                forall|j: int|
                    0 <= j < r@.len() ==> self.sessions().contains_key(#[trigger] r@[j]@)
                        && needs_cleanup(
                        self.sessions()[r@[j]@],
                        views(finished@).contains(r@[j]@),
                        now,
                        self.idle_timeout(),
                    ),
                forall|j: int|
                    0 <= j < i && needs_cleanup(
                        self.sessions()[#[trigger] views(keys@)[j]],
                        views(finished@).contains(views(keys@)[j]),
                        now,
                        self.idle_timeout(),
                    ) ==> views(r@).contains(views(keys@)[j]),
            decreases keys.len() - i,
        {
            let k = keys[i].as_str();
            proof {
                assert(views(keys@)[i as int] == k@);
                assert(self.sessions.key_list().contains(k@));
            }
            let s = match self.sessions.get(k) {
                Some(s) => s,
                None => {
                    assert(false);
                    return r;
                },
            };
            let done = finished_contains(finished, k);
            if !s.is_active || done || s.is_idle(now, self.idle_timeout) {
                let ghost before = r@;
                r.push(owned(k));
                proof {
                    assert(views(r@) =~= views(before).push(k@));
                    assert forall|j: int| 0 <= j < before.len() implies before[j]@ != k@ by {
                        assert(views(keys@)[src[j]] != views(keys@)[i as int]);
                    }
                    src = src.push(i as int);
                    assert forall|j: int| 0 <= j < r@.len() implies 0 <= #[trigger] src[j] < i + 1 && views(
                        keys@,
                    )[src[j]] == r@[j]@ by {
                        if j < before.len() {
                            assert(r@[j] == before[j]);
                        }
                    }
                    assert forall|a: int, b: int| 0 <= a < b < views(r@).len() implies views(r@)[a]
                        != views(r@)[b] by {
                        assert(r@[a] == before[a]);
                        if b < before.len() {
                            assert(r@[b] == before[b]);
                        }
                    }
                    assert forall|j: int| 0 <= j < i implies (needs_cleanup(
                        self.sessions()[#[trigger] views(keys@)[j]],
                        views(finished@).contains(views(keys@)[j]),
                        now,
                        self.idle_timeout(),
                    ) ==> views(r@).contains(views(keys@)[j])) by {
                        if needs_cleanup(
                            self.sessions()[views(keys@)[j]],
                            views(finished@).contains(views(keys@)[j]),
                            now,
                            self.idle_timeout(),
                        ) {
                            let w = choose|w: int|
                                0 <= w < views(before).len() && views(before)[w] == views(keys@)[j];
                            assert(views(r@)[w] == views(keys@)[j]);
                        }
                    }
                    assert(views(r@)[before.len() as int] == k@);
                }
            }
            i = i + 1;
        }
        proof {
            assert forall|k: Seq<char>|
                #[trigger] self.sessions().contains_key(k) && needs_cleanup(
                    self.sessions()[k],
                    views(finished@).contains(k),
                    now,
                    self.idle_timeout(),
                ) implies views(r@).contains(k) by {
                assert(self.sessions.key_list().to_set().contains(k));
                let j = choose|j: int|
                    0 <= j < self.sessions.key_list().len() && self.sessions.key_list()[j] == k;
                assert(views(keys@)[j] == k);
            }
        }
        r
    }

    /// The open sessions whose task still runs (those not among
    /// `finished`), described at `now`.
    pub fn list_sessions(&self, now: i64, finished: &Vec<String>) -> (r: Vec<ShellSessionInfo>)
        ensures
            forall|i: int|
                0 <= i < r@.len() ==> {
                    let info = #[trigger] r@[i];
                    let s = self.sessions()[info.id@];
                    &&& self.sessions().contains_key(info.id@)
                    &&& s.is_active
                    &&& !views(finished@).contains(info.id@)
                    &&& info.pod_name@ == s.config.pod_name@
                    &&& info.namespace@ == s.config.namespace@
                    &&& info.started_at == s.started_at
                    &&& info.duration == elapsed(now, s.started_at)
                    &&& info.is_active
                },
            forall|k: Seq<char>|
                #[trigger] self.sessions().contains_key(k) && self.sessions()[k].is_active
                    && !views(finished@).contains(k) ==> exists|i: int|
                    0 <= i < r@.len() && r@[i].id@ == k,
            forall|i: int, j: int| 0 <= i < j < r@.len() ==> (#[trigger] r@[i]).id@ != (#[trigger] r@[j]).id@,
    {
        let keys = self.sessions.keys();
        let mut r: Vec<ShellSessionInfo> = Vec::new();
        let ghost mut src: Seq<int> = Seq::empty();
        let mut i: usize = 0;
        while i < keys.len()
            invariant
                i <= keys.len(),
                views(keys@) == self.sessions.key_list(),
                self.sessions.key_list().to_set() == self.sessions@.dom(),
                self.sessions.key_list().no_duplicates(),
                src.len() == r@.len(),
                forall|j: int| 0 <= j < r@.len() ==> 0 <= #[trigger] src[j] < i && views(keys@)[src[j]] == r@[j].id@,
                forall|a: int, b: int| 0 <= a < b < r@.len() ==> (#[trigger] r@[a]).id@ != (#[trigger] r@[b]).id@,
                forall|j: int|
                    0 <= j < r@.len() ==> {
                        let info = #[trigger] r@[j];
                        let s = self.sessions()[info.id@];
                        &&& self.sessions().contains_key(info.id@)
                        &&& s.is_active
                        &&& !views(finished@).contains(info.id@)
                        &&& info.pod_name@ == s.config.pod_name@
                        &&& info.namespace@ == s.config.namespace@
                        &&& info.started_at == s.started_at
                        &&& info.duration == elapsed(now, s.started_at)
                        &&& info.is_active
                    },
                forall|j: int|
                    0 <= j < i && self.sessions()[#[trigger] views(keys@)[j]].is_active && !views(
                        finished@,
                    ).contains(views(keys@)[j]) ==> exists|w: int|
                        0 <= w < r@.len() && r@[w].id@ == views(keys@)[j],
            decreases keys.len() - i,
        {
            let k = keys[i].as_str();
            proof {
                assert(views(keys@)[i as int] == k@);
                assert(self.sessions.key_list().contains(k@));
            }
            let s = match self.sessions.get(k) {
                Some(s) => s,
                None => {
                    assert(false);
                    return r;
                },
            };
            if s.is_session_active(finished_contains(finished, k)) {
                let ghost before = r@;
                let container = match &s.config.container_name {
                    Some(c) => Some(owned(c.as_str())),
                    None => None,
                };
                r.push(
                    ShellSessionInfo {
                        id: owned(k),
                        pod_name: owned(s.config.pod_name.as_str()),
                        namespace: owned(s.config.namespace.as_str()),
                        container_name: container,
                        started_at: s.started_at,
                        duration: s.duration(now),
                        is_active: true,
                    },
                );
                proof {
                    assert(r@[before.len() as int].id@ == k@);
                    assert forall|j: int| 0 <= j < before.len() implies before[j].id@ != k@ by {
                        assert(views(keys@)[src[j]] != views(keys@)[i as int]);
                    }
                    src = src.push(i as int);
                    assert forall|j: int| 0 <= j < r@.len() implies 0 <= #[trigger] src[j] < i + 1 && views(
                        keys@,
                    )[src[j]] == r@[j].id@ by {
                        if j < before.len() {
                            assert(r@[j] == before[j]);
                        }
                    }
                    assert forall|a: int, b: int| 0 <= a < b < r@.len() implies (#[trigger] r@[a]).id@
                        != (#[trigger] r@[b]).id@ by {
                        assert(r@[a] == before[a]);
                        if b < before.len() {
                            assert(r@[b] == before[b]);
                        }
                    }
                    assert forall|j: int|
                        0 <= j < i && self.sessions()[#[trigger] views(keys@)[j]].is_active && !views(
                            finished@,
                        ).contains(views(keys@)[j]) implies exists|w: int|
                        0 <= w < r@.len() && r@[w].id@ == views(keys@)[j] by {
                        let w = choose|w: int| 0 <= w < before.len() && before[w].id@ == views(keys@)[j];
                        assert(r@[w] == before[w]);
                    }
                }
            }
            i = i + 1;
        }
        proof {
            assert forall|k: Seq<char>|
                #[trigger] self.sessions().contains_key(k) && self.sessions()[k].is_active && !views(
                    finished@,
                ).contains(k) implies exists|i: int| 0 <= i < r@.len() && r@[i].id@ == k by {
                assert(self.sessions.key_list().to_set().contains(k));
                let j = choose|j: int|
                    0 <= j < self.sessions.key_list().len() && self.sessions.key_list()[j] == k;
                assert(views(keys@)[j] == k);
            }
        }
        r
    }

    /// Removes every session, closed, and hands them back (their tasks are
    /// then stopped).
    pub fn cleanup(&mut self) -> (r: Vec<ShellSession<H>>)
        ensures
            final(self).sessions() == Map::<Seq<char>, ShellSession<H>>::empty(),
            final(self).max_sessions() == old(self).max_sessions(),
            final(self).idle_timeout() == old(self).idle_timeout(),
            r@.len() == old(self).sessions().len(),
            forall|i: int| 0 <= i < r@.len() ==> !(#[trigger] r@[i]).is_active,
            all_values_of(r@, old(self).sessions().map_values(|s: ShellSession<H>| closed(s))),
    {
        let n = self.sessions.len();
        let entries = self.sessions.drain();
        assert(entries@.len() == n);
        let ghost all = entries@;
        let mut r: Vec<ShellSession<H>> = Vec::new();
        for e in it: entries
            invariant
                it.seq() == all,
                all.len() == n,
                n == old(self).sessions().len(),
                r@.len() == it.index(),
                forall|i: int| 0 <= i < r@.len() ==> !(#[trigger] r@[i]).is_active,
                forall|j: int| 0 <= j < r@.len() ==> r@[j] == closed(#[trigger] all[j].1),
        {
            let (_, mut s) = e;
            s.terminate();
            r.push(s);
        }
        proof {
            lemma_drained_values(all, old(self).sessions(), r@, |s: ShellSession<H>| closed(s));
        }
        r
    }
}

/// Whether `id` is among `ids`.
pub(crate) fn finished_contains(ids: &Vec<String>, id: &str) -> (r: bool)
    ensures
        r == views(ids@).contains(id@),
{
    let mut i: usize = 0;
    while i < ids.len()
        invariant
            i <= ids.len(),
            forall|j: int| 0 <= j < i ==> views(ids@)[j] != id@,
        decreases ids.len() - i,
    {
        if crate::text::str_eq(ids[i].as_str(), id) {
            assert(views(ids@)[i as int] == id@);
            return true;
        }
        i = i + 1;
    }
    proof {
        if views(ids@).contains(id@) {
            let j = choose|j: int| 0 <= j < views(ids@).len() && views(ids@)[j] == id@;
            assert(views(ids@)[j] != id@);
        }
    }
    false
}

} // verus!

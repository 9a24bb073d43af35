//! Pod log streams: how a stream is named, what is asked of the cluster
//! when it starts, what each step of the stream emits, and the table of the
//! streams that run.
use vstd::prelude::*;
use crate::ordering::{push_str, views};
use crate::table::{all_values_of, lemma_drained_values, KeyedTable};
use crate::text::{concat, owned};

verus! {

/// How many of the latest lines a stream starts with.
pub const LOG_TAIL_LINES: i64 = 50;

/// How long, in seconds, a stream waits to connect and then for each line.
pub const LOG_TIMEOUT_SECS: u64 = 30;

/// How often, in seconds, finished streams are looked for.
pub const LOG_CLEANUP_INTERVAL_SECS: u64 = 60;

/// The name of the stream of a pod's container logs:
/// `namespace:pod:container`, with `default` for an unnamed container.
pub open spec fn stream_id_text(namespace: Seq<char>, pod_name: Seq<char>, container: Option<Seq<char>>) -> Seq<
    char,
> {
    namespace + ":"@ + pod_name + ":"@ + match container {
        Some(c) => c,
        None => "default"@,
    }
}

/// The name of the log stream of `pod_name` in `namespace`, for the given
/// container or the default one.
pub fn log_stream_id(namespace: &str, pod_name: &str, container_name: Option<&str>) -> (r: String)
    ensures
        r@ == stream_id_text(
            namespace@,
            pod_name@,
            match container_name {
                Some(c) => Some(c@),
                None => None,
            },
        ),
{
    let mut r = owned(namespace);
    push_str(&mut r, ":");
    push_str(&mut r, pod_name);
    push_str(&mut r, ":");
    match container_name {
        Some(c) => push_str(&mut r, c),
        None => push_str(&mut r, "default"),
    }
    r
}

/// Stopping a stream undoes starting it: the stream of a pod's container,
/// registered under the name that starting it gave, is found again under
/// the name computed when it is stopped, and removing it leaves the other
/// streams as they were.
pub proof fn lemma_stop_undoes_start_stream<H>(
    streams: Map<Seq<char>, H>,
    namespace: Seq<char>,
    pod_name: Seq<char>,
    container: Option<Seq<char>>,
    handle: H,
)
    requires
        !streams.contains_key(stream_id_text(namespace, pod_name, container)),
    ensures
        ({
            let id = stream_id_text(namespace, pod_name, container);
            &&& streams.insert(id, handle).contains_key(id)
            &&& streams.insert(id, handle)[id] == handle
            &&& streams.insert(id, handle).remove(id) == streams
        }),
{
    let id = stream_id_text(namespace, pod_name, container);
    assert(streams.insert(id, handle).remove(id) =~= streams);
}

/// What a log stream asks of the cluster.
#[derive(Debug)]
pub struct LogRequest {
    pub follow: bool,
    pub timestamps: bool,
    pub container: Option<String>,
    pub tail_lines: i64,
}

/// The request of a new stream: follow the log with timestamps, starting
/// from the latest lines, of the given container if one is named.
pub fn log_request(container_name: Option<String>) -> (r: LogRequest)
    ensures
        r == (LogRequest {
            follow: true,
            timestamps: true,
            container: container_name,
            tail_lines: LOG_TAIL_LINES,
        }),
{
    LogRequest { follow: true, timestamps: true, container: container_name, tail_lines: LOG_TAIL_LINES }
}

/// What happens while a stream reads.
#[derive(Debug)]
pub enum LogStreamEvent {
    /// A line was read.
    Line(String),
    /// Reading failed, with the reader's error text.
    ReadFailed(String),
    /// The log ended.
    Ended,
    /// No line came within the timeout.
    TimedOut,
}

/// What a stream reports to the user interface.
#[derive(Debug)]
pub enum LogEmission {
    /// A log line.
    Line(String),
    /// An error text.
    Error(String),
}

/// What a stream does after an event: what it reports, and whether it
/// reads on.
#[derive(Debug)]
pub struct LogStep {
    pub emission: Option<LogEmission>,
    pub keep_reading: bool,
}

/// The step after `event`: a line is reported and reading goes on; a read
/// error is reported as `Stream error: ...` and ends the stream; the end of
/// the log ends it silently; a timeout is reported as `Log stream timeout`
/// and ends it.
pub fn log_stream_step(event: LogStreamEvent) -> (r: LogStep)
    ensures
        match event {
            LogStreamEvent::Line(l) => r.keep_reading && r.emission == Some(LogEmission::Line(l)),
            LogStreamEvent::ReadFailed(e) => !r.keep_reading && (r.emission matches Some(
                LogEmission::Error(m),
            ) && m@ == "Stream error: "@ + e@),
            LogStreamEvent::Ended => !r.keep_reading && r.emission is None,
            LogStreamEvent::TimedOut => !r.keep_reading && (r.emission matches Some(
                LogEmission::Error(m),
            ) && m@ == "Log stream timeout"@),
        },
{
    match event {
        LogStreamEvent::Line(l) => LogStep { emission: Some(LogEmission::Line(l)), keep_reading: true },
        LogStreamEvent::ReadFailed(e) => LogStep {
            emission: Some(LogEmission::Error(concat("Stream error: ", e.as_str()))),
            keep_reading: false,
        },
        LogStreamEvent::Ended => LogStep { emission: None, keep_reading: false },
        LogStreamEvent::TimedOut => LogStep {
            emission: Some(LogEmission::Error(owned("Log stream timeout"))),
            keep_reading: false,
        },
    }
}

/// Why a stream could not start.
#[derive(Debug)]
pub enum LogStartFailure {
    /// The cluster refused, with its error text.
    Refused(String),
    /// The cluster did not answer within the timeout.
    TimedOut,
}

/// The error reported when a stream could not start.
pub fn log_start_error(failure: LogStartFailure) -> (r: String)
    ensures
        match failure {
            LogStartFailure::Refused(e) => r@ == "Failed to start log stream: "@ + e@,
            LogStartFailure::TimedOut => r@ == "Log stream connection timeout"@,
        },
{
    match failure {
        LogStartFailure::Refused(e) => concat("Failed to start log stream: ", e.as_str()),
        LogStartFailure::TimedOut => owned("Log stream connection timeout"),
    }
}

/// What a one-off read of a pod's log asks of the cluster.
#[derive(Debug)]
pub struct FetchLogRequest {
    pub follow: bool,
    pub timestamps: bool,
    pub container: Option<String>,
    pub tail_lines: Option<i64>,
}

/// The request of a one-off read: the log with timestamps, not followed,
/// of the given container and of the last `lines` lines if given.
pub fn fetch_log_request(container_name: Option<String>, lines: Option<i64>) -> (r: FetchLogRequest)
    ensures
        r == (FetchLogRequest {
            follow: false,
            timestamps: true,
            container: container_name,
            tail_lines: lines,
        }),
{
    FetchLogRequest { follow: false, timestamps: true, container: container_name, tail_lines: lines }
}

/// The error of a one-off read that failed.
pub fn fetch_logs_failed(error: &str) -> (r: String)
    ensures
        r@ == "Failed to fetch logs: "@ + error@,
{
    concat("Failed to fetch logs: ", error)
}

/// The log streams that run, by name, each with the handle of its task.
#[derive(Debug)]
pub struct LogStreamManager<H> {
    active_streams: KeyedTable<H>,
}

/// Whether a requested stream runs already.
#[derive(Debug)]
pub enum LogStreamStart {
    /// A stream of that name runs; it is reused.
    AlreadyRunning(String),
    /// No stream of that name runs; one is to be started under it.
    Start(String),
}

impl<H> LogStreamManager<H> {
    /// The streams that run, by name.
    pub closed spec fn streams(&self) -> Map<Seq<char>, H> {
        self.active_streams@
    }

    /// No streams.
    pub fn new() -> (r: Self)
        ensures
            r.streams() == Map::<Seq<char>, H>::empty(),
    {
        LogStreamManager { active_streams: KeyedTable::new() }
    }

    /// The number of streams that run.
    pub fn stream_count(&self) -> (r: usize)
        ensures
            r == self.streams().len(),
    {
        self.active_streams.len()
    }

    /// Whether the stream of the given pod and container runs already, and
    /// its name either way.
    pub fn start_log_stream(&self, namespace: &str, pod_name: &str, container_name: Option<&str>) -> (r:
        LogStreamStart)
        ensures
            ({
                let id = stream_id_text(
                    namespace@,
                    pod_name@,
                    match container_name {
                        Some(c) => Some(c@),
                        None => None,
                    },
                );
                match r {
                    LogStreamStart::AlreadyRunning(s) => s@ == id && self.streams().contains_key(id),
                    LogStreamStart::Start(s) => s@ == id && !self.streams().contains_key(id),
                }
            }),
    {
        let id = log_stream_id(namespace, pod_name, container_name);
        if self.active_streams.contains_key(id.as_str()) {
            LogStreamStart::AlreadyRunning(id)
        } else {
            LogStreamStart::Start(id)
        }
    }

    /// Records the task of a started stream under its name.
    pub fn register_stream(&mut self, stream_id: String, handle: H)
        ensures
            final(self).streams() == old(self).streams().insert(stream_id@, handle),
    {
        self.active_streams.insert(stream_id, handle);
    }

    /// The names of the streams that run, each once.
    pub fn stream_ids(&self) -> (r: Vec<String>)
        ensures
            views(r@).to_set() == self.streams().dom(),
            views(r@).no_duplicates(),
    {
        self.active_streams.keys()
    }

    /// The task of the stream of that name, if it runs.
    pub fn stream_task(&self, stream_id: &str) -> (r: Option<&H>)
        ensures
            match r {
                Some(h) => self.streams().contains_key(stream_id@) && *h == self.streams()[stream_id@],
                None => !self.streams().contains_key(stream_id@),
            },
    {
        self.active_streams.get(stream_id)
    }

    /// Forgets the stream of that name and hands back its task (to be
    /// stopped), if it runs.
    pub fn stop_log_stream(&mut self, stream_id: &str) -> (r: Option<H>)
        ensures
            final(self).streams() == old(self).streams().remove(stream_id@),
            match r {
                Some(h) => old(self).streams().contains_key(stream_id@) && h == old(self).streams()[stream_id@],
                None => !old(self).streams().contains_key(stream_id@),
            },
    {
        self.active_streams.remove(stream_id)
    }

    /// Forgets the streams whose tasks have finished (their names are among
    /// `finished`) and says how many were forgotten.
    pub fn forget_finished(&mut self, finished: &Vec<String>) -> (r: usize)
        ensures
            final(self).streams() == old(self).streams().restrict(
                Set::new(|k: Seq<char>| !views(finished@).contains(k)),
            ),
            r == old(self).streams().len() - final(self).streams().len(),
    {
        self.active_streams.remove_keys(finished)
    }

    /// Forgets every stream and hands back their tasks.
    pub fn stop_all_streams(&mut self) -> (r: Vec<H>)
        ensures
            final(self).streams() == Map::<Seq<char>, H>::empty(),
            r@.len() == old(self).streams().len(),
            all_values_of(r@, old(self).streams()),
    {
        let n = self.active_streams.len();
        let entries = self.active_streams.drain();
        assert(entries@.len() == n);
        let ghost all = entries@;
        let mut r: Vec<H> = Vec::new();
        for e in it: entries
            invariant
                it.seq() == all,
                all.len() == n,
                n == old(self).streams().len(),
                r@.len() == it.index(),
                forall|j: int| 0 <= j < r@.len() ==> r@[j] == all[j].1,
        {
            let (_, h) = e;
            r.push(h);
        }
        proof {
            let same = |h: H| h;
            lemma_drained_values(all, old(self).streams(), r@, same);
            assert(old(self).streams().map_values(same) =~= old(self).streams());
        }
        r
    }
}

} // verus!

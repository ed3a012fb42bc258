//! The task scheduler: it submits prompts to agents (one or many at once),
//! follows each task through its life and lists the tasks it knows.

use crate::event::{BusEvent, EventBus};
use crate::outside::{
    now_micros, task_entries, task_table_entries, task_table_get, task_table_insert,
    task_table_new, TaskRow,
};
use crate::text::{first_chars, prefix_chars};
use crate::types::{
    AgentId, Fraction, TaskFilter, TaskId, TaskInfo, TaskInfoView, TaskRequest, TaskRequestView,
    TaskResult, TaskResultView, TaskStatus, TaskStatusView, FRACTION_ONE_BITS, FRACTION_ZERO_BITS,
};
use crate::types::same_variant;
use dashmap::DashMap;
use std::sync::Arc;
use vstd::prelude::*;

verus! {

/// How many characters of a prompt a task keeps as its preview.
pub const PREVIEW_CHARS: usize = 200usize;

/// How many tasks a listing shows when its filter sets no limit.
pub const DEFAULT_LIST_LIMIT: usize = 100usize;

// ---- The life of a task ----

/// The preview of a prompt: its first 200 characters.
pub open spec fn preview(prompt: Seq<char>) -> Seq<char> {
    prefix_chars(prompt, PREVIEW_CHARS as nat)
}

/// A task as it is submitted: queued, with no progress, on the requested
/// model (`default` when none is requested).
pub open spec fn queued_task(id: TaskId, agent: Seq<char>, req: TaskRequestView, created_at: i64) -> TaskInfoView {
    TaskInfoView {
        id,
        agent_id: agent,
        prompt_preview: preview(req.prompt),
        status: TaskStatusView::Queued,
        model: match req.model {
            Some(m) => m,
            None => "default"@,
        },
        progress: Fraction(FRACTION_ZERO_BITS),
        priority: req.priority,
        created_at,
        completed_at: None,
    }
}

/// A task that starts running: its status becomes running at no progress;
/// its progress field is kept.
pub open spec fn started_task(t: TaskInfoView) -> TaskInfoView {
    TaskInfoView { status: TaskStatusView::Running { progress: Fraction(FRACTION_ZERO_BITS) }, ..t }
}

/// A task that reports progress: running, at that progress.
pub open spec fn progressed_task(t: TaskInfoView, progress: Fraction) -> TaskInfoView {
    TaskInfoView { progress, status: TaskStatusView::Running { progress }, ..t }
}

/// A task that finished with a result at instant `at`: done, fully progressed.
pub open spec fn finished_task(t: TaskInfoView, result: TaskResultView, at: i64) -> TaskInfoView {
    TaskInfoView {
        status: TaskStatusView::Done { result },
        progress: Fraction(FRACTION_ONE_BITS),
        completed_at: Some(at),
        ..t
    }
}

/// A task that failed with an error at instant `at`; its progress is kept.
pub open spec fn failed_task(t: TaskInfoView, error: Seq<char>, at: i64) -> TaskInfoView {
    TaskInfoView { status: TaskStatusView::Failed { error }, completed_at: Some(at), ..t }
}

/// A task cancelled at instant `at`; its progress is kept.
pub open spec fn cancelled_task(t: TaskInfoView, at: i64) -> TaskInfoView {
    TaskInfoView { status: TaskStatusView::Cancelled, completed_at: Some(at), ..t }
}

impl TaskInfo {
    /// A newly submitted task; see [`queued_task`].
    pub fn new_queued(id: TaskId, agent_id: &AgentId, req: &TaskRequest, created_at: i64) -> (res: TaskInfo)
        ensures
            res@ == queued_task(id, agent_id.0@, req@, created_at),
    {
        proof {
            reveal_strlit("default");
        }
        let model = match &req.model {
            Some(m) => m.clone(),
            None => String::from_str("default"),
        };
        TaskInfo {
            id,
            agent_id: agent_id.clone(),
            prompt_preview: first_chars(req.prompt.as_str(), PREVIEW_CHARS),
            status: TaskStatus::Queued,
            model,
            progress: Fraction::zero(),
            priority: req.priority,
            created_at,
            completed_at: None,
        }
    }

    /// Starts the task, and gives the event that announces it.
    pub fn mark_running(&mut self, task: TaskId) -> (event: BusEvent)
        ensures
            final(self)@ == started_task(old(self)@),
            event == (BusEvent::TaskStarted { agent: old(self).agent_id, task }),
    {
        self.status = TaskStatus::Running { progress: Fraction::zero() };
        BusEvent::TaskStarted { agent: self.agent_id.clone(), task }
    }

    /// Records progress, and gives the event that announces it.
    pub fn mark_progress(&mut self, task: TaskId, progress: Fraction, message: &str) -> (event: BusEvent)
        ensures
            final(self)@ == progressed_task(old(self)@, progress),
            event matches BusEvent::TaskProgress { agent, task: t, progress: p, message: m }
                && agent == old(self).agent_id && t == task && p == progress && m@ == message@,
    {
        self.progress = progress;
        self.status = TaskStatus::Running { progress };
        BusEvent::TaskProgress {
            agent: self.agent_id.clone(),
            task,
            progress,
            message: String::from_str(message),
        }
    }

    /// Records the result at instant `at`, and gives the event that announces
    /// it, which carries the result.
    pub fn mark_done(&mut self, task: TaskId, result: TaskResult, at: i64) -> (event: BusEvent)
        ensures
            final(self)@ == finished_task(old(self)@, result@, at),
            event == (BusEvent::TaskCompleted { agent: old(self).agent_id, task, result }),
    {
        self.status = TaskStatus::Done { result: result.clone() };
        self.progress = Fraction::one();
        self.completed_at = Some(at);
        BusEvent::TaskCompleted { agent: self.agent_id.clone(), task, result }
    }

    /// Records the failure at instant `at`, and gives the event that
    /// announces it.
    pub fn mark_failed(&mut self, task: TaskId, error: &str, at: i64) -> (event: BusEvent)
        ensures
            final(self)@ == failed_task(old(self)@, error@, at),
            event matches BusEvent::TaskFailed { agent, task: t, error: e }
                && agent == old(self).agent_id && t == task && e@ == error@,
    {
        self.status = TaskStatus::Failed { error: String::from_str(error) };
        self.completed_at = Some(at);
        BusEvent::TaskFailed { agent: self.agent_id.clone(), task, error: String::from_str(error) }
    }

    /// Records the cancellation at instant `at`, and gives the event that
    /// announces it.
    pub fn mark_cancelled(&mut self, task: TaskId, at: i64) -> (event: BusEvent)
        ensures
            final(self)@ == cancelled_task(old(self)@, at),
            event == (BusEvent::TaskCancelled { agent: old(self).agent_id, task }),
    {
        self.status = TaskStatus::Cancelled;
        self.completed_at = Some(at);
        BusEvent::TaskCancelled { agent: self.agent_id.clone(), task }
    }
}

// ---- Listings ----

/// What a listing keeps: the tasks of one agent (or of all), and of one
/// status variant (or of all), the variant given by its number.
pub struct ListingFilter {
    pub agent: Option<Seq<char>>,
    pub kind: Option<nat>,
}

/// Whether a listing with this filter shows task `t`.
pub open spec fn shows(keep: ListingFilter, t: TaskInfoView) -> bool {
    &&& match keep.agent {
        Some(a) => t.agent_id == a,
        None => true,
    }
    &&& match keep.kind {
        Some(k) => t.status.kind() == k,
        None => true,
    }
}

/// `keys` lists, each once and newest first, the tasks of `tasks` that a
/// listing that keeps `keep` shows. Tasks created at the same instant may
/// come in either order.
pub open spec fn is_listing(tasks: Map<u128, TaskInfoView>, keep: ListingFilter, keys: Seq<u128>) -> bool {
    &&& keys.no_duplicates()
    &&& forall|k: u128| #[trigger]
        keys.contains(k) <==> (tasks.contains_key(k) && shows(keep, tasks[k]))
    &&& forall|a: int, b: int|
        0 <= a < b < keys.len() ==> tasks[#[trigger] keys[a]].created_at >= tasks[#[trigger] keys[b]].created_at
}

/// The page of `s` that skips `offset` items and keeps at most `limit`.
pub open spec fn page<A>(s: Seq<A>, offset: nat, limit: nat) -> Seq<A> {
    if offset >= s.len() {
        Seq::empty()
    } else if offset + limit >= s.len() {
        s.subrange(offset as int, s.len() as int)
    } else {
        s.subrange(offset as int, (offset + limit) as int)
    }
}

/// What a filter keeps: its agent, as text, and the variant of its status.
pub open spec fn filter_shows(filter: TaskFilter) -> ListingFilter {
    ListingFilter {
        agent: match filter.agent_id {
            Some(a) => Some(a.0@),
            None => None,
        },
        kind: match filter.status {
            Some(st) => Some(st@.kind()),
            None => None,
        },
    }
}

/// The offset a filter asks for: 0 when it sets none.
pub open spec fn filter_offset(filter: TaskFilter) -> nat {
    match filter.offset {
        Some(o) => o as nat,
        None => 0,
    }
}

/// The limit a filter asks for: 100 when it sets none.
pub open spec fn filter_limit(filter: TaskFilter) -> nat {
    match filter.limit {
        Some(l) => l as nat,
        None => DEFAULT_LIST_LIMIT as nat,
    }
}

/// The number of tasks whose status is of the variant numbered `kind`.
pub open spec fn count_of_kind(tasks: Map<u128, TaskInfoView>, kind: nat) -> nat {
    tasks.dom().filter(|k: u128| tasks[k].status.kind() == kind).len()
}

/// Counting the tasks of a status counts exactly those whose status is of
/// the same variant: a done task never counts as a failed one, nor the
/// other way round.
pub proof fn lemma_count_by_variant(tasks: Map<u128, TaskInfoView>, s: TaskStatusView)
    ensures
        count_of_kind(tasks, s.kind()) == tasks.dom().filter(|k: u128| same_variant(tasks[k].status, s)).len(),
{
    assert(tasks.dom().filter(|k: u128| tasks[k].status.kind() == s.kind()) =~= tasks.dom().filter(
        |k: u128| same_variant(tasks[k].status, s),
    ));
}

/// A listing filtered on a status shows only tasks whose status is of that
/// variant.
pub proof fn lemma_status_filter_keeps_variant(filter: TaskFilter, t: TaskInfoView)
    requires
        filter.status is Some,
        shows(filter_shows(filter), t),
    ensures
        same_variant(t.status, filter.status->0@),
{
}

/// The tasks after submitting the same request to `agents[0..n]`, task
/// `ids[i]` to `agents[i]` at instant `times[i]`, one after the other.
pub open spec fn submitted_prefix(
    tasks: Map<u128, TaskInfoView>,
    agents: Seq<AgentId>,
    ids: Seq<TaskId>,
    req: TaskRequestView,
    times: Seq<i64>,
    n: nat,
) -> Map<u128, TaskInfoView>
    decreases n,
{
    if n == 0 {
        tasks
    } else {
        let i = (n - 1) as int;
        submitted_prefix(tasks, agents, ids, req, times, (n - 1) as nat).insert(
            ids[i].0,
            queued_task(ids[i], agents[i].0@, req, times[i]),
        )
    }
}

// ---- The scheduler ----

/// The error `cancel` may report; it reports none today.
#[derive(Debug)]
pub struct SchedulerError {
    pub message: String,
}

/// Keeps every task of every agent, and announces each change on the bus.
pub struct TaskScheduler {
    tasks: DashMap<u128, TaskInfo>,
    event_bus: Arc<EventBus>,
    /// The events published on the bus so far, in order.
    published: Ghost<Seq<BusEvent>>,
}

// ---- What the scheduler announces ----

/// `e` announces that task `task` of agent `agent` was submitted with
/// `prompt`: it carries the prompt's preview.
pub open spec fn submitted_event(e: BusEvent, agent: Seq<char>, task: TaskId, prompt: Seq<char>) -> bool {
    e matches BusEvent::TaskSubmitted { agent: a, task: t, prompt_preview: p } && a.0@ == agent && t == task
        && p@ == preview(prompt)
}

/// `after` is `before` followed by one submission event for each of the first
/// `n` agents, in order: agent `k`'s task `ids[k]`, submitted with `prompt`.
pub open spec fn announced_submissions(
    before: Seq<BusEvent>,
    after: Seq<BusEvent>,
    agents: Seq<AgentId>,
    ids: Seq<TaskId>,
    prompt: Seq<char>,
    n: nat,
) -> bool {
    &&& after.len() == before.len() + n
    &&& after.subrange(0, before.len() as int) == before
    &&& forall|k: int|
        0 <= k < n ==> submitted_event(after[before.len() + k], agents[k].0@, #[trigger] ids[k], prompt)
}

/// `e` announces that task `task` of agent `agent` started.
pub open spec fn started_event(e: BusEvent, agent: Seq<char>, task: TaskId) -> bool {
    e matches BusEvent::TaskStarted { agent: a, task: t } && a.0@ == agent && t == task
}

/// `e` announces progress `progress`, with `message`, on task `task` of
/// agent `agent`.
pub open spec fn progress_event(
    e: BusEvent,
    agent: Seq<char>,
    task: TaskId,
    progress: Fraction,
    message: Seq<char>,
) -> bool {
    e matches BusEvent::TaskProgress { agent: a, task: t, progress: p, message: m } && a.0@ == agent && t == task
        && p == progress && m@ == message
}

/// `e` announces that task `task` of agent `agent` completed with `result`.
pub open spec fn completed_event(e: BusEvent, agent: Seq<char>, task: TaskId, result: TaskResultView) -> bool {
    e matches BusEvent::TaskCompleted { agent: a, task: t, result: r } && a.0@ == agent && t == task && r@
        == result
}

/// `e` announces that task `task` of agent `agent` failed with `error`.
pub open spec fn failed_event(e: BusEvent, agent: Seq<char>, task: TaskId, error: Seq<char>) -> bool {
    e matches BusEvent::TaskFailed { agent: a, task: t, error: m } && a.0@ == agent && t == task && m@ == error
}

/// `e` announces that task `task` of agent `agent` was cancelled.
pub open spec fn cancelled_event(e: BusEvent, agent: Seq<char>, task: TaskId) -> bool {
    e matches BusEvent::TaskCancelled { agent: a, task: t } && a.0@ == agent && t == task
}

impl View for TaskScheduler {
    type V = Map<u128, TaskInfoView>;

    /// Each task, by the bits of its id.
    closed spec fn view(&self) -> Map<u128, TaskInfoView> {
        task_entries(self.tasks)
    }
}

impl TaskScheduler {
    /// A scheduler with no task, announcing on `event_bus`.
    pub fn new(event_bus: Arc<EventBus>) -> (res: TaskScheduler)
        ensures
            res@ == Map::<u128, TaskInfoView>::empty(),
            res.events() == Seq::<BusEvent>::empty(),
    {
        TaskScheduler { tasks: task_table_new(), event_bus, published: Ghost(Seq::empty()) }
    }

    /// The scheduler holds finitely many tasks.
    #[verifier::type_invariant]
    closed spec fn holds_finitely_many(&self) -> bool {
        self@.dom().finite()
    }

    /// The events the scheduler has published on its bus, oldest first.
    pub closed spec fn events(&self) -> Seq<BusEvent> {
        self.published@
    }

    /// Files a task under `key`, replacing any task there.
    fn store(&mut self, key: u128, info: TaskInfo)
        ensures
            final(self)@ == old(self)@.insert(key, info@),
            final(self).events() == old(self).events(),
    {
        proof {
            use_type_invariant(&*self);
        }
        let mut table = task_table_new();
        std::mem::swap(&mut table, &mut self.tasks);
        task_table_insert(&mut table, key, info);
        std::mem::swap(&mut table, &mut self.tasks);
    }

    /// Publishes an event on the bus.
    fn announce(&mut self, event: BusEvent)
        ensures
            final(self)@ == old(self)@,
            final(self).events() == old(self).events().push(event),
    {
        proof {
            use_type_invariant(&*self);
        }
        let ghost e = event;
        self.event_bus.publish(event);
        proof {
            self.published@ = self.published@.push(e);
        }
    }

    /// Submits a request to one agent: a new task, under a fresh random id,
    /// is queued (see [`queued_task`]) and announced.
    pub fn submit(&mut self, agent_id: &AgentId, req: TaskRequest) -> (res: TaskId)
        ensures
            exists|at: i64|
                final(self)@ == old(self)@.insert(res.0, #[trigger] queued_task(res, agent_id.0@, req@, at)),
            exists|e: BusEvent|
                final(self).events() == old(self).events().push(e) && #[trigger] submitted_event(
                    e,
                    agent_id.0@,
                    res,
                    req@.prompt,
                ),
    {
        let id = TaskId::new();
        let now = now_micros();
        let info = TaskInfo::new_queued(id, agent_id, &req, now);
        let event = BusEvent::TaskSubmitted {
            agent: agent_id.clone(),
            task: id,
            prompt_preview: info.prompt_preview.clone(),
        };
        let ghost e = event;
        assert(submitted_event(e, agent_id.0@, id, req@.prompt));
        self.store(id.0, info);
        self.announce(event);
        assert(self@ == old(self)@.insert(id.0, queued_task(id, agent_id.0@, req@, now)));
        id
    }

    /// Fan-out: submits the same request to each agent in turn, and gives the
    /// new task ids, one per agent, in the order of `agents`.
    pub fn submit_all(&mut self, agents: &[AgentId], req: TaskRequest) -> (res: Vec<TaskId>)
        ensures
            res@.len() == agents@.len(),
            exists|times: Seq<i64>|
                times.len() == agents@.len() && final(self)@ == #[trigger] submitted_prefix(
                    old(self)@,
                    agents@,
                    res@,
                    req@,
                    times,
                    agents@.len(),
                ),
            announced_submissions(old(self).events(), final(self).events(), agents@, res@, req@.prompt, agents@.len()),
    {
        let mut ids: Vec<TaskId> = Vec::new();
        let ghost mut times: Seq<i64> = Seq::empty();
        let mut i: usize = 0;
        assert(self.events().subrange(0, self.events().len() as int) =~= self.events());
        while i < agents.len()
            invariant
                i <= agents@.len(),
                ids@.len() == i,
                times.len() == i,
                self@ == submitted_prefix(old(self)@, agents@, ids@, req@, times, i as nat),
                announced_submissions(old(self).events(), self.events(), agents@, ids@, req@.prompt, i as nat),
            decreases agents@.len() - i,
        {
            let ghost before = self@;
            let ghost events_before = self.events();
            let one = req.clone();
            let id = self.submit(&agents[i], one);
            let ghost at = choose|at: i64|
                self@ == before.insert(id.0, #[trigger] queued_task(id, agents@[i as int].0@, req@, at));
            let ghost old_times = times;
            proof {
                times = times.push(at);
            }
            let ghost old_ids = ids@;
            ids.push(id);
            proof {
                lemma_submitted_prefix_stable(
                    old(self)@,
                    agents@,
                    old_ids,
                    ids@,
                    req@,
                    old_times,
                    times,
                    i as nat,
                );
                assert(ids@[i as int] == id);
                assert(times[i as int] == at);
                assert(self@ == submitted_prefix(old(self)@, agents@, ids@, req@, times, (i + 1) as nat));
                let start = old(self).events().len();
                let e = self.events()[start + i];
                assert(self.events() == events_before.push(e));
                assert(submitted_event(e, agents@[i as int].0@, id, req@.prompt));
                assert(self.events().subrange(0, start as int) =~= old(self).events()) by {
                    assert(events_before.subrange(0, start as int) == old(self).events());
                }
                assert forall|k: int| 0 <= k < i + 1 implies submitted_event(
                    self.events()[start + k],
                    agents@[k].0@,
                    #[trigger] ids@[k],
                    req@.prompt,
                ) by {
                    if k < i {
                        assert(old_ids[k] == ids@[k]);
                        assert(self.events()[start + k] == events_before[start + k]);
                    }
                }
            }
            i = i + 1;
        }
        ids
    }

    /// Starts a task; a task the scheduler does not know is ignored.
    pub fn set_running(&mut self, task_id: &TaskId)
        ensures
            final(self)@ == if old(self)@.contains_key(task_id.0) {
                old(self)@.insert(task_id.0, started_task(old(self)@[task_id.0]))
            } else {
                old(self)@
            },
            old(self)@.contains_key(task_id.0) ==> exists|e: BusEvent|
                final(self).events() == old(self).events().push(e) && #[trigger] started_event(e, old(self)@[task_id.0].agent_id, *task_id),
            !old(self)@.contains_key(task_id.0) ==> final(self).events() == old(self).events(),
    {
        match task_table_get(&self.tasks, task_id.0) {
            Some(mut info) => {
                let ghost agent = info@.agent_id;
                let event = info.mark_running(*task_id);
                assert(started_event(event, agent, *task_id));
                self.store(task_id.0, info);
                self.announce(event);
            },
            None => {},
        }
    }

    /// Records the progress of a task; a task the scheduler does not know is
    /// ignored.
    pub fn set_progress(&mut self, task_id: &TaskId, progress: Fraction, message: &str)
        ensures
            final(self)@ == if old(self)@.contains_key(task_id.0) {
                old(self)@.insert(task_id.0, progressed_task(old(self)@[task_id.0], progress))
            } else {
                old(self)@
            },
            old(self)@.contains_key(task_id.0) ==> exists|e: BusEvent|
                final(self).events() == old(self).events().push(e) && #[trigger] progress_event(e, old(self)@[task_id.0].agent_id, *task_id, progress, message@),
            !old(self)@.contains_key(task_id.0) ==> final(self).events() == old(self).events(),
    {
        match task_table_get(&self.tasks, task_id.0) {
            Some(mut info) => {
                let ghost agent = info@.agent_id;
                let event = info.mark_progress(*task_id, progress, message);
                assert(progress_event(event, agent, *task_id, progress, message@));
                self.store(task_id.0, info);
                self.announce(event);
            },
            None => {},
        }
    }

    /// Records the result of a task, now; a task the scheduler does not know
    /// is ignored.
    pub fn set_done(&mut self, task_id: &TaskId, result: TaskResult)
        ensures
            old(self)@.contains_key(task_id.0) ==> exists|at: i64|
                final(self)@ == old(self)@.insert(
                    task_id.0,
                    #[trigger] finished_task(old(self)@[task_id.0], result@, at),
                ),
            !old(self)@.contains_key(task_id.0) ==> final(self)@ == old(self)@,
            old(self)@.contains_key(task_id.0) ==> exists|e: BusEvent|
                final(self).events() == old(self).events().push(e) && #[trigger] completed_event(e, old(self)@[task_id.0].agent_id, *task_id, result@),
            !old(self)@.contains_key(task_id.0) ==> final(self).events() == old(self).events(),
    {
        match task_table_get(&self.tasks, task_id.0) {
            Some(mut info) => {
                let ghost before = info@;
                let ghost value = result@;
                let now = now_micros();
                let event = info.mark_done(*task_id, result, now);
                assert(completed_event(event, before.agent_id, *task_id, value));
                self.store(task_id.0, info);
                self.announce(event);
                assert(self@ == old(self)@.insert(task_id.0, finished_task(before, value, now)));
            },
            None => {},
        }
    }

    /// Records the failure of a task, now; a task the scheduler does not know
    /// is ignored.
    pub fn set_failed(&mut self, task_id: &TaskId, error: &str)
        ensures
            old(self)@.contains_key(task_id.0) ==> exists|at: i64|
                final(self)@ == old(self)@.insert(
                    task_id.0,
                    #[trigger] failed_task(old(self)@[task_id.0], error@, at),
                ),
            !old(self)@.contains_key(task_id.0) ==> final(self)@ == old(self)@,
            old(self)@.contains_key(task_id.0) ==> exists|e: BusEvent|
                final(self).events() == old(self).events().push(e) && #[trigger] failed_event(e, old(self)@[task_id.0].agent_id, *task_id, error@),
            !old(self)@.contains_key(task_id.0) ==> final(self).events() == old(self).events(),
    {
        match task_table_get(&self.tasks, task_id.0) {
            Some(mut info) => {
                let ghost before = info@;
                let now = now_micros();
                let event = info.mark_failed(*task_id, error, now);
                assert(failed_event(event, before.agent_id, *task_id, error@));
                self.store(task_id.0, info);
                self.announce(event);
                assert(self@ == old(self)@.insert(task_id.0, failed_task(before, error@, now)));
            },
            None => {},
        }
    }

    /// Cancels a task, now. A task the scheduler does not know is ignored; the
    /// call succeeds either way.
    pub fn cancel(&mut self, task_id: &TaskId) -> (res: Result<(), SchedulerError>)
        ensures
            res is Ok,
            old(self)@.contains_key(task_id.0) ==> exists|at: i64|
                final(self)@ == old(self)@.insert(
                    task_id.0,
                    #[trigger] cancelled_task(old(self)@[task_id.0], at),
                ),
            !old(self)@.contains_key(task_id.0) ==> final(self)@ == old(self)@,
            old(self)@.contains_key(task_id.0) ==> exists|e: BusEvent|
                final(self).events() == old(self).events().push(e) && #[trigger] cancelled_event(e, old(self)@[task_id.0].agent_id, *task_id),
            !old(self)@.contains_key(task_id.0) ==> final(self).events() == old(self).events(),
    {
        match task_table_get(&self.tasks, task_id.0) {
            Some(mut info) => {
                let ghost before = info@;
                let now = now_micros();
                let event = info.mark_cancelled(*task_id, now);
                assert(cancelled_event(event, before.agent_id, *task_id));
                self.store(task_id.0, info);
                self.announce(event);
                assert(self@ == old(self)@.insert(task_id.0, cancelled_task(before, now)));
                Ok(())
            },
            None => Ok(()),
        }
    }

    /// Lists tasks, newest first: those of the filter's agent (all agents when
    /// it names none) whose status is of the filter's variant (any status when
    /// it names none), skipping `offset` of them (0 by default) and keeping at
    /// most `limit` (100 by default).
    pub fn list(&self, filter: &TaskFilter) -> (res: Vec<TaskInfo>)
        ensures
            exists|keys: Seq<u128>|
                #![trigger is_listing(self@, filter_shows(*filter), keys)]
                is_listing(self@, filter_shows(*filter), keys) && res@.len() == page(
                    keys,
                    filter_offset(*filter),
                    filter_limit(*filter),
                ).len() && forall|i: int|
                    0 <= i < res@.len() ==> #[trigger] res@[i]@ == self@[page(
                        keys,
                        filter_offset(*filter),
                        filter_limit(*filter),
                    )[i]],
    {
        let rows = task_table_entries(&self.tasks);
        proof {
            assert(rows_of(self@, rows@));
        }
        let kind: Option<u8> = match &filter.status {
            Some(st) => Some(st.kind()),
            None => None,
        };
        assert(listing_filter(filter.agent_id, kind) == filter_shows(*filter));
        let sorted = sort_newest_first(rows, &filter.agent_id, kind, Ghost(self@));
        let offset: usize = match filter.offset {
            Some(o) => o,
            None => 0,
        };
        let limit: usize = match filter.limit {
            Some(l) => l,
            None => DEFAULT_LIST_LIMIT,
        };
        let ghost keys = sorted@.map_values(|r: TaskRow| r.0);
        let ghost shown = page(keys, offset as nat, limit as nat);
        let mut res: Vec<TaskInfo> = Vec::new();
        if offset < sorted.len() {
            let end: usize = if limit >= sorted.len() - offset {
                sorted.len()
            } else {
                offset + limit
            };
            let mut i: usize = offset;
            while i < end
                invariant
                    offset <= i <= end <= sorted@.len(),
                    offset < sorted@.len(),
                    end == (if offset + limit >= sorted@.len() {
                        sorted@.len() as int
                    } else {
                        offset + limit
                    }),
                    keys == sorted@.map_values(|r: TaskRow| r.0),
                    shown == page(keys, offset as nat, limit as nat),
                    res@.len() == i - offset,
                    forall|j: int| 0 <= j < sorted@.len() ==> self@.contains_key(#[trigger] sorted@[j].0)
                        && self@[sorted@[j].0] == sorted@[j].1@,
                    forall|j: int| 0 <= j < res@.len() ==> #[trigger] res@[j]@ == self@[shown[j]],
                decreases end - i,
            {
                res.push(sorted[i].1.clone());
                proof {
                    assert(shown[(i - offset) as int] == keys[i as int]);
                }
                i = i + 1;
            }
        }
        proof {
            assert(is_listing(self@, filter_shows(*filter), keys));
        }
        res
    }

    /// The number of tasks, of every agent and status.
    pub(crate) fn task_count(&self) -> (res: usize)
        ensures
            res == self@.dom().len(),
            self@.dom().finite(),
    {
        proof {
            use_type_invariant(self);
        }
        task_table_entries(&self.tasks).len()
    }

    /// The number of tasks whose status is of the same variant as `status`.
    pub fn count_by_status(&self, status: TaskStatus) -> (res: usize)
        ensures
            res == count_of_kind(self@, status@.kind()),
    {
        let rows = task_table_entries(&self.tasks);
        let kind = status.kind();
        let ghost tasks = self@;
        let ghost mut seen: Set<u128> = Set::empty();
        let mut count: usize = 0;
        let mut i: usize = 0;
        while i < rows.len()
            invariant
                i <= rows@.len(),
                tasks == self@,
                rows@.len() == tasks.dom().len(),
                forall|a: int|
                    0 <= a < rows@.len() ==> tasks.contains_key(#[trigger] rows@[a].0) && tasks[rows@[a].0]
                        == rows@[a].1@,
                forall|a: int|
                    #![trigger rows@[a]]
                    forall|b: int| 0 <= a < b < rows@.len() ==> rows@[a].0 != rows@[b].0,
                seen.finite(),
                count == seen.len(),
                count <= i,
                forall|k: u128|
                    #[trigger] seen.contains(k) <==> (exists|a: int| 0 <= a < i && rows@[a].0 == k)
                        && tasks.contains_key(k) && tasks[k].status.kind() == kind as nat,
            decreases rows@.len() - i,
        {
            let ghost old_seen = seen;
            if rows[i].1.status.kind() == kind {
                proof {
                    assert(!seen.contains(rows@[i as int].0));
                    seen = seen.insert(rows@[i as int].0);
                }
                count = count + 1;
            }
            proof {
                assert forall|k: u128| #[trigger]
                    seen.contains(k) <==> (exists|a: int| 0 <= a < i + 1 && rows@[a].0 == k)
                        && tasks.contains_key(k) && tasks[k].status.kind() == kind as nat by {
                    if exists|a: int| 0 <= a < i + 1 && rows@[a].0 == k {
                        let a = choose|a: int| 0 <= a < i + 1 && rows@[a].0 == k;
                        if a < i {
                            assert(exists|a: int| 0 <= a < i && rows@[a].0 == k);
                        }
                    }
                    if old_seen.contains(k) {
                        let a = choose|a: int| 0 <= a < i && rows@[a].0 == k;
                        assert(0 <= a < i + 1 && rows@[a].0 == k);
                    }
                }
            }
            i = i + 1;
        }
        proof {
            assert(seen =~= tasks.dom().filter(|k: u128| tasks[k].status.kind() == status@.kind()));
        }
        count
    }

    /// The task with this id, if the scheduler knows it.
    pub fn get(&self, task_id: &TaskId) -> (res: Option<TaskInfo>)
        ensures
            res is Some == self@.contains_key(task_id.0),
            res is Some ==> res->0@ == self@[task_id.0],
    {
        task_table_get(&self.tasks, task_id.0)
    }
}

/// The rows of `tasks`, each task once: what `task_table_entries` gives.
pub open spec fn rows_of(tasks: Map<u128, TaskInfoView>, rows: Seq<TaskRow>) -> bool {
    &&& rows.len() == tasks.dom().len()
    &&& forall|a: int|
        0 <= a < rows.len() ==> tasks.contains_key(#[trigger] rows[a].0) && tasks[rows[a].0] == rows[a].1@
    &&& forall|a: int|
        #![trigger rows[a]]
        forall|b: int| 0 <= a < b < rows.len() ==> rows[a].0 != rows[b].0
    &&& forall|k: u128| tasks.contains_key(k) ==> exists|a: int| 0 <= a < rows.len() && #[trigger] rows[a].0 == k
}

/// Each row of `sorted` is a task of `tasks` that the listing shows.
pub open spec fn rows_shown(tasks: Map<u128, TaskInfoView>, keep: ListingFilter, sorted: Seq<TaskRow>) -> bool {
    forall|j: int|
        0 <= j < sorted.len() ==> tasks.contains_key(#[trigger] sorted[j].0) && tasks[sorted[j].0] == sorted[j].1@
            && shows(keep, tasks[sorted[j].0])
}

/// Each row of `sorted` comes from `rows[0..i]`.
pub open spec fn rows_from(rows: Seq<TaskRow>, i: int, sorted: Seq<TaskRow>) -> bool {
    forall|j: int| 0 <= j < sorted.len() ==> exists|a: int| 0 <= a < i && rows[a].0 == #[trigger] sorted[j].0
}

/// Each row of `rows[0..i]` that the listing shows is in `sorted`.
pub open spec fn rows_covered(
    tasks: Map<u128, TaskInfoView>,
    keep: ListingFilter,
    rows: Seq<TaskRow>,
    i: int,
    sorted: Seq<TaskRow>,
) -> bool {
    forall|a: int|
        0 <= a < i && shows(keep, tasks[rows[a].0]) ==> exists|j: int|
            0 <= j < sorted.len() && #[trigger] sorted[j].0 == rows[a].0
}

/// No task has two rows in `sorted`.
pub open spec fn rows_distinct(sorted: Seq<TaskRow>) -> bool {
    forall|a: int|
        #![trigger sorted[a]]
        forall|b: int| 0 <= a < b < sorted.len() ==> sorted[a].0 != sorted[b].0
}

/// The rows of `sorted` are newest first.
pub open spec fn rows_newest_first(sorted: Seq<TaskRow>) -> bool {
    forall|a: int|
        #![trigger sorted[a]]
        forall|b: int| 0 <= a < b < sorted.len() ==> sorted[a].1.created_at >= sorted[b].1.created_at
}

/// `sorted` holds, newest first and each once, the rows among `rows[0..i]`
/// that a listing that keeps `keep` shows.
pub open spec fn sorted_prefix(
    tasks: Map<u128, TaskInfoView>,
    keep: ListingFilter,
    rows: Seq<TaskRow>,
    i: int,
    sorted: Seq<TaskRow>,
) -> bool {
    &&& rows_shown(tasks, keep, sorted)
    &&& rows_from(rows, i, sorted)
    &&& rows_covered(tasks, keep, rows, i, sorted)
    &&& rows_distinct(sorted)
    &&& rows_newest_first(sorted)
}

/// `after` is `before` with `row` inserted at `pos`.
pub open spec fn inserted_at(before: Seq<TaskRow>, after: Seq<TaskRow>, pos: int, row: TaskRow) -> bool {
    &&& 0 <= pos <= before.len()
    &&& after.len() == before.len() + 1
    &&& forall|j: int| 0 <= j < after.len() ==> #[trigger] after[j] == (if j < pos {
        before[j]
    } else if j == pos {
        row
    } else {
        before[j - 1]
    })
}

proof fn lemma_step_shown(
    tasks: Map<u128, TaskInfoView>,
    keep: ListingFilter,
    before: Seq<TaskRow>,
    after: Seq<TaskRow>,
    pos: int,
    row: TaskRow,
)
    requires
        rows_shown(tasks, keep, before),
        inserted_at(before, after, pos, row),
        tasks.contains_key(row.0),
        tasks[row.0] == row.1@,
        shows(keep, tasks[row.0]),
    ensures
        rows_shown(tasks, keep, after),
{
    assert forall|j: int| 0 <= j < after.len() implies tasks.contains_key(#[trigger] after[j].0)
        && tasks[after[j].0] == after[j].1@ && shows(keep, tasks[after[j].0]) by {
        if j < pos {
            assert(after[j] == before[j]);
        } else if j > pos {
            assert(after[j] == before[j - 1]);
        } else {
            assert(after[j] == row);
        }
    }
}

proof fn lemma_step_from(rows: Seq<TaskRow>, i: int, before: Seq<TaskRow>, after: Seq<TaskRow>, pos: int, row: TaskRow)
    requires
        rows_from(rows, i, before),
        inserted_at(before, after, pos, row),
        0 <= i < rows.len(),
        row.0 == rows[i].0,
    ensures
        rows_from(rows, i + 1, after),
{
    assert forall|j: int| 0 <= j < after.len() implies exists|a: int|
        0 <= a < i + 1 && rows[a].0 == #[trigger] after[j].0 by {
        if j < pos {
            assert(after[j] == before[j]);
            let a = choose|a: int| 0 <= a < i && rows[a].0 == before[j].0;
            assert(rows[a].0 == after[j].0);
        } else if j > pos {
            assert(after[j] == before[j - 1]);
            let a = choose|a: int| 0 <= a < i && rows[a].0 == before[j - 1].0;
            assert(rows[a].0 == after[j].0);
        } else {
            assert(after[j] == row);
            assert(rows[i].0 == after[j].0);
        }
    }
}

proof fn lemma_step_covered(
    tasks: Map<u128, TaskInfoView>,
    keep: ListingFilter,
    rows: Seq<TaskRow>,
    i: int,
    before: Seq<TaskRow>,
    after: Seq<TaskRow>,
    pos: int,
    row: TaskRow,
)
    requires
        rows_covered(tasks, keep, rows, i, before),
        inserted_at(before, after, pos, row),
        0 <= i < rows.len(),
        row.0 == rows[i].0,
    ensures
        rows_covered(tasks, keep, rows, i + 1, after),
{
    assert forall|a: int|
        0 <= a < i + 1 && shows(keep, tasks[rows[a].0]) implies exists|j: int|
        0 <= j < after.len() && #[trigger] after[j].0 == rows[a].0 by {
        if a == i {
            assert(after[pos] == row);
            assert(after[pos].0 == rows[a].0);
        } else {
            let j = choose|j: int| 0 <= j < before.len() && #[trigger] before[j].0 == rows[a].0;
            if j < pos {
                assert(after[j] == before[j]);
            } else {
                assert(after[j + 1] == before[j]);
            }
        }
    }
}

proof fn lemma_step_distinct(rows: Seq<TaskRow>, i: int, before: Seq<TaskRow>, after: Seq<TaskRow>, pos: int, row: TaskRow)
    requires
        rows_distinct(before),
        rows_from(rows, i, before),
        inserted_at(before, after, pos, row),
        0 <= i < rows.len(),
        row.0 == rows[i].0,
        forall|a: int|
            #![trigger rows[a]]
            forall|b: int| 0 <= a < b < rows.len() ==> rows[a].0 != rows[b].0,
    ensures
        rows_distinct(after),
{
    assert forall|a: int, b: int| 0 <= a < b < after.len() implies after[a].0 != after[b].0 by {
        if a == pos {
            assert(after[a] == row);
            assert(after[b] == before[b - 1]);
            let w = choose|c: int| 0 <= c < i && rows[c].0 == before[b - 1].0;
        } else if b == pos {
            assert(after[b] == row);
            assert(after[a] == before[a]);
            let w = choose|c: int| 0 <= c < i && rows[c].0 == before[a].0;
        } else if b < pos {
            assert(after[a] == before[a]);
            assert(after[b] == before[b]);
        } else if a < pos {
            assert(after[a] == before[a]);
            assert(after[b] == before[b - 1]);
        } else {
            assert(after[a] == before[a - 1]);
            assert(after[b] == before[b - 1]);
        }
    }
}

proof fn lemma_step_skip(
    tasks: Map<u128, TaskInfoView>,
    keep: ListingFilter,
    rows: Seq<TaskRow>,
    i: int,
    sorted: Seq<TaskRow>,
)
    requires
        sorted_prefix(tasks, keep, rows, i, sorted),
        0 <= i < rows.len(),
        !shows(keep, tasks[rows[i].0]),
    ensures
        sorted_prefix(tasks, keep, rows, i + 1, sorted),
{
    assert forall|j: int| 0 <= j < sorted.len() implies exists|a: int|
        0 <= a < i + 1 && rows[a].0 == #[trigger] sorted[j].0 by {
        let a = choose|a: int| 0 <= a < i && rows[a].0 == sorted[j].0;
    }
    assert forall|a: int|
        0 <= a < i + 1 && shows(keep, tasks[rows[a].0]) implies exists|j: int|
        0 <= j < sorted.len() && #[trigger] sorted[j].0 == rows[a].0 by {
        if a < i {
        }
    }
}

/// A `sorted_prefix` over all rows is a listing.
#[verifier::rlimit(80)]
proof fn lemma_sorted_prefix_done(
    tasks: Map<u128, TaskInfoView>,
    keep: ListingFilter,
    rows: Seq<TaskRow>,
    sorted: Seq<TaskRow>,
)
    requires
        rows_of(tasks, rows),
        sorted_prefix(tasks, keep, rows, rows.len() as int, sorted),
    ensures
        is_listing(tasks, keep, sorted.map_values(|r: TaskRow| r.0)),
{
    let keys = sorted.map_values(|r: TaskRow| r.0);
    assert forall|a: int, b: int| 0 <= a < keys.len() && 0 <= b < keys.len() && a != b implies keys[a]
        != keys[b] by {
        if a < b {
            assert(sorted[a].0 != sorted[b].0);
        } else {
            assert(sorted[b].0 != sorted[a].0);
        }
    }
    assert forall|k: u128| #[trigger]
        keys.contains(k) <==> (tasks.contains_key(k) && shows(keep, tasks[k])) by {
        if keys.contains(k) {
            let j = choose|j: int| 0 <= j < keys.len() && keys[j] == k;
            assert(sorted[j].0 == k);
        }
        if tasks.contains_key(k) && shows(keep, tasks[k]) {
            let a = choose|a: int| 0 <= a < rows.len() && #[trigger] rows[a].0 == k;
            let j = choose|j: int| 0 <= j < sorted.len() && #[trigger] sorted[j].0 == rows[a].0;
            assert(keys[j] == k);
        }
    }
    assert forall|a: int, b: int| 0 <= a < b < keys.len() implies tasks[#[trigger] keys[a]].created_at
        >= tasks[#[trigger] keys[b]].created_at by {
        assert(sorted[a].1.created_at >= sorted[b].1.created_at);
    }
}

/// The filter of a listing of `agent`'s tasks (all, when `None`) of status
/// variant `kind` (all, when `None`).
pub open spec fn listing_filter(agent: Option<AgentId>, kind: Option<u8>) -> ListingFilter {
    ListingFilter {
        agent: match agent {
            Some(a) => Some(a.0@),
            None => None,
        },
        kind: match kind {
            Some(k) => Some(k as nat),
            None => None,
        },
    }
}

/// Keeps the rows of the tasks a listing of `agent`'s tasks (all, when
/// `None`) of status variant `kind` (all, when `None`) shows, sorted newest
/// first.
fn sort_newest_first(
    rows: Vec<TaskRow>,
    agent: &Option<AgentId>,
    kind: Option<u8>,
    Ghost(tasks): Ghost<Map<u128, TaskInfoView>>,
) -> (res: Vec<TaskRow>)
    requires
        rows_of(tasks, rows@),
    ensures
        forall|j: int| 0 <= j < res@.len() ==> tasks.contains_key(#[trigger] res@[j].0) && tasks[res@[j].0]
            == res@[j].1@,
        is_listing(tasks, listing_filter(*agent, kind), res@.map_values(|r: TaskRow| r.0)),
{
    let ghost shown = listing_filter(*agent, kind);
    let mut sorted: Vec<TaskRow> = Vec::new();
    let mut i: usize = 0;
    while i < rows.len()
        invariant
            i <= rows@.len(),
            rows_of(tasks, rows@),
            sorted_prefix(tasks, shown, rows@, i as int, sorted@),
            shown == listing_filter(*agent, kind),
        decreases rows@.len() - i,
    {
        let same_agent = match agent {
            Some(a) => a.same_as(&rows[i].1.agent_id),
            None => true,
        };
        let same_kind = match kind {
            Some(k) => rows[i].1.status.kind() == k,
            None => true,
        };
        let keep = same_agent && same_kind;
        let ghost before = sorted@;
        proof {
            assert(tasks.contains_key(rows@[i as int].0) && tasks[rows@[i as int].0] == rows@[i as int].1@);
            assert(keep == shows(shown, tasks[rows@[i as int].0]));
        }
        if keep {
            let row = (rows[i].0, rows[i].1.clone());
            insert_newest_first(&mut sorted, row);
            proof {
                let pos = choose|pos: int| 0 <= pos <= before.len() && sorted@ == before.insert(pos, row);
                before.insert_ensures(pos, row);
                assert forall|j: int| 0 <= j < sorted@.len() implies #[trigger] sorted@[j] == (if j < pos {
                    before[j]
                } else if j == pos {
                    row
                } else {
                    before[j - 1]
                }) by {
                    if j > pos {
                        assert(sorted@[(j - 1) + 1] == before[j - 1]);
                    }
                }
                assert(inserted_at(before, sorted@, pos, row));
                lemma_step_shown(tasks, shown, before, sorted@, pos, row);
                lemma_step_from(rows@, i as int, before, sorted@, pos, row);
                lemma_step_covered(tasks, shown, rows@, i as int, before, sorted@, pos, row);
                lemma_step_distinct(rows@, i as int, before, sorted@, pos, row);
            }
        } else {
            proof {
                lemma_step_skip(tasks, shown, rows@, i as int, sorted@);
            }
        }
        i = i + 1;
    }
    proof {
        lemma_sorted_prefix_done(tasks, shown, rows@, sorted@);
    }
    sorted
}

/// Inserts a row into rows sorted newest first, after every row created at
/// the same instant or later.
fn insert_newest_first(sorted: &mut Vec<TaskRow>, row: TaskRow)
    requires
        forall|a: int|
            #![trigger old(sorted)@[a]]
            forall|b: int|
                0 <= a < b < old(sorted)@.len() ==> old(sorted)@[a].1.created_at >= old(sorted)@[b].1.created_at,
    ensures
        exists|pos: int| 0 <= pos <= old(sorted)@.len() && final(sorted)@ == old(sorted)@.insert(pos, row),
        forall|a: int|
            #![trigger final(sorted)@[a]]
            forall|b: int|
                0 <= a < b < final(sorted)@.len() ==> final(sorted)@[a].1.created_at >= final(sorted)@[b].1.created_at,
{
    let mut pos: usize = 0;
    while pos < sorted.len() && sorted[pos].1.created_at >= row.1.created_at
        invariant
            pos <= sorted@.len(),
            sorted@ == old(sorted)@,
            forall|j: int| 0 <= j < pos ==> sorted@[j].1.created_at >= row.1.created_at,
        decreases sorted@.len() - pos,
    {
        pos = pos + 1;
    }
    let ghost before = sorted@;
    let ghost created = row.1.created_at;
    sorted.insert(pos, row);
    proof {
        before.insert_ensures(pos as int, sorted@[pos as int]);
    }
    assert forall|a: int, b: int| 0 <= a < b < sorted@.len() implies sorted@[a].1.created_at
        >= sorted@[b].1.created_at by {
        if b < pos {
            assert(sorted@[a] == before[a]);
            assert(sorted@[b] == before[b]);
        } else if b == pos {
            assert(sorted@[a] == before[a]);
        } else if a < pos {
            assert(sorted@[a] == before[a]);
            assert(sorted@[b] == before[b - 1]);
            assert(before[pos as int].1.created_at < created);
        } else if a == pos {
            assert(sorted@[b] == before[b - 1]);
            assert(before[pos as int].1.created_at < created);
        } else {
            assert(sorted@[a] == before[a - 1]);
            assert(sorted@[b] == before[b - 1]);
        }
    }
}

/// A fan-out over the first `n` agents depends only on the first `n` ids and
/// instants.
proof fn lemma_submitted_prefix_stable(
    tasks: Map<u128, TaskInfoView>,
    agents: Seq<AgentId>,
    ids1: Seq<TaskId>,
    ids2: Seq<TaskId>,
    req: TaskRequestView,
    times1: Seq<i64>,
    times2: Seq<i64>,
    n: nat,
)
    requires
        forall|i: int| 0 <= i < n ==> ids1[i] == ids2[i] && times1[i] == times2[i],
    ensures
        submitted_prefix(tasks, agents, ids1, req, times1, n) == submitted_prefix(
            tasks,
            agents,
            ids2,
            req,
            times2,
            n,
        ),
    decreases n,
{
    if n > 0 {
        lemma_submitted_prefix_stable(tasks, agents, ids1, ids2, req, times1, times2, (n - 1) as nat);
    }
}

} // verus!

verus! {

// ---- Laws of the scheduler ----

/// A submitted task can be read back: it is queued for its agent, with the
/// preview of its prompt and no progress, and every other task is as it was.
pub proof fn lemma_submitted_task_reads_back(
    before: Map<u128, TaskInfoView>,
    after: Map<u128, TaskInfoView>,
    id: TaskId,
    agent: Seq<char>,
    req: TaskRequestView,
    at: i64,
)
    requires
        after == before.insert(id.0, queued_task(id, agent, req, at)),
    ensures
        after.contains_key(id.0),
        after[id.0].id == id,
        after[id.0].agent_id == agent,
        after[id.0].status is Queued,
        after[id.0].prompt_preview == preview(req.prompt),
        after[id.0].progress == Fraction(FRACTION_ZERO_BITS),
        after[id.0].completed_at is None,
        forall|k: u128| k != id.0 ==> after.contains_key(k) == before.contains_key(k),
        forall|k: u128| k != id.0 && before.contains_key(k) ==> #[trigger] after[k] == before[k],
{
}

/// Every change to one task (starting it, its progress, its end) leaves the
/// set of tasks and every other task as they were; a task the scheduler does
/// not know changes nothing.
pub proof fn lemma_update_touches_one_task(
    before: Map<u128, TaskInfoView>,
    after: Map<u128, TaskInfoView>,
    id: u128,
    updated: TaskInfoView,
)
    requires
        before.contains_key(id) ==> after == before.insert(id, updated),
        !before.contains_key(id) ==> after == before,
    ensures
        after.dom() == before.dom(),
        forall|k: u128| k != id && before.contains_key(k) ==> #[trigger] after[k] == before[k],
{
    if before.contains_key(id) {
        assert(after.dom() =~= before.dom());
    }
}

/// A task keeps who and what it is through its life: starting it, its
/// progress, and its end (done, failed or cancelled) change neither its id,
/// its agent, its prompt, its model, its priority nor when it was created. A
/// task that ends records when; one that is done is fully progressed.
pub proof fn lemma_life_keeps_identity(
    t: TaskInfoView,
    progress: Fraction,
    result: TaskResultView,
    error: Seq<char>,
    at: i64,
)
    ensures
        same_identity(t, started_task(t)),
        same_identity(t, progressed_task(t, progress)),
        same_identity(t, finished_task(t, result, at)),
        same_identity(t, failed_task(t, error, at)),
        same_identity(t, cancelled_task(t, at)),
        finished_task(t, result, at).completed_at == Some(at),
        failed_task(t, error, at).completed_at == Some(at),
        cancelled_task(t, at).completed_at == Some(at),
        finished_task(t, result, at).progress == Fraction(FRACTION_ONE_BITS),
        started_task(t).status is Running,
        progressed_task(t, progress).status == (TaskStatusView::Running { progress }),
{
}

/// Two states of one task: same id, agent, prompt, model, priority and
/// creation.
pub open spec fn same_identity(a: TaskInfoView, b: TaskInfoView) -> bool {
    &&& a.id == b.id
    &&& a.agent_id == b.agent_id
    &&& a.prompt_preview == b.prompt_preview
    &&& a.model == b.model
    &&& a.priority == b.priority
    &&& a.created_at == b.created_at
}

/// A page of a listing shows only tasks the filter keeps (its agent, its
/// status variant), each once, newest first, and at most `limit` of them; the
/// first page of a listing whose limit is at least the number of matching
/// tasks shows all of them.
pub proof fn lemma_listing_page(
    tasks: Map<u128, TaskInfoView>,
    keep: ListingFilter,
    keys: Seq<u128>,
    offset: nat,
    limit: nat,
)
    requires
        is_listing(tasks, keep, keys),
    ensures
        page(keys, offset, limit).len() <= limit,
        page(keys, offset, limit).no_duplicates(),
        forall|i: int|
            0 <= i < page(keys, offset, limit).len() ==> tasks.contains_key(
                #[trigger] page(keys, offset, limit)[i],
            ) && shows(keep, tasks[page(keys, offset, limit)[i]]),
        forall|a: int, b: int|
            0 <= a < b < page(keys, offset, limit).len() ==> tasks[#[trigger] page(keys, offset, limit)[a]].created_at
                >= tasks[#[trigger] page(keys, offset, limit)[b]].created_at,
        offset == 0 && limit >= keys.len() ==> forall|k: u128|
            tasks.contains_key(k) && shows(keep, tasks[k]) ==> #[trigger] page(
                keys,
                offset,
                limit,
            ).contains(k),
{
    let p = page(keys, offset, limit);
    if offset < keys.len() {
        let end = if offset + limit >= keys.len() {
            keys.len() as int
        } else {
            (offset + limit) as int
        };
        assert(p =~= keys.subrange(offset as int, end));
        assert forall|i: int| 0 <= i < p.len() implies tasks.contains_key(#[trigger] p[i]) && shows(
            keep,
            tasks[p[i]],
        ) by {
            assert(p[i] == keys[offset + i]);
            assert(keys.contains(keys[offset + i]));
        }
        assert forall|a: int, b: int| 0 <= a < b < p.len() implies tasks[#[trigger] p[a]].created_at
            >= tasks[#[trigger] p[b]].created_at by {
            assert(p[a] == keys[offset + a]);
            assert(p[b] == keys[offset + b]);
        }
        assert forall|a: int, b: int| 0 <= a < p.len() && 0 <= b < p.len() && a != b implies p[a] != p[b] by {
            assert(p[a] == keys[offset + a]);
            assert(p[b] == keys[offset + b]);
        }
        if offset == 0 && limit >= keys.len() {
            assert(p =~= keys);
        }
    } else {
        if offset == 0 && limit >= keys.len() {
            assert(keys.len() == 0);
            assert forall|k: u128| tasks.contains_key(k) && shows(keep, tasks[k]) implies #[trigger] p.contains(
                k,
            ) by {
                assert(keys.contains(k));
            }
        }
    }
}

} // verus!

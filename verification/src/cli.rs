//! The decisions of the `aish` command: which agents a prompt goes to, and
//! the refusals when none can take it. Parsing arguments and printing are left
//! to the program around the library.

use crate::registry::{handle_views, picked_online, AgentHandle, AgentHandleView, AgentRegistry};
use crate::types::AgentStatus;
use crate::scheduler::{queued_task, submitted_prefix, TaskScheduler};
use crate::types::{AgentId, TaskId, TaskInfoView, TaskRequest, TaskRequestView};
use vstd::prelude::*;

verus! {

/// Where `aish exec` sends a prompt.
#[derive(Debug)]
pub enum ExecTarget {
    /// `--all`: every agent that is online.
    All,
    /// `--agent <id>`: that agent, whatever its status.
    Agent(String),
    /// Neither: the first agent that is online.
    FirstOnline,
}

/// The target the flags name: `--all` wins over `--agent`.
pub fn exec_target(agent: Option<String>, all: bool) -> (res: ExecTarget)
    ensures
        all ==> res is All,
        !all ==> match agent {
            Some(a) => res matches ExecTarget::Agent(b) && b == a,
            None => res is FirstOnline,
        },
{
    if all {
        ExecTarget::All
    } else {
        match agent {
            Some(a) => ExecTarget::Agent(a),
            None => ExecTarget::FirstOnline,
        }
    }
}

/// Why `aish exec` submitted nothing.
#[derive(Debug, Clone, Copy, PartialEq, Eq, Structural)]
pub enum ExecError {
    /// A fan-out found no online agent.
    NoOnlineAgents,
    /// No agent was named and none is online.
    NoAgentToPick,
}

impl ExecError {
    /// The text the command prints for the refusal.
    pub fn message(&self) -> (res: String)
        ensures
            res@ == match *self {
                ExecError::NoOnlineAgents => "No online agents available"@,
                ExecError::NoAgentToPick => "No online agents. Register an agent first with: aish agent add"@,
            },
    {
        match self {
            ExecError::NoOnlineAgents => String::from_str("No online agents available"),
            ExecError::NoAgentToPick => String::from_str(
                "No online agents. Register an agent first with: aish agent add",
            ),
        }
    }
}

/// A task that was submitted, and the agent it went to.
#[derive(Debug)]
pub struct Submitted {
    pub agent: AgentId,
    pub task: TaskId,
}

/// The ids of the agents of a list of submissions.
pub open spec fn agents_of(subs: Seq<Submitted>) -> Seq<Seq<char>> {
    subs.map_values(|s: Submitted| s.agent.0@)
}

/// The texts of a list of agent ids.
pub open spec fn id_texts(ids: Seq<AgentId>) -> Seq<Seq<char>> {
    ids.map_values(|a: AgentId| a.0@)
}

/// The task ids of a list of submissions.
pub open spec fn tasks_of(subs: Seq<Submitted>) -> Seq<TaskId> {
    subs.map_values(|s: Submitted| s.task)
}

/// `after` is `before` with one more task, `task`, queued for `agent` at some
/// instant.
pub open spec fn queued_one(
    before: Map<u128, TaskInfoView>,
    after: Map<u128, TaskInfoView>,
    task: TaskId,
    agent: Seq<char>,
    req: TaskRequestView,
) -> bool {
    exists|at: i64| after == before.insert(task.0, #[trigger] queued_task(task, agent, req, at))
}

/// Submits a request to one agent, and gives that one submission.
fn submit_one(scheduler: &mut TaskScheduler, agent: AgentId, req: TaskRequest) -> (res: Vec<Submitted>)
    ensures
        res@.len() == 1,
        res@[0].agent.0@ == agent.0@,
        queued_one(old(scheduler)@, final(scheduler)@, res@[0].task, agent.0@, req@),
{
    let task = scheduler.submit(&agent, req);
    let mut subs: Vec<Submitted> = Vec::new();
    subs.push(Submitted { agent, task });
    subs
}

/// Each agent with the task it was given, in order.
fn pair_up(online: &Vec<AgentId>, tasks: &Vec<TaskId>) -> (res: Vec<Submitted>)
    requires
        tasks@.len() == online@.len(),
    ensures
        agents_of(res@) == id_texts(online@),
        tasks_of(res@) == tasks@,
{
    let mut subs: Vec<Submitted> = Vec::new();
    let mut i: usize = 0;
    while i < online.len()
        invariant
            i <= online@.len(),
            tasks@.len() == online@.len(),
            subs@.len() == i,
            forall|j: int|
                #![trigger subs@[j]]
                0 <= j < i ==> subs@[j].agent.0@ == online@[j].0@ && subs@[j].task == tasks@[j],
        decreases online@.len() - i,
    {
        subs.push(Submitted { agent: online[i].clone(), task: tasks[i] });
        i = i + 1;
    }
    assert(agents_of(subs@) =~= id_texts(online@));
    assert forall|j: int| 0 <= j < subs@.len() implies #[trigger] tasks_of(subs@)[j] == tasks@[j] by {
        assert(subs@[j].task == tasks@[j]);
    }
    assert(tasks_of(subs@) =~= tasks@);
    subs
}

/// Sends a request where the target says, given the agents that are online
/// now, in the registry's order:
/// - to a named agent: one task, whatever is online;
/// - to all: one task per online agent, in order, refused with
///   [`ExecError::NoOnlineAgents`] when none is;
/// - to the first online agent: one task, refused with
///   [`ExecError::NoAgentToPick`] when none is.
///
/// A refusal leaves the scheduler unchanged.
pub fn dispatch_to(
    scheduler: &mut TaskScheduler,
    target: &ExecTarget,
    online: &Vec<AgentId>,
    req: TaskRequest,
) -> (res: Result<Vec<Submitted>, ExecError>)
    ensures
        target is Agent ==> (res matches Ok(subs) && subs@.len() == 1 && subs@[0].agent.0@ == target->Agent_0@
            && queued_one(old(scheduler)@, final(scheduler)@, subs@[0].task, target->Agent_0@, req@)),
        target is All && online@.len() == 0 ==> res == Err::<Vec<Submitted>, ExecError>(ExecError::NoOnlineAgents)
            && final(scheduler)@ == old(scheduler)@,
        target is All && online@.len() > 0 ==> (res matches Ok(subs) && agents_of(subs@) == id_texts(online@)
            && exists|times: Seq<i64>|
            times.len() == online@.len() && final(scheduler)@ == #[trigger] submitted_prefix(
                old(scheduler)@,
                online@,
                tasks_of(subs@),
                req@,
                times,
                online@.len(),
            )),
        target is FirstOnline && online@.len() == 0 ==> res == Err::<Vec<Submitted>, ExecError>(
            ExecError::NoAgentToPick,
        ) && final(scheduler)@ == old(scheduler)@,
        target is FirstOnline && online@.len() > 0 ==> (res matches Ok(subs) && subs@.len() == 1
            && subs@[0].agent.0@ == online@[0].0@ && queued_one(
            old(scheduler)@,
            final(scheduler)@,
            subs@[0].task,
            online@[0].0@,
            req@,
        )),
{
    match target {
        ExecTarget::Agent(a) => Ok(submit_one(scheduler, AgentId(a.clone()), req)),
        ExecTarget::All => {
            if online.len() == 0 {
                return Err(ExecError::NoOnlineAgents);
            }
            let ghost before = scheduler@;
            let agents = online.as_slice();
            assert(agents@ == online@);
            let tasks = scheduler.submit_all(agents, req);
            let ghost times = choose|times: Seq<i64>|
                times.len() == online@.len() && scheduler@ == #[trigger] submitted_prefix(
                    before,
                    online@,
                    tasks@,
                    req@,
                    times,
                    online@.len(),
                );
            let subs = pair_up(online, &tasks);
            assert(scheduler@ == submitted_prefix(old(scheduler)@, online@, tasks_of(subs@), req@, times, online@.len()));
            Ok(subs)
        },
        ExecTarget::FirstOnline => {
            if online.len() == 0 {
                return Err(ExecError::NoAgentToPick);
            }
            Ok(submit_one(scheduler, online[0].clone(), req))
        },
    }
}

/// The ids of a list of handles, in order.
fn ids_of(handles: &Vec<AgentHandle>) -> (res: Vec<AgentId>)
    ensures
        res@.len() == handles@.len(),
        forall|j: int| 0 <= j < res@.len() ==> #[trigger] res@[j].0@ == handles@[j]@.id,
{
    let mut online: Vec<AgentId> = Vec::new();
    let mut i: usize = 0;
    while i < handles.len()
        invariant
            i <= handles@.len(),
            online@.len() == i,
            forall|j: int| #![trigger online@[j]] 0 <= j < i ==> online@[j].0@ == handles@[j]@.id,
        decreases handles@.len() - i,
    {
        let id = handles[i].agent_id();
        online.push(id);
        i = i + 1;
    }
    online
}

/// Sends a request where the target says; see [`dispatch_to`]. The online
/// agents are read from the registry only for a target that needs them; which
/// agents are online then depends on statuses shared with every clone of the
/// handles, so only this is known of them: each is registered, and none twice.
pub fn dispatch(
    registry: &AgentRegistry,
    scheduler: &mut TaskScheduler,
    target: &ExecTarget,
    req: TaskRequest,
) -> (res: Result<Vec<Submitted>, ExecError>)
    ensures
        target is Agent ==> (res matches Ok(subs) && subs@.len() == 1 && subs@[0].agent.0@ == target->Agent_0@
            && queued_one(old(scheduler)@, final(scheduler)@, subs@[0].task, target->Agent_0@, req@)),
        target is All && res is Err ==> res == Err::<Vec<Submitted>, ExecError>(ExecError::NoOnlineAgents)
            && final(scheduler)@ == old(scheduler)@,
        target is FirstOnline && res is Err ==> res == Err::<Vec<Submitted>, ExecError>(ExecError::NoAgentToPick)
            && final(scheduler)@ == old(scheduler)@,
        target is FirstOnline ==> (res matches Ok(subs) ==> subs@.len() == 1),
        res matches Ok(subs) ==> forall|i: int|
            0 <= i < subs@.len() ==> (target is Agent || registry@.contains_key(#[trigger] subs@[i].agent.0@)),
        res matches Ok(subs) ==> forall|i: int, j: int|
            0 <= i < j < subs@.len() ==> subs@[i].agent.0@ != subs@[j].agent.0@,
        target is All && res is Ok ==> exists|
            all: Seq<AgentHandleView>,
            statuses: Seq<AgentStatus>,
            picked: Seq<AgentHandleView>,
        |
            #[trigger] picked_online(registry@, all, statuses, picked) && agents_of(res->Ok_0@) == picked.map_values(
                |h: AgentHandleView| h.id,
            ),
        target is FirstOnline && res is Ok ==> exists|
            all: Seq<AgentHandleView>,
            statuses: Seq<AgentStatus>,
            picked: Seq<AgentHandleView>,
        |
            #[trigger] picked_online(registry@, all, statuses, picked) && picked.len() > 0 && res->Ok_0@[0].agent.0@
                == picked[0].id,
{
    match target {
        ExecTarget::Agent(_) => {
            let online: Vec<AgentId> = Vec::new();
            dispatch_to(scheduler, target, &online, req)
        },
        _ => {
            let handles = registry.online();
            let online = ids_of(&handles);
            let res = dispatch_to(scheduler, target, &online, req);
            proof {
                if res is Ok {
                    let subs = res->Ok_0;
                    assert(online@.len() == handles@.len());
                    if target is All {
                        assert(agents_of(subs@).len() == id_texts(online@).len());
                    }
                    assert(subs@.len() <= online@.len());
                    assert forall|k: int| 0 <= k < subs@.len() implies registry@.contains_key(
                        #[trigger] subs@[k].agent.0@,
                    ) && subs@[k].agent.0@ == handles@[k]@.id by {
                        if target is All {
                            assert(agents_of(subs@)[k] == id_texts(online@)[k]);
                        }
                        assert(online@[k].0@ == handles@[k]@.id);
                    }
                    assert forall|k: int, l: int| 0 <= k < l < subs@.len() implies subs@[k].agent.0@
                        != subs@[l].agent.0@ by {
                        assert(subs@[k].agent.0@ == handles@[k]@.id);
                        assert(subs@[l].agent.0@ == handles@[l]@.id);
                    }
                    let picked = handle_views(handles@);
                    let (all, statuses) = choose|all: Seq<AgentHandleView>, statuses: Seq<AgentStatus>|
                        #[trigger] picked_online(registry@, all, statuses, picked);
                    assert(picked_online(registry@, all, statuses, picked));
                    if target is All {
                        assert(agents_of(subs@) =~= picked.map_values(|h: AgentHandleView| h.id)) by {
                            assert forall|k: int| 0 <= k < subs@.len() implies agents_of(subs@)[k] == picked.map_values(
                                |h: AgentHandleView| h.id,
                            )[k] by {
                                assert(agents_of(subs@)[k] == id_texts(online@)[k]);
                                assert(online@[k].0@ == handles@[k]@.id);
                            }
                        }
                    }
                    if target is FirstOnline {
                        assert(online@.len() > 0);
                        assert(subs@[0].agent.0@ == handles@[0]@.id);
                    }
                }
            }
            res
        },
    }
}

} // verus!

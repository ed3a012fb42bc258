//! What the daemon's tools compute: agent counts by status, lookups with their
//! refusals, and where its socket lives. Listening on sockets and encoding the
//! answers as JSON is left to the program around the library.

use crate::registry::{AgentHandle, AgentRegistry};
use crate::scheduler::TaskScheduler;
use crate::types::{AgentId, AgentStatus};
use vstd::prelude::*;

verus! {

/// How many of `statuses` are online or busy.
pub open spec fn available_count(statuses: Seq<AgentStatus>) -> nat
    decreases statuses.len(),
{
    if statuses.len() == 0 {
        0
    } else {
        available_count(statuses.drop_last()) + if statuses.last().spec_is_available() {
            1nat
        } else {
            0nat
        }
    }
}

/// Agents counted by status: all of them, those that can take work (online or
/// busy), and the others.
#[derive(Debug, Clone, Copy, PartialEq, Eq, Structural)]
pub struct AgentCounts {
    pub total: usize,
    pub online: usize,
    pub offline: usize,
}

/// Counts a list of statuses: `online` are those online or busy, `offline`
/// the rest.
pub fn counts_of(statuses: &Vec<AgentStatus>) -> (res: AgentCounts)
    ensures
        res.total == statuses@.len(),
        res.online == available_count(statuses@),
        res.offline == res.total - res.online,
{
    let mut online: usize = 0;
    let mut i: usize = 0;
    while i < statuses.len()
        invariant
            i <= statuses@.len(),
            online == available_count(statuses@.take(i as int)),
            online <= i,
        decreases statuses@.len() - i,
    {
        assert(statuses@.take(i + 1).drop_last() =~= statuses@.take(i as int));
        if statuses[i].is_available() {
            online = online + 1;
        }
        i = i + 1;
    }
    assert(statuses@.take(statuses@.len() as int) =~= statuses@);
    AgentCounts { total: statuses.len(), online, offline: statuses.len() - online }
}

/// The registered agents counted by the status each has when it is read; see
/// [`counts_of`]. Statuses are shared with every clone of the handles, so the
/// split between online and offline is not known beforehand.
pub fn agent_counts(registry: &AgentRegistry) -> (res: AgentCounts)
    ensures
        res.total == registry@.dom().len(),
        res.online + res.offline == res.total,
{
    let all = registry.list();
    let mut statuses: Vec<AgentStatus> = Vec::new();
    let mut i: usize = 0;
    while i < all.len()
        invariant
            i <= all@.len(),
            statuses@.len() == i,
        decreases all@.len() - i,
    {
        statuses.push(all[i].status());
        i = i + 1;
    }
    counts_of(&statuses)
}

/// The number the `task.count` tool reports: how many tasks the scheduler
/// holds, of every agent and status.
pub fn task_total(scheduler: &TaskScheduler) -> (res: usize)
    ensures
        res == scheduler@.dom().len(),
{
    scheduler.task_count()
}

/// The refusal of a lookup of an unknown agent: `Agent '<id>' not found`.
pub open spec fn agent_not_found(id: Seq<char>) -> Seq<char> {
    "Agent '"@ + id + "' not found"@
}

/// The agent of id `id`, or the refusal the daemon answers when there is none.
pub fn lookup_agent(registry: &AgentRegistry, id: &str) -> (res: Result<AgentHandle, String>)
    ensures
        res is Ok == registry@.contains_key(id@),
        res matches Ok(h) ==> h@ == registry@[id@],
        res matches Err(msg) ==> msg@ == agent_not_found(id@),
{
    match registry.get(&AgentId::from_str(id)) {
        Some(h) => Ok(h),
        None => {
            let mut msg = String::from_str("Agent '");
            msg.append(id);
            msg.append("' not found");
            Err(msg)
        },
    }
}

/// The answer of the daemon's health check.
pub fn ping_reply() -> (res: &'static str)
    ensures
        res@ == "pong"@,
{
    "pong"
}

/// The daemon's version line: `aish-daemon v<version>`.
pub fn version_reply(version: &str) -> (res: String)
    ensures
        res@ == "aish-daemon v"@ + version@,
{
    let mut text = String::from_str("aish-daemon v");
    text.append(version);
    text
}

/// `s` with each `c` replaced by `with`.
pub open spec fn replace_char(s: Seq<char>, c: char, with: Seq<char>) -> Seq<char>
    decreases s.len(),
{
    if s.len() == 0 {
        s
    } else {
        replace_char(s.drop_last(), c, with) + if s.last() == c {
            with
        } else {
            seq![s.last()]
        }
    }
}

/// A path as the daemon reads it from its configuration: one that starts with
/// `~` has every `~` replaced by the home directory, when that is known.
pub open spec fn spec_expand_tilde(path: Seq<char>, home: Option<Seq<char>>) -> Seq<char> {
    if path.len() > 0 && path[0] == '~' {
        match home {
            Some(h) => replace_char(path, '~', h),
            None => path,
        }
    } else {
        path
    }
}

/// Expands a leading `~` of `path`, given the home directory when it is
/// known; see [`spec_expand_tilde`].
pub fn expand_tilde(path: &str, home: Option<&str>) -> (res: String)
    ensures
        res@ == spec_expand_tilde(path@, home.deep_view()),
{
    let len = path.unicode_len();
    if len == 0 || path.get_char(0) != '~' {
        return String::from_str(path);
    }
    let h = match home {
        Some(h) => h,
        None => {
            return String::from_str(path);
        },
    };
    let mut out = String::new();
    let mut i: usize = 0;
    while i < len
        invariant
            i <= len,
            len == path@.len(),
            out@ == replace_char(path@.take(i as int), '~', h@),
        decreases len - i,
    {
        assert(path@.take(i + 1).drop_last() =~= path@.take(i as int));
        let c = path.get_char(i);
        if c == '~' {
            out.append(h);
        } else {
            let one = path.substring_char(i, i + 1);
            assert(one@ =~= seq![c]);
            out.append(one);
        }
        i = i + 1;
    }
    assert(path@.take(len as int) =~= path@);
    out
}

} // verus!

//! The agent registry: the adapters the shell knows, by id, each with a
//! handle whose status every holder of the handle shares.

use crate::config::{AdapterDef, AdapterDefView, AdaptersConfig, TransportConfig, TransportConfigView};
use crate::event::{BusEvent, EventBus};
use crate::outside::{
    agent_entries, agent_table_entries, agent_table_get, agent_table_insert, agent_table_len, agent_table_new,
    agent_table_remove, now_micros, share, status_cell_new, status_cell_read, status_cell_write, status_made_with, AgentRow,
};
use crate::types::{clone_string_pairs, clone_strings, AgentId, AgentStatus, ConnectionType, ConnectionTypeView};
use dashmap::DashMap;
use std::sync::Arc;
use vstd::prelude::*;

verus! {

/// The connection an adapter's transport gives: the same endpoint, without the
/// remote command of an SSH transport.
pub open spec fn connection_for(t: TransportConfigView) -> ConnectionTypeView {
    match t {
        TransportConfigView::Stdio { command, args, env } => ConnectionTypeView::Stdio { command, args, env },
        TransportConfigView::Ssh { host, port, user, key_path, .. } => ConnectionTypeView::Ssh {
            host,
            port,
            user,
            key_path,
        },
        TransportConfigView::Unix { path } => ConnectionTypeView::UnixSocket { path },
        TransportConfigView::Tcp { host, port, tls } => ConnectionTypeView::Tcp { host, port, tls },
    }
}

impl ConnectionType {
    /// The connection an adapter's transport gives; see [`connection_for`].
    pub fn from_transport(transport: &TransportConfig) -> (res: ConnectionType)
        ensures
            res@ == connection_for(transport@),
    {
        match transport {
            TransportConfig::Stdio { command, args, env } => ConnectionType::Stdio {
                command: command.clone(),
                args: clone_strings(args),
                env: clone_string_pairs(env),
            },
            TransportConfig::Ssh { host, port, user, key_path, .. } => ConnectionType::Ssh {
                host: host.clone(),
                port: *port,
                user: user.clone(),
                key_path: key_path.clone(),
            },
            TransportConfig::Unix { path } => ConnectionType::UnixSocket { path: path.clone() },
            TransportConfig::Tcp { host, port, tls } => ConnectionType::Tcp {
                host: host.clone(),
                port: *port,
                tls: *tls,
            },
        }
    }
}

/// A handle to a registered adapter. Clones of a handle share one status.
pub struct AgentHandle {
    pub id: AgentId,
    pub alias: Option<String>,
    pub connection_type: ConnectionType,
    pub default_model: Option<String>,
    pub timeout_ms: u64,
    status: Arc<parking_lot::RwLock<AgentStatus>>,
    event_bus: Arc<EventBus>,
    created_at: i64,
}

/// The mathematical value of an [`AgentHandle`]: everything but the shared
/// status and the bus.
pub struct AgentHandleView {
    pub id: Seq<char>,
    pub alias: Option<Seq<char>>,
    pub connection_type: ConnectionTypeView,
    pub default_model: Option<Seq<char>>,
    pub timeout_ms: u64,
    /// Microseconds since the Unix epoch.
    pub created_at: i64,
}

impl View for AgentHandle {
    type V = AgentHandleView;

    closed spec fn view(&self) -> AgentHandleView {
        AgentHandleView {
            id: self.id.0@,
            alias: self.alias.deep_view(),
            connection_type: self.connection_type@,
            default_model: self.default_model.deep_view(),
            timeout_ms: self.timeout_ms,
            created_at: self.created_at,
        }
    }
}

impl Clone for AgentHandle {
    /// Another handle to the same agent, sharing its status.
    fn clone(&self) -> (res: Self)
        ensures
            res@ == self@,
            res.initial_status() == self.initial_status(),
    {
        AgentHandle {
            id: self.id.clone(),
            alias: self.alias.clone(),
            connection_type: self.connection_type.clone(),
            default_model: self.default_model.clone(),
            timeout_ms: self.timeout_ms,
            status: share(&self.status),
            event_bus: share(&self.event_bus),
            created_at: self.created_at,
        }
    }
}

/// The handle a definition gives when it is registered at instant
/// `created_at`.
pub open spec fn handle_for(def: AdapterDefView, created_at: i64) -> AgentHandleView {
    AgentHandleView {
        id: def.id,
        alias: def.alias,
        connection_type: connection_for(def.transport),
        default_model: def.default_model,
        timeout_ms: def.timeout_ms,
        created_at,
    }
}

/// The event that announces a new status: online, offline (for a lost
/// connection) and degraded are announced; busy and connecting are not.
pub fn status_event(agent: &AgentId, status: &AgentStatus) -> (res: Option<BusEvent>)
    ensures
        match *status {
            AgentStatus::Online { model, .. } => res == Some(
                BusEvent::AgentOnline { agent: *agent, model },
            ),
            AgentStatus::Offline { since } => res matches Some(
                BusEvent::AgentOffline { agent: a, reason, since: s },
            ) && a == *agent && reason@ == "connection lost"@ && s == since,
            AgentStatus::Degraded { reason, .. } => res == Some(
                BusEvent::AgentDegraded { agent: *agent, reason },
            ),
            _ => res is None,
        },
{
    match status {
        AgentStatus::Online { model, .. } => Some(
            BusEvent::AgentOnline { agent: agent.clone(), model: model.clone() },
        ),
        AgentStatus::Offline { since } => Some(
            BusEvent::AgentOffline {
                agent: agent.clone(),
                reason: String::from_str("connection lost"),
                since: *since,
            },
        ),
        AgentStatus::Degraded { reason, .. } => Some(
            BusEvent::AgentDegraded { agent: agent.clone(), reason: reason.clone() },
        ),
        _ => None,
    }
}

impl AgentHandle {
    /// The status the agent's handle was made with; [`AgentHandle::status`]
    /// reads what it is now.
    pub closed spec fn initial_status(&self) -> AgentStatus {
        status_made_with(*self.status)
    }

    /// The id of the agent.
    pub fn agent_id(&self) -> (res: AgentId)
        ensures
            res.0@ == self@.id,
    {
        self.id.clone()
    }

    /// The agent's current status. Any clone of the handle may change it, so
    /// nothing is known of the value beforehand.
    pub fn status(&self) -> AgentStatus {
        status_cell_read(&self.status)
    }

    /// Replaces the agent's status, for every clone of the handle, and
    /// publishes the event [`status_event`] gives, if any.
    pub fn set_status(&self, new_status: AgentStatus) {
        let event = status_event(&self.id, &new_status);
        status_cell_write(&self.status, new_status);
        match event {
            Some(e) => self.event_bus.publish(e),
            None => {},
        }
    }
}

/// The values of a list of handles.
pub open spec fn handle_views(handles: Seq<AgentHandle>) -> Seq<AgentHandleView> {
    handles.map_values(|h: AgentHandle| h@)
}

/// The handles among the first `n` whose status (at the same position) is
/// online or busy, in order.
pub open spec fn available_among(handles: Seq<AgentHandleView>, statuses: Seq<AgentStatus>, n: nat) -> Seq<
    AgentHandleView,
>
    decreases n,
{
    if n == 0 {
        Seq::empty()
    } else {
        let rest = available_among(handles, statuses, (n - 1) as nat);
        if statuses[n - 1].spec_is_available() {
            rest.push(handles[n - 1])
        } else {
            rest
        }
    }
}

/// The handles whose status, given at the same position, is online or busy,
/// in order; see [`available_among`].
pub fn select_available(handles: &Vec<AgentHandle>, statuses: &Vec<AgentStatus>) -> (res: Vec<AgentHandle>)
    requires
        handles@.len() == statuses@.len(),
    ensures
        handle_views(res@) == available_among(handle_views(handles@), statuses@, handles@.len() as nat),
{
    let ghost views = handle_views(handles@);
    let mut res: Vec<AgentHandle> = Vec::new();
    let mut i: usize = 0;
    while i < handles.len()
        invariant
            i <= handles@.len(),
            handles@.len() == statuses@.len(),
            views == handle_views(handles@),
            handle_views(res@) == available_among(views, statuses@, i as nat),
        decreases handles@.len() - i,
    {
        if statuses[i].is_available() {
            let ghost before = handle_views(res@);
            res.push(handles[i].clone());
            assert(handle_views(res@) =~= before.push(views[i as int]));
        }
        i = i + 1;
    }
    res
}

/// The positions, among the first `n`, whose status is online or busy, in
/// increasing order.
pub open spec fn available_positions(statuses: Seq<AgentStatus>, n: nat) -> Seq<int>
    decreases n,
{
    if n == 0 {
        Seq::empty()
    } else {
        let rest = available_positions(statuses, (n - 1) as nat);
        if statuses[n - 1].spec_is_available() {
            rest.push(n - 1)
        } else {
            rest
        }
    }
}

/// What [`available_among`] picks comes from the handles, in their order:
/// the `k`-th pick is the handle at the `k`-th available position, and the
/// positions increase.
proof fn lemma_available_picks(handles: Seq<AgentHandleView>, statuses: Seq<AgentStatus>, n: nat)
    ensures
        available_among(handles, statuses, n).len() == available_positions(statuses, n).len(),
        available_positions(statuses, n).len() <= n,
        forall|k: int|
            0 <= k < available_positions(statuses, n).len() ==> 0 <= #[trigger] available_positions(statuses, n)[k]
                < n && available_among(handles, statuses, n)[k] == handles[available_positions(statuses, n)[k]],
        forall|k: int, l: int|
            0 <= k < l < available_positions(statuses, n).len() ==> #[trigger] available_positions(statuses, n)[k]
                < #[trigger] available_positions(statuses, n)[l],
    decreases n,
{
    if n > 0 {
        lemma_available_picks(handles, statuses, (n - 1) as nat);
    }
}

/// `all` lists the agents of `agents`, each exactly once.
pub open spec fn is_agent_listing(agents: Map<Seq<char>, AgentHandleView>, all: Seq<AgentHandleView>) -> bool {
    &&& all.len() == agents.dom().len()
    &&& forall|a: int| 0 <= a < all.len() ==> agents.contains_key(#[trigger] all[a].id) && agents[all[a].id] == all[a]
    &&& forall|a: int, b: int| 0 <= a < b < all.len() ==> #[trigger] all[a].id != #[trigger] all[b].id
    &&& forall|k: Seq<char>| #[trigger] agents.contains_key(k) ==> exists|a: int| 0 <= a < all.len() && all[a].id == k
}

/// `picked` is what a pass over the agents of `agents`, listed as `all` and
/// read with the statuses `statuses` (one per agent, in order), keeps: those
/// online or busy, in the order of the listing.
pub open spec fn picked_online(
    agents: Map<Seq<char>, AgentHandleView>,
    all: Seq<AgentHandleView>,
    statuses: Seq<AgentStatus>,
    picked: Seq<AgentHandleView>,
) -> bool {
    &&& is_agent_listing(agents, all)
    &&& statuses.len() == all.len()
    &&& picked == available_among(all, statuses, all.len())
}

/// The agents after registering `handles` in turn.
pub open spec fn registered_all(agents: Map<Seq<char>, AgentHandleView>, handles: Seq<AgentHandleView>) -> Map<
    Seq<char>,
    AgentHandleView,
>
    decreases handles.len(),
{
    if handles.len() == 0 {
        agents
    } else {
        registered_all(agents, handles.drop_last()).insert(handles.last().id, handles.last())
    }
}

/// All registered agents, by id.
pub struct AgentRegistry {
    agents: DashMap<String, AgentHandle>,
    event_bus: Arc<EventBus>,
}

impl View for AgentRegistry {
    type V = Map<Seq<char>, AgentHandleView>;

    /// Each registered agent's handle, by the agent's id.
    closed spec fn view(&self) -> Map<Seq<char>, AgentHandleView> {
        agent_entries(self.agents)
    }
}

impl AgentRegistry {
    /// Finitely many agents, each filed under its own id.
    #[verifier::type_invariant]
    closed spec fn well_formed(&self) -> bool {
        &&& self@.dom().finite()
        &&& forall|k: Seq<char>| #[trigger] self@.contains_key(k) ==> self@[k].id == k
    }

    /// An empty registry whose handles announce on `event_bus`.
    pub fn new(event_bus: Arc<EventBus>) -> (res: AgentRegistry)
        ensures
            res@ == Map::<Seq<char>, AgentHandleView>::empty(),
    {
        AgentRegistry { agents: agent_table_new(), event_bus }
    }

    /// Registers an adapter from its definition, without connecting to it: its
    /// handle (status `Connecting`) replaces any agent of the same id.
    pub fn register(&mut self, def: &AdapterDef) -> (res: AgentHandle)
        ensures
            res@ == handle_for(def@, res@.created_at),
            res.initial_status() is Connecting,
            final(self)@ == old(self)@.insert(def.id@, res@),
            old(self)@.dom().finite(),
            final(self)@.dom().finite(),
    {
        proof {
            use_type_invariant(&*self);
        }
        let handle = AgentHandle {
            id: AgentId(def.id.clone()),
            alias: def.alias.clone(),
            connection_type: ConnectionType::from_transport(&def.transport),
            default_model: def.default_model.clone(),
            timeout_ms: def.timeout_ms,
            status: Arc::new(status_cell_new(AgentStatus::Connecting)),
            event_bus: share(&self.event_bus),
            created_at: now_micros(),
        };
        let stored = handle.clone();
        let mut table = agent_table_new();
        std::mem::swap(&mut table, &mut self.agents);
        agent_table_insert(&mut table, def.id.clone(), stored);
        std::mem::swap(&mut table, &mut self.agents);
        proof {
            use_type_invariant(&*self);
        }
        handle
    }

    /// Registers every adapter of a configuration in order, and gives their
    /// handles in that order.
    pub fn load_from_config(&mut self, config: &AdaptersConfig) -> (res: Vec<AgentHandle>)
        ensures
            res@.len() == config.adapters@.len(),
            forall|i: int|
                0 <= i < res@.len() ==> #[trigger] res@[i]@ == handle_for(
                    config.adapters@[i]@,
                    res@[i]@.created_at,
                ),
            final(self)@ == registered_all(old(self)@, res@.map_values(|h: AgentHandle| h@)),
    {
        let mut handles: Vec<AgentHandle> = Vec::new();
        let mut i: usize = 0;
        while i < config.adapters.len()
            invariant
                i <= config.adapters@.len(),
                handles@.len() == i,
                forall|j: int|
                    0 <= j < i ==> #[trigger] handles@[j]@ == handle_for(
                        config.adapters@[j]@,
                        handles@[j]@.created_at,
                    ),
                self@ == registered_all(old(self)@, handles@.map_values(|h: AgentHandle| h@)),
            decreases config.adapters@.len() - i,
        {
            let handle = self.register(&config.adapters[i]);
            let ghost before = handles@.map_values(|h: AgentHandle| h@);
            handles.push(handle);
            proof {
                let after = handles@.map_values(|h: AgentHandle| h@);
                assert(after.drop_last() =~= before);
                assert(after.last() == handles@[i as int]@);
            }
            i = i + 1;
        }
        handles
    }

    /// The agent with this id, if registered.
    pub fn get(&self, id: &AgentId) -> (res: Option<AgentHandle>)
        ensures
            res is Some == self@.contains_key(id.0@),
            res is Some ==> res->0@ == self@[id.0@],
    {
        agent_table_get(&self.agents, id.0.as_str())
    }

    /// Every registered agent, each once, in an order the table chooses.
    pub fn list(&self) -> (res: Vec<AgentHandle>)
        ensures
            res@.len() == self@.dom().len(),
            forall|i: int|
                0 <= i < res@.len() ==> self@.contains_key(#[trigger] res@[i]@.id) && self@[res@[i]@.id]
                    == res@[i]@,
            forall|i: int|
                #![trigger res@[i]]
                forall|j: int| 0 <= i < j < res@.len() ==> res@[i]@.id != res@[j]@.id,
            forall|k: Seq<char>|
                self@.contains_key(k) ==> exists|i: int| 0 <= i < res@.len() && #[trigger] res@[i]@.id == k,
    {
        proof {
            use_type_invariant(self);
        }
        let rows = agent_table_entries(&self.agents);
        let mut res: Vec<AgentHandle> = Vec::new();
        let mut i: usize = 0;
        while i < rows.len()
            invariant
                i <= rows@.len(),
                res@.len() == i,
                rows@.len() == self@.dom().len(),
                forall|a: int|
                    0 <= a < rows@.len() ==> self@.contains_key(#[trigger] rows@[a].0@) && self@[rows@[a].0@]
                        == rows@[a].1@,
                forall|a: int|
                    #![trigger rows@[a]]
                    forall|b: int| 0 <= a < b < rows@.len() ==> rows@[a].0@ != rows@[b].0@,
                forall|a: int| 0 <= a < i ==> #[trigger] res@[a]@ == rows@[a].1@,
            decreases rows@.len() - i,
        {
            res.push(rows[i].1.clone());
            i = i + 1;
        }
        proof {
            assert forall|a: int| 0 <= a < res@.len() implies self@.contains_key(#[trigger] res@[a]@.id)
                && self@[res@[a]@.id] == res@[a]@ by {
                assert(self@.contains_key(rows@[a].0@));
                assert(self@[rows@[a].0@].id == rows@[a].0@);
            }
            assert forall|a: int, b: int| 0 <= a < b < res@.len() implies res@[a]@.id != res@[b]@.id by {
                assert(self@[rows@[a].0@].id == rows@[a].0@);
                assert(self@[rows@[b].0@].id == rows@[b].0@);
            }
            assert forall|k: Seq<char>| self@.contains_key(k) implies exists|a: int|
                0 <= a < res@.len() && #[trigger] res@[a]@.id == k by {
                let a = choose|a: int| 0 <= a < rows@.len() && #[trigger] rows@[a].0@ == k;
                assert(self@[rows@[a].0@].id == rows@[a].0@);
                assert(res@[a]@.id == k);
            }
        }
        res
    }

    /// The agents that can take work: those whose status, read now, is online
    /// or busy (see [`select_available`]). Statuses are shared with every
    /// clone of the handles, so which agents these are is not known
    /// beforehand; each comes from the registry, once.
    pub fn online(&self) -> (res: Vec<AgentHandle>)
        ensures
            res@.len() <= self@.dom().len(),
            forall|i: int|
                0 <= i < res@.len() ==> self@.contains_key(#[trigger] res@[i]@.id) && self@[res@[i]@.id]
                    == res@[i]@,
            forall|i: int|
                #![trigger res@[i]]
                forall|j: int| 0 <= i < j < res@.len() ==> res@[i]@.id != res@[j]@.id,
            exists|all: Seq<AgentHandleView>, statuses: Seq<AgentStatus>|
                #[trigger] picked_online(self@, all, statuses, handle_views(res@)),
    {
        let all = self.list();
        let mut statuses: Vec<AgentStatus> = Vec::new();
        let mut i: usize = 0;
        while i < all.len()
            invariant
                i <= all@.len(),
                statuses@.len() == i,
            decreases all@.len() - i,
        {
            statuses.push(all[i].status());
            i = i + 1;
        }
        let res = select_available(&all, &statuses);
        proof {
            let views = handle_views(all@);
            lemma_available_picks(views, statuses@, views.len());
            let picked = available_among(views, statuses@, views.len());
            let pos = available_positions(statuses@, views.len());
            assert forall|k: int| 0 <= k < res@.len() implies self@.contains_key(#[trigger] res@[k]@.id)
                && self@[res@[k]@.id] == res@[k]@ by {
                assert(res@[k]@ == handle_views(res@)[k]);
                assert(0 <= pos[k] < views.len());
                assert(views[pos[k]] == all@[pos[k]]@);
            }
            assert(res@.len() == handle_views(res@).len());
            assert forall|k: int, l: int| 0 <= k < l < res@.len() implies res@[k]@.id != res@[l]@.id by {
                assert(res@[k]@ == handle_views(res@)[k]);
                assert(res@[l]@ == handle_views(res@)[l]);
                assert(pos[k] < pos[l]);
                assert(0 <= pos[k] < views.len());
                assert(0 <= pos[l] < views.len());
                assert(views[pos[k]] == all@[pos[k]]@);
                assert(views[pos[l]] == all@[pos[l]]@);
            }
            assert forall|a: int| 0 <= a < views.len() implies self@.contains_key(#[trigger] views[a].id)
                && self@[views[a].id] == views[a] by {
                assert(views[a] == all@[a]@);
            }
            assert forall|a: int, b: int| 0 <= a < b < views.len() implies #[trigger] views[a].id
                != #[trigger] views[b].id by {
                assert(views[a] == all@[a]@);
                assert(views[b] == all@[b]@);
            }
            assert forall|k: Seq<char>| #[trigger] self@.contains_key(k) implies exists|a: int|
                0 <= a < views.len() && views[a].id == k by {
                let a = choose|a: int| 0 <= a < all@.len() && #[trigger] all@[a]@.id == k;
                assert(views[a] == all@[a]@);
            }
            assert(picked_online(self@, views, statuses@, handle_views(res@)));
        }
        res
    }

    /// Removes an agent, and gives its handle if it was registered.
    pub fn remove(&mut self, id: &AgentId) -> (res: Option<AgentHandle>)
        ensures
            final(self)@ == old(self)@.remove(id.0@),
            res is Some == old(self)@.contains_key(id.0@),
            res is Some ==> res->0@ == old(self)@[id.0@],
            old(self)@.dom().finite(),
            final(self)@.dom().finite(),
    {
        proof {
            use_type_invariant(&*self);
        }
        let mut table = agent_table_new();
        std::mem::swap(&mut table, &mut self.agents);
        let res = agent_table_remove(&mut table, id.0.as_str());
        std::mem::swap(&mut table, &mut self.agents);
        proof {
            use_type_invariant(&*self);
        }
        res
    }

    /// The number of registered agents.
    pub fn count(&self) -> (res: usize)
        ensures
            res == self@.dom().len(),
            self@.dom().finite(),
    {
        proof {
            use_type_invariant(self);
        }
        agent_table_len(&self.agents)
    }
}

} // verus!

verus! {

// ---- Laws of the registry ----

/// Registering an adapter makes it readable under its id, with the handle
/// its definition gives; every other agent is as it was, and the count grows
/// by one unless the id was taken.
pub proof fn lemma_register_then_get(
    before: Map<Seq<char>, AgentHandleView>,
    after: Map<Seq<char>, AgentHandleView>,
    def: AdapterDefView,
    created_at: i64,
)
    requires
        before.dom().finite(),
        after == before.insert(def.id, handle_for(def, created_at)),
    ensures
        after.contains_key(def.id),
        after[def.id] == handle_for(def, created_at),
        after[def.id].id == def.id,
        forall|k: Seq<char>| k != def.id ==> after.contains_key(k) == before.contains_key(k),
        forall|k: Seq<char>| k != def.id && before.contains_key(k) ==> #[trigger] after[k] == before[k],
        after.dom().len() == if before.contains_key(def.id) {
            before.dom().len()
        } else {
            before.dom().len() + 1
        },
{
    if before.contains_key(def.id) {
        assert(after.dom() =~= before.dom());
    } else {
        assert(after.dom() =~= before.dom().insert(def.id));
    }
}

/// A removed agent is no longer found; every other agent is as it was, and
/// the count shrinks by one if the agent was registered.
pub proof fn lemma_remove_then_get(
    before: Map<Seq<char>, AgentHandleView>,
    after: Map<Seq<char>, AgentHandleView>,
    id: Seq<char>,
)
    requires
        before.dom().finite(),
        after == before.remove(id),
    ensures
        !after.contains_key(id),
        forall|k: Seq<char>| k != id ==> after.contains_key(k) == before.contains_key(k),
        forall|k: Seq<char>| k != id && before.contains_key(k) ==> #[trigger] after[k] == before[k],
        after.dom().len() == if before.contains_key(id) {
            (before.dom().len() - 1) as nat
        } else {
            before.dom().len()
        },
{
    if before.contains_key(id) {
        assert(after.dom() =~= before.dom().remove(id));
    } else {
        assert(after.dom() =~= before.dom());
    }
}

} // verus!

verus! {

/// Registering a new adapter and then removing it leaves the registry as it
/// was.
pub proof fn lemma_register_then_remove(
    before: Map<Seq<char>, AgentHandleView>,
    def: AdapterDefView,
    created_at: i64,
)
    requires
        !before.contains_key(def.id),
    ensures
        before.insert(def.id, handle_for(def, created_at)).remove(def.id) == before,
{
    assert(before.insert(def.id, handle_for(def, created_at)).remove(def.id) =~= before);
}

} // verus!

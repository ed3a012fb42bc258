//! The event bus: every change of agents and tasks is published here, and
//! the interfaces subscribe to it.

use crate::outside::{bus_channel, bus_send, bus_subscribe};
use crate::types::{AgentId, Fraction, Permit, TaskId, TaskResult};
use tokio::sync::broadcast::{Receiver, Sender};
use vstd::prelude::*;

verus! {

/// The number of events the bus keeps for a slow subscriber by default.
pub const DEFAULT_CAPACITY: usize = 1024usize;

/// Something that happened to an agent or a task.
#[derive(Debug, Clone)]
pub enum BusEvent {
    AgentOnline { agent: AgentId, model: String },
    /// `since` is in microseconds since the Unix epoch.
    AgentOffline { agent: AgentId, reason: String, since: i64 },
    AgentDegraded { agent: AgentId, reason: String },
    AgentRecovered { agent: AgentId },
    TaskSubmitted { agent: AgentId, task: TaskId, prompt_preview: String },
    TaskStarted { agent: AgentId, task: TaskId },
    TaskProgress { agent: AgentId, task: TaskId, progress: Fraction, message: String },
    TaskCompleted { agent: AgentId, task: TaskId, result: TaskResult },
    TaskFailed { agent: AgentId, task: TaskId, error: String },
    TaskCancelled { agent: AgentId, task: TaskId },
    ToolCallStart { agent: AgentId, task: TaskId, tool: String, args: serde_json::Value },
    ToolCallEnd {
        agent: AgentId,
        task: TaskId,
        tool: String,
        result_summary: String,
        status: String,
        duration_ms: u64,
    },
    ModelSwitched { agent: AgentId, from: String, to: String },
    ModelError { agent: AgentId, model: String, error: String },
    TokenConsumed { agent: AgentId, model: String, input: u64, output: u64 },
    PermissionChanged { agent: AgentId, tool: String, old_permit: Permit, new_permit: Permit },
    McpServerUp { agent: AgentId, server: String },
    McpServerDown { agent: AgentId, server: String, error: String },
}

/// A broadcast channel of [`BusEvent`]s.
pub struct EventBus {
    tx: Sender<BusEvent>,
}

impl EventBus {
    /// A bus that keeps up to `capacity` events for a slow subscriber.
    pub fn new(capacity: usize) -> (res: EventBus)
        requires
            0 < capacity <= usize::MAX / 2,
    {
        EventBus { tx: bus_channel(capacity) }
    }

    /// A receiver of every event published from now on.
    pub fn subscribe(&self) -> Receiver<BusEvent> {
        bus_subscribe(&self.tx)
    }

    /// Sends an event to every subscriber; with no subscriber it is dropped.
    pub fn publish(&self, event: BusEvent) {
        bus_send(&self.tx, event)
    }
}

impl Default for EventBus {
    /// A bus of the default capacity.
    fn default() -> (res: EventBus) {
        EventBus::new(DEFAULT_CAPACITY)
    }
}

} // verus!

//! Core types shared by every part of the shell: identifiers, connections,
//! agent and task status, permissions, tokens and messages.

use std::time::Duration;
use vstd::prelude::*;

verus! {

// ---- Identifiers ----

/// Identifier of a registered agent, such as `local/dev-agent`.
#[derive(Debug, Hash)]
pub struct AgentId(pub String);

impl Clone for AgentId {
    fn clone(&self) -> (res: Self)
        ensures
            res == *self,
    {
        AgentId(self.0.clone())
    }
}

impl AgentId {
    /// Builds an identifier from its text.
    pub fn from_str(text: &str) -> (res: AgentId)
        ensures
            res.0@ == text@,
    {
        AgentId(String::from_str(text))
    }

    /// The text of the identifier, as it is displayed.
    pub fn to_text(&self) -> (res: String)
        ensures
            res@ == self.0@,
    {
        self.0.clone()
    }

    /// Whether two identifiers name the same agent.
    pub fn same_as(&self, other: &AgentId) -> (res: bool)
        ensures
            res == (self.0@ == other.0@),
    {
        self.0 == other.0
    }
}

/// Identifier of a task: the 128 bits of a random (version 4) UUID.
#[derive(Debug, Clone, Copy, PartialEq, Eq, Structural, Hash)]
pub struct TaskId(pub u128);

impl TaskId {
    /// A fresh identifier: a random (version 4) UUID. Nothing is known of its
    /// bits beforehand.
    pub fn new() -> (res: TaskId) {
        TaskId(crate::outside::random_uuid_bits())
    }

    /// The text of the identifier, as it is displayed: the first eight
    /// characters of the hyphenated lower-case form of the UUID.
    pub fn to_text(&self) -> (res: String)
        ensures
            res@ == crate::text::prefix_chars(crate::outside::uuid_hyphenated(self.0), 8),
    {
        let full = crate::outside::uuid_text(self.0);
        crate::text::first_chars(full.as_str(), 8)
    }
}

/// Identifier of an adapter kind, such as `hermes`.
#[derive(Debug, Hash)]
pub struct AdapterId(pub String);

impl Clone for AdapterId {
    fn clone(&self) -> (res: Self)
        ensures
            res == *self,
    {
        AdapterId(self.0.clone())
    }
}

impl AdapterId {
    /// The text of the identifier, as it is displayed.
    pub fn to_text(&self) -> (res: String)
        ensures
            res@ == self.0@,
    {
        self.0.clone()
    }
}

// ---- Progress ----

/// A fraction of work done, in `[0, 1]`, carried as the bit pattern of an
/// IEEE-754 single-precision number. The library stores and compares the bits
/// and never computes with them.
#[derive(Debug, Clone, Copy, PartialEq, Eq, Structural)]
pub struct Fraction(pub u32);

/// Bit pattern of `0.0f32`.
pub const FRACTION_ZERO_BITS: u32 = 0u32;

/// Bit pattern of `1.0f32`.
pub const FRACTION_ONE_BITS: u32 = 0x3F80_0000u32;

impl Fraction {
    /// No work done.
    pub fn zero() -> (res: Fraction)
        ensures
            res.0 == FRACTION_ZERO_BITS,
    {
        Fraction(FRACTION_ZERO_BITS)
    }

    /// All work done.
    pub fn one() -> (res: Fraction)
        ensures
            res.0 == FRACTION_ONE_BITS,
    {
        Fraction(FRACTION_ONE_BITS)
    }
}

// ---- Connection ----

/// How the shell reaches an agent.
#[derive(Debug)]
pub enum ConnectionType {
    Stdio { command: String, args: Vec<String>, env: Vec<(String, String)> },
    Ssh { host: String, port: u16, user: String, key_path: Option<String> },
    UnixSocket { path: String },
    Tcp { host: String, port: u16, tls: bool },
}

/// The mathematical value of a [`ConnectionType`]: its vectors as sequences.
pub enum ConnectionTypeView {
    Stdio { command: Seq<char>, args: Seq<Seq<char>>, env: Seq<(Seq<char>, Seq<char>)> },
    Ssh { host: Seq<char>, port: u16, user: Seq<char>, key_path: Option<Seq<char>> },
    UnixSocket { path: Seq<char> },
    Tcp { host: Seq<char>, port: u16, tls: bool },
}

impl View for ConnectionType {
    type V = ConnectionTypeView;

    open spec fn view(&self) -> ConnectionTypeView {
        match self {
            ConnectionType::Stdio { command, args, env } => ConnectionTypeView::Stdio {
                command: command@,
                args: args.deep_view(),
                env: env.deep_view(),
            },
            ConnectionType::Ssh { host, port, user, key_path } => ConnectionTypeView::Ssh {
                host: host@,
                port: *port,
                user: user@,
                key_path: key_path.deep_view(),
            },
            ConnectionType::UnixSocket { path } => ConnectionTypeView::UnixSocket { path: path@ },
            ConnectionType::Tcp { host, port, tls } => ConnectionTypeView::Tcp {
                host: host@,
                port: *port,
                tls: *tls,
            },
        }
    }
}

/// Copies a list of strings, element by element.
pub fn clone_strings(v: &Vec<String>) -> (res: Vec<String>)
    ensures
        res@ == v@,
{
    let mut res: Vec<String> = Vec::new();
    let mut i: usize = 0;
    while i < v.len()
        invariant
            i <= v.len(),
            res@ == v@.take(i as int),
        decreases v.len() - i,
    {
        res.push(v[i].clone());
        proof {
            assert(v@.take(i + 1) =~= v@.take(i as int).push(v@[i as int]));
        }
        i = i + 1;
    }
    assert(v@.take(v.len() as int) =~= v@);
    res
}

/// Copies a list of string pairs, element by element.
pub fn clone_string_pairs(v: &Vec<(String, String)>) -> (res: Vec<(String, String)>)
    ensures
        res@ == v@,
{
    let mut res: Vec<(String, String)> = Vec::new();
    let mut i: usize = 0;
    while i < v.len()
        invariant
            i <= v.len(),
            res@ == v@.take(i as int),
        decreases v.len() - i,
    {
        let pair = (v[i].0.clone(), v[i].1.clone());
        res.push(pair);
        proof {
            assert(v@.take(i + 1) =~= v@.take(i as int).push(v@[i as int]));
        }
        i = i + 1;
    }
    assert(v@.take(v.len() as int) =~= v@);
    res
}

impl Clone for ConnectionType {
    fn clone(&self) -> (res: Self)
        ensures
            res@ == self@,
    {
        match self {
            ConnectionType::Stdio { command, args, env } => ConnectionType::Stdio {
                command: command.clone(),
                args: clone_strings(args),
                env: clone_string_pairs(env),
            },
            ConnectionType::Ssh { host, port, user, key_path } => ConnectionType::Ssh {
                host: host.clone(),
                port: *port,
                user: user.clone(),
                key_path: key_path.clone(),
            },
            ConnectionType::UnixSocket { path } => ConnectionType::UnixSocket { path: path.clone() },
            ConnectionType::Tcp { host, port, tls } => ConnectionType::Tcp {
                host: host.clone(),
                port: *port,
                tls: *tls,
            },
        }
    }
}

} // verus!

verus! {

// ---- Agent status ----

/// What an agent is doing right now.
#[derive(Debug)]
pub enum AgentStatus {
    Online { uptime: Duration, model: String },
    Busy { current_task: TaskId, progress: Fraction, model: String },
    Degraded { model: String, reason: String },
    /// Offline since the given instant, in microseconds since the Unix epoch.
    Offline { since: i64 },
    Connecting,
}

impl Clone for AgentStatus {
    fn clone(&self) -> (res: Self)
        ensures
            res == *self,
    {
        match self {
            AgentStatus::Online { uptime, model } => AgentStatus::Online {
                uptime: *uptime,
                model: model.clone(),
            },
            AgentStatus::Busy { current_task, progress, model } => AgentStatus::Busy {
                current_task: *current_task,
                progress: *progress,
                model: model.clone(),
            },
            AgentStatus::Degraded { model, reason } => AgentStatus::Degraded {
                model: model.clone(),
                reason: reason.clone(),
            },
            AgentStatus::Offline { since } => AgentStatus::Offline { since: *since },
            AgentStatus::Connecting => AgentStatus::Connecting,
        }
    }
}

impl AgentStatus {
    /// An agent that is online or busy can take work.
    pub open spec fn spec_is_available(self) -> bool {
        self is Online || self is Busy
    }

    /// Whether the agent can take work: it is online or busy.
    pub fn is_available(&self) -> (res: bool)
        ensures
            res == self.spec_is_available(),
    {
        match self {
            AgentStatus::Online { .. } => true,
            AgentStatus::Busy { .. } => true,
            _ => false,
        }
    }

    /// The lower-case word the command line prints for this status.
    pub open spec fn spec_label(self) -> Seq<char> {
        match self {
            AgentStatus::Online { .. } => "online"@,
            AgentStatus::Busy { .. } => "busy"@,
            AgentStatus::Degraded { .. } => "degraded"@,
            AgentStatus::Offline { .. } => "offline"@,
            AgentStatus::Connecting => "connecting"@,
        }
    }

    /// The lower-case word the command line prints for this status.
    pub fn label(&self) -> (res: String)
        ensures
            res@ == self.spec_label(),
    {
        match self {
            AgentStatus::Online { .. } => String::from_str("online"),
            AgentStatus::Busy { .. } => String::from_str("busy"),
            AgentStatus::Degraded { .. } => String::from_str("degraded"),
            AgentStatus::Offline { .. } => String::from_str("offline"),
            AgentStatus::Connecting => String::from_str("connecting"),
        }
    }

    /// The model the command line prints for this status: the running model of
    /// an online, busy or degraded agent, else `-`.
    pub fn model_label(&self) -> (res: String)
        ensures
            res@ == (match *self {
                AgentStatus::Online { model, .. } => model@,
                AgentStatus::Busy { model, .. } => model@,
                AgentStatus::Degraded { model, .. } => model@,
                _ => "-"@,
            }),
    {
        match self {
            AgentStatus::Online { model, .. } => model.clone(),
            AgentStatus::Busy { model, .. } => model.clone(),
            AgentStatus::Degraded { model, .. } => model.clone(),
            _ => String::from_str("-"),
        }
    }
}

// ---- Model ----

/// A model an agent can run.
#[derive(Debug)]
pub struct ModelInfo {
    pub id: String,
    pub provider: String,
    pub context_window: Option<usize>,
    pub max_output_tokens: Option<usize>,
}

// ---- Task ----

/// A chat message: a role (`user`, `assistant` or `system`) and its text.
#[derive(Debug)]
pub struct Message {
    pub role: String,
    pub content: String,
}

/// The mathematical value of a [`Message`].
pub struct MessageView {
    pub role: Seq<char>,
    pub content: Seq<char>,
}

impl View for Message {
    type V = MessageView;

    open spec fn view(&self) -> MessageView {
        MessageView { role: self.role@, content: self.content@ }
    }
}

impl DeepView for Message {
    type V = MessageView;

    open spec fn deep_view(&self) -> MessageView {
        self@
    }
}

impl Clone for Message {
    fn clone(&self) -> (res: Self)
        ensures
            res == *self,
    {
        Message { role: self.role.clone(), content: self.content.clone() }
    }
}

impl Message {
    /// A message from the user.
    pub fn user(content: String) -> (res: Message)
        ensures
            res.role@ == "user"@,
            res.content == content,
    {
        Message { role: String::from_str("user"), content }
    }

    /// A message from the assistant.
    pub fn assistant(content: String) -> (res: Message)
        ensures
            res.role@ == "assistant"@,
            res.content == content,
    {
        Message { role: String::from_str("assistant"), content }
    }
}

/// Copies a list of messages, element by element.
pub fn clone_messages(v: &Vec<Message>) -> (res: Vec<Message>)
    ensures
        res@ == v@,
{
    let mut res: Vec<Message> = Vec::new();
    let mut i: usize = 0;
    while i < v.len()
        invariant
            i <= v.len(),
            res@ == v@.take(i as int),
        decreases v.len() - i,
    {
        res.push(v[i].clone());
        proof {
            assert(v@.take(i + 1) =~= v@.take(i as int).push(v@[i as int]));
        }
        i = i + 1;
    }
    assert(v@.take(v.len() as int) =~= v@);
    res
}

/// How urgent a task is; `Normal` by default.
#[derive(Debug, Clone, Copy, PartialEq, Eq, Structural, Hash)]
pub enum Priority {
    Low,
    Normal,
    High,
    Critical,
}

impl Priority {
    /// The rank of the priority: 0 for `Low` up to 3 for `Critical`.
    pub open spec fn spec_rank(self) -> nat {
        match self {
            Priority::Low => 0,
            Priority::Normal => 1,
            Priority::High => 2,
            Priority::Critical => 3,
        }
    }

    /// The rank of the priority: 0 for `Low` up to 3 for `Critical`.
    pub fn rank(&self) -> (res: u8)
        ensures
            res as nat == self.spec_rank(),
    {
        match self {
            Priority::Low => 0,
            Priority::Normal => 1,
            Priority::High => 2,
            Priority::Critical => 3,
        }
    }

    /// The priority named by a command-line word: `low`, `high`, `critical`;
    /// any other word gives `Normal`.
    pub fn from_flag(word: &str) -> (res: Priority)
        ensures
            res == (if word@ == "low"@ {
                Priority::Low
            } else if word@ == "high"@ {
                Priority::High
            } else if word@ == "critical"@ {
                Priority::Critical
            } else {
                Priority::Normal
            }),
    {
        if crate::text::str_eq(word, "low") {
            Priority::Low
        } else if crate::text::str_eq(word, "high") {
            Priority::High
        } else if crate::text::str_eq(word, "critical") {
            Priority::Critical
        } else {
            Priority::Normal
        }
    }
}

impl Default for Priority {
    fn default() -> (res: Priority)
        ensures
            res == Priority::Normal,
    {
        Priority::Normal
    }
}

/// A request to run a prompt on an agent.
#[derive(Debug)]
pub struct TaskRequest {
    pub prompt: String,
    pub context: Option<Vec<Message>>,
    pub model: Option<String>,
    pub timeout: Option<Duration>,
    pub priority: Priority,
}

/// The mathematical value of a [`TaskRequest`].
pub struct TaskRequestView {
    pub prompt: Seq<char>,
    pub context: Option<Seq<MessageView>>,
    pub model: Option<Seq<char>>,
    pub timeout: Option<Duration>,
    pub priority: Priority,
}

impl View for TaskRequest {
    type V = TaskRequestView;

    open spec fn view(&self) -> TaskRequestView {
        TaskRequestView {
            prompt: self.prompt@,
            context: self.context.deep_view(),
            model: self.model.deep_view(),
            timeout: self.timeout,
            priority: self.priority,
        }
    }
}

impl Clone for TaskRequest {
    fn clone(&self) -> (res: Self)
        ensures
            res@ == self@,
    {
        let context = match &self.context {
            Some(c) => Some(clone_messages(c)),
            None => None,
        };
        TaskRequest {
            prompt: self.prompt.clone(),
            context,
            model: self.model.clone(),
            timeout: self.timeout,
            priority: self.priority,
        }
    }
}

/// Tokens spent by one request.
#[derive(Debug, Clone, Copy, PartialEq, Eq, Structural)]
pub struct TokenDelta {
    pub input: u64,
    pub output: u64,
}

/// How a tool call ended.
#[derive(Debug)]
pub enum ToolCallStatus {
    Success,
    Error(String),
    Timeout,
}

impl Clone for ToolCallStatus {
    fn clone(&self) -> (res: Self)
        ensures
            res == *self,
    {
        match self {
            ToolCallStatus::Success => ToolCallStatus::Success,
            ToolCallStatus::Error(e) => ToolCallStatus::Error(e.clone()),
            ToolCallStatus::Timeout => ToolCallStatus::Timeout,
        }
    }
}

/// One tool call an agent made while working on a task.
#[derive(Debug)]
pub struct ToolCallRecord {
    pub tool_name: String,
    pub arguments: serde_json::Value,
    pub result_summary: String,
    pub status: ToolCallStatus,
    pub duration_ms: u64,
}

impl Clone for ToolCallRecord {
    fn clone(&self) -> (res: Self)
        ensures
            res == *self,
    {
        ToolCallRecord {
            tool_name: self.tool_name.clone(),
            arguments: self.arguments.clone(),
            result_summary: self.result_summary.clone(),
            status: self.status.clone(),
            duration_ms: self.duration_ms,
        }
    }
}

/// The outcome of a finished task.
#[derive(Debug)]
pub struct TaskResult {
    pub content: String,
    pub tokens_used: Option<TokenDelta>,
    pub tool_calls: Vec<ToolCallRecord>,
    pub duration: Duration,
}

/// The mathematical value of a [`TaskResult`].
pub struct TaskResultView {
    pub content: Seq<char>,
    pub tokens_used: Option<TokenDelta>,
    pub tool_calls: Seq<ToolCallRecord>,
    pub duration: Duration,
}

impl View for TaskResult {
    type V = TaskResultView;

    open spec fn view(&self) -> TaskResultView {
        TaskResultView {
            content: self.content@,
            tokens_used: self.tokens_used,
            tool_calls: self.tool_calls@,
            duration: self.duration,
        }
    }
}

impl Clone for TaskResult {
    fn clone(&self) -> (res: Self)
        ensures
            res@ == self@,
    {
        let mut calls: Vec<ToolCallRecord> = Vec::new();
        let mut i: usize = 0;
        while i < self.tool_calls.len()
            invariant
                i <= self.tool_calls.len(),
                calls@ == self.tool_calls@.take(i as int),
            decreases self.tool_calls.len() - i,
        {
            calls.push(self.tool_calls[i].clone());
            proof {
                assert(self.tool_calls@.take(i + 1) =~= self.tool_calls@.take(i as int).push(
                    self.tool_calls@[i as int],
                ));
            }
            i = i + 1;
        }
        assert(self.tool_calls@.take(self.tool_calls.len() as int) =~= self.tool_calls@);
        TaskResult {
            content: self.content.clone(),
            tokens_used: self.tokens_used,
            tool_calls: calls,
            duration: self.duration,
        }
    }
}

/// Where a task is in its life.
#[derive(Debug)]
pub enum TaskStatus {
    Queued,
    Running { progress: Fraction },
    Done { result: TaskResult },
    Failed { error: String },
    Cancelled,
}

/// The mathematical value of a [`TaskStatus`].
pub enum TaskStatusView {
    Queued,
    Running { progress: Fraction },
    Done { result: TaskResultView },
    Failed { error: Seq<char> },
    Cancelled,
}

impl View for TaskStatus {
    type V = TaskStatusView;

    open spec fn view(&self) -> TaskStatusView {
        match self {
            TaskStatus::Queued => TaskStatusView::Queued,
            TaskStatus::Running { progress } => TaskStatusView::Running { progress: *progress },
            TaskStatus::Done { result } => TaskStatusView::Done { result: result@ },
            TaskStatus::Failed { error } => TaskStatusView::Failed { error: error@ },
            TaskStatus::Cancelled => TaskStatusView::Cancelled,
        }
    }
}

impl Clone for TaskStatus {
    fn clone(&self) -> (res: Self)
        ensures
            res@ == self@,
    {
        match self {
            TaskStatus::Queued => TaskStatus::Queued,
            TaskStatus::Running { progress } => TaskStatus::Running { progress: *progress },
            TaskStatus::Done { result } => TaskStatus::Done { result: result.clone() },
            TaskStatus::Failed { error } => TaskStatus::Failed { error: error.clone() },
            TaskStatus::Cancelled => TaskStatus::Cancelled,
        }
    }
}

impl TaskStatusView {
    /// The variant of a status, numbered in declaration order; two statuses
    /// are of one kind when their variants are the same.
    pub open spec fn kind(self) -> nat {
        match self {
            TaskStatusView::Queued => 0,
            TaskStatusView::Running { .. } => 1,
            TaskStatusView::Done { .. } => 2,
            TaskStatusView::Failed { .. } => 3,
            TaskStatusView::Cancelled => 4,
        }
    }
}

/// Whether two statuses are of the same variant (queued, running, done,
/// failed or cancelled), whatever they carry.
pub open spec fn same_variant(a: TaskStatusView, b: TaskStatusView) -> bool {
    ||| a is Queued && b is Queued
    ||| a is Running && b is Running
    ||| a is Done && b is Done
    ||| a is Failed && b is Failed
    ||| a is Cancelled && b is Cancelled
}

/// Two statuses have the same kind exactly when they are of the same variant:
/// the kind tells the five variants apart (a done task is never counted or
/// listed as a failed one), and ignores what a status carries.
pub proof fn lemma_kind_tells_variants(a: TaskStatusView, b: TaskStatusView)
    ensures
        a.kind() == b.kind() <==> same_variant(a, b),
{
}

impl TaskStatus {
    /// The variant of this status, numbered in declaration order.
    pub fn kind(&self) -> (res: u8)
        ensures
            res as nat == self@.kind(),
    {
        match self {
            TaskStatus::Queued => 0,
            TaskStatus::Running { .. } => 1,
            TaskStatus::Done { .. } => 2,
            TaskStatus::Failed { .. } => 3,
            TaskStatus::Cancelled => 4,
        }
    }
}

/// What the scheduler knows of one task.
#[derive(Debug)]
pub struct TaskInfo {
    pub id: TaskId,
    pub agent_id: AgentId,
    pub prompt_preview: String,
    pub status: TaskStatus,
    pub model: String,
    pub progress: Fraction,
    pub priority: Priority,
    /// Microseconds since the Unix epoch.
    pub created_at: i64,
    /// Microseconds since the Unix epoch.
    pub completed_at: Option<i64>,
}

/// The mathematical value of a [`TaskInfo`].
pub struct TaskInfoView {
    pub id: TaskId,
    pub agent_id: Seq<char>,
    pub prompt_preview: Seq<char>,
    pub status: TaskStatusView,
    pub model: Seq<char>,
    pub progress: Fraction,
    pub priority: Priority,
    pub created_at: i64,
    pub completed_at: Option<i64>,
}

impl View for TaskInfo {
    type V = TaskInfoView;

    open spec fn view(&self) -> TaskInfoView {
        TaskInfoView {
            id: self.id,
            agent_id: self.agent_id.0@,
            prompt_preview: self.prompt_preview@,
            status: self.status@,
            model: self.model@,
            progress: self.progress,
            priority: self.priority,
            created_at: self.created_at,
            completed_at: self.completed_at,
        }
    }
}

impl Clone for TaskInfo {
    fn clone(&self) -> (res: Self)
        ensures
            res@ == self@,
    {
        TaskInfo {
            id: self.id,
            agent_id: self.agent_id.clone(),
            prompt_preview: self.prompt_preview.clone(),
            status: self.status.clone(),
            model: self.model.clone(),
            progress: self.progress,
            priority: self.priority,
            created_at: self.created_at,
            completed_at: self.completed_at,
        }
    }
}

// ---- Permissions ----

/// Whether an agent may use a tool.
#[derive(Debug, Clone, Copy, PartialEq, Eq, Structural)]
pub enum Permit {
    Allow,
    Deny,
    Ask,
}

impl Permit {
    /// The name of the permit, as it is displayed.
    pub open spec fn spec_name(self) -> Seq<char> {
        match self {
            Permit::Allow => "Allow"@,
            Permit::Deny => "Deny"@,
            Permit::Ask => "Ask"@,
        }
    }

    /// The name of the permit, as it is displayed.
    pub fn name(&self) -> (res: String)
        ensures
            res@ == self.spec_name(),
    {
        match self {
            Permit::Allow => String::from_str("Allow"),
            Permit::Deny => String::from_str("Deny"),
            Permit::Ask => String::from_str("Ask"),
        }
    }
}

/// The permit of one tool.
#[derive(Debug)]
pub struct PermissionEntry {
    pub tool_name: String,
    pub permit: Permit,
    pub description: String,
}

/// The permits of all tools of an agent, and the permit of tools not listed.
#[derive(Debug)]
pub struct PermissionMatrix {
    pub entries: Vec<PermissionEntry>,
    pub default_permit: Permit,
}

// ---- Skills, MCP, tokens ----

/// A skill an agent has loaded or knows of.
#[derive(Debug)]
pub struct SkillInfo {
    pub name: String,
    pub description: String,
    pub loaded: bool,
    pub call_count: u64,
    pub source_file: Option<String>,
}

/// Whether an MCP server is reachable.
#[derive(Debug)]
pub enum McpConnectionStatus {
    Connected,
    Disconnected,
    Error(String),
}

/// An MCP server an agent is connected to.
#[derive(Debug)]
pub struct McpServerInfo {
    pub name: String,
    pub status: McpConnectionStatus,
    pub tools_count: usize,
    pub resources_count: usize,
    /// Microseconds since the Unix epoch.
    pub last_connected: Option<i64>,
}

/// Token counts of one model.
#[derive(Debug, Clone, Copy, PartialEq, Eq, Structural)]
pub struct ModelTokenStats {
    pub input: u64,
    pub output: u64,
    pub requests: u64,
}

/// Token counts of an agent, in total and per model (no cost is tracked).
#[derive(Debug)]
pub struct TokenStats {
    pub total_input: u64,
    pub total_output: u64,
    /// One entry per model name.
    pub by_model: Vec<(String, ModelTokenStats)>,
}

/// A span of time, in microseconds since the Unix epoch.
#[derive(Debug, Clone, Copy, PartialEq, Eq, Structural)]
pub struct TimeWindow {
    pub from: i64,
    pub to: i64,
}

/// The spans of time the token dashboard offers.
#[derive(Debug, Clone, Copy, PartialEq, Eq, Structural)]
pub enum TimeWindowPreset {
    Today,
    ThisMonth,
    Total,
}

// ---- Filters and activity ----

/// Which tasks a listing shows: those of one agent (or all), and a page of
/// them (`limit` 100 and `offset` 0 when absent).
#[derive(Debug)]
pub struct TaskFilter {
    pub agent_id: Option<AgentId>,
    pub status: Option<TaskStatus>,
    pub limit: Option<usize>,
    pub offset: Option<usize>,
}

/// One tool call in the activity log.
#[derive(Debug)]
pub struct ActivityEntry {
    pub task_id: TaskId,
    pub agent_id: AgentId,
    pub tool_name: String,
    pub arguments: serde_json::Value,
    pub result_summary: String,
    pub status: String,
    pub duration_ms: u64,
    /// Microseconds since the Unix epoch.
    pub timestamp: i64,
}

/// Which activity entries a listing shows.
#[derive(Debug)]
pub struct ActivityFilter {
    pub agent_id: Option<AgentId>,
    pub tool_name: Option<String>,
    pub limit: Option<usize>,
}

} // verus!

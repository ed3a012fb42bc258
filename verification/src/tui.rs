//! The state of the terminal interface: its tabs, the entries each panel
//! shows, the selection, and how a key press changes them. Drawing is left to
//! the program around the library.

use crate::outside::{decimal, now_micros, u64_text};
use crate::text::{starts_with, str_eq};
use crate::types::{AgentId, AgentStatus, Fraction, Permit, TaskId, TaskStatus};
use vstd::prelude::*;

verus! {

/// The tabs of the right-hand panel.
#[derive(Debug, Clone, Copy, PartialEq, Eq, Structural)]
pub enum Tab {
    Tasks,
    Activity,
    Models,
    Permissions,
    Skills,
    Mcp,
    Tokens,
    FanOut,
    Band,
}

/// The tabs in the order the tab bar shows them.
pub open spec fn tab_order() -> Seq<Tab> {
    seq![
        Tab::Tasks,
        Tab::Activity,
        Tab::Models,
        Tab::Permissions,
        Tab::Skills,
        Tab::Mcp,
        Tab::Tokens,
        Tab::FanOut,
        Tab::Band,
    ]
}

/// The number of tabs.
pub const TAB_COUNT: usize = 9usize;

impl Tab {
    /// The position of the tab in [`tab_order`].
    pub open spec fn index(self) -> nat {
        match self {
            Tab::Tasks => 0,
            Tab::Activity => 1,
            Tab::Models => 2,
            Tab::Permissions => 3,
            Tab::Skills => 4,
            Tab::Mcp => 5,
            Tab::Tokens => 6,
            Tab::FanOut => 7,
            Tab::Band => 8,
        }
    }

    /// Every tab, in the order the tab bar shows them.
    pub fn all() -> (res: &'static [Tab])
        ensures
            res@ == tab_order(),
    {
        let res: &'static [Tab] = &[
            Tab::Tasks,
            Tab::Activity,
            Tab::Models,
            Tab::Permissions,
            Tab::Skills,
            Tab::Mcp,
            Tab::Tokens,
            Tab::FanOut,
            Tab::Band,
        ];
        assert(res@ =~= tab_order());
        res
    }

    /// The label of the tab in the tab bar.
    pub open spec fn spec_label(self) -> Seq<char> {
        match self {
            Tab::Tasks => "Tasks"@,
            Tab::Activity => "Activity"@,
            Tab::Models => "Models"@,
            Tab::Permissions => "Perms"@,
            Tab::Skills => "Skills"@,
            Tab::Mcp => "MCP"@,
            Tab::Tokens => "Tokens"@,
            Tab::FanOut => "Fan-out"@,
            Tab::Band => "Band"@,
        }
    }

    /// The label of the tab in the tab bar.
    pub fn label(&self) -> (res: &'static str)
        ensures
            res@ == self.spec_label(),
    {
        match self {
            Tab::Tasks => "Tasks",
            Tab::Activity => "Activity",
            Tab::Models => "Models",
            Tab::Permissions => "Perms",
            Tab::Skills => "Skills",
            Tab::Mcp => "MCP",
            Tab::Tokens => "Tokens",
            Tab::FanOut => "Fan-out",
            Tab::Band => "Band",
        }
    }

    /// The position of the tab in [`tab_order`].
    pub fn position(&self) -> (res: usize)
        ensures
            res as nat == self.index(),
            tab_order()[res as int] == *self,
    {
        match self {
            Tab::Tasks => 0,
            Tab::Activity => 1,
            Tab::Models => 2,
            Tab::Permissions => 3,
            Tab::Skills => 4,
            Tab::Mcp => 5,
            Tab::Tokens => 6,
            Tab::FanOut => 7,
            Tab::Band => 8,
        }
    }
}

/// The tab after `t`, wrapping around to the first.
pub open spec fn tab_after(t: Tab) -> Tab {
    tab_order()[((t.index() + 1) % 9) as int]
}

/// The tab before `t`, wrapping around to the last.
pub open spec fn tab_before(t: Tab) -> Tab {
    if t.index() == 0 {
        tab_order()[8]
    } else {
        tab_order()[t.index() - 1]
    }
}

/// The span of time the token panel shows.
#[derive(Debug, Clone, Copy, PartialEq, Eq, Structural)]
pub enum TokenWindow {
    Today,
    Month,
    Total,
}

impl TokenWindow {
    /// The label of the window.
    pub open spec fn spec_label(self) -> Seq<char> {
        match self {
            TokenWindow::Today => "Today"@,
            TokenWindow::Month => "This Month"@,
            TokenWindow::Total => "Total"@,
        }
    }

    /// The label of the window.
    pub fn label(&self) -> (res: &'static str)
        ensures
            res@ == self.spec_label(),
    {
        match self {
            TokenWindow::Today => "Today",
            TokenWindow::Month => "This Month",
            TokenWindow::Total => "Total",
        }
    }
}

} // verus!

verus! {

// ---- Panel entries ----

/// An agent in the left-hand panel.
#[derive(Debug)]
pub struct AgentEntry {
    pub id: AgentId,
    pub alias: String,
    pub status: AgentStatus,
    pub model: String,
    pub current_task: Option<String>,
    pub progress: Option<Fraction>,
    pub tokens_input: u64,
    pub tokens_output: u64,
    pub uptime: String,
}

/// A task in the Tasks tab.
#[derive(Debug)]
pub struct TaskEntry {
    pub id: TaskId,
    pub agent: AgentId,
    pub prompt: String,
    pub status: TaskStatus,
    pub progress: Option<Fraction>,
    pub duration: Option<String>,
}

/// A tool call in the Activity tab.
#[derive(Debug)]
pub struct ActivityEntry {
    /// Microseconds since the Unix epoch.
    pub timestamp: i64,
    pub agent: AgentId,
    pub task_id: Option<TaskId>,
    pub tool: String,
    pub args: String,
    pub result: String,
    pub duration_ms: u64,
    pub success: bool,
}

/// A model in the Models tab.
#[derive(Debug)]
pub struct ModelEntry {
    pub id: String,
    pub provider: String,
    pub context_window: Option<usize>,
    pub is_current: bool,
}

/// A tool permit in the Permissions tab.
#[derive(Debug)]
pub struct PermissionEntry {
    pub tool: String,
    pub permit: Permit,
    pub description: String,
    pub last_changed: Option<String>,
}

/// A skill in the Skills tab.
#[derive(Debug)]
pub struct SkillEntry {
    pub name: String,
    pub description: String,
    pub loaded: bool,
    pub call_count: u64,
}

/// An MCP server in the MCP tab.
#[derive(Debug)]
pub struct McpServerEntry {
    pub name: String,
    pub status: String,
    pub tools: usize,
}

/// The token totals the Tokens tab shows.
#[derive(Debug)]
pub struct TokenSummary {
    pub total_input: u64,
    pub total_output: u64,
    pub by_model: Vec<ModelTokenEntry>,
    pub window: String,
}

/// The tokens of one model.
#[derive(Debug)]
pub struct ModelTokenEntry {
    pub model: String,
    pub input: u64,
    pub output: u64,
}

/// A band in the Band tab.
#[derive(Debug)]
pub struct BandEntry {
    pub name: String,
    pub isolation: String,
    pub root: String,
    pub status: String,
}

/// A prompt sent to several agents at once.
#[derive(Debug)]
pub struct FanOutGroup {
    pub prompt: String,
    pub targets: Vec<FanOutTarget>,
    pub strategy: FanOutStrategy,
}

/// One agent of a fan-out.
#[derive(Debug)]
pub struct FanOutTarget {
    pub agent: AgentId,
    pub online: bool,
    pub selected: bool,
    pub result: Option<FanOutResult>,
}

/// What one agent of a fan-out answered.
#[derive(Debug)]
pub struct FanOutResult {
    pub status: String,
    pub summary: String,
}

/// How a fan-out runs its agents.
#[derive(Debug, Clone, Copy, PartialEq, Eq, Structural)]
pub enum FanOutStrategy {
    Parallel,
    Sequential,
    Race,
    Vote,
}

impl FanOutStrategy {
    /// The name of the strategy, as the Fan-out tab shows it.
    pub open spec fn spec_name(self) -> Seq<char> {
        match self {
            FanOutStrategy::Parallel => "Parallel"@,
            FanOutStrategy::Sequential => "Sequential"@,
            FanOutStrategy::Race => "Race"@,
            FanOutStrategy::Vote => "Vote"@,
        }
    }

    /// The name of the strategy, as the Fan-out tab shows it.
    pub fn name(&self) -> (res: &'static str)
        ensures
            res@ == self.spec_name(),
    {
        match self {
            FanOutStrategy::Parallel => "Parallel",
            FanOutStrategy::Sequential => "Sequential",
            FanOutStrategy::Race => "Race",
            FanOutStrategy::Vote => "Vote",
        }
    }
}

// ---- Keys ----

/// A key press, as far as the interface tells keys apart.
#[derive(Debug, Clone, Copy, PartialEq, Eq, Structural)]
pub enum Key {
    Char(char),
    Esc,
    Tab,
    BackTab,
    Down,
    Up,
    Other,
}

/// The part of the interface state that a key press changes.
pub struct Navigation {
    pub selected_tab: Tab,
    pub task_selected: usize,
    pub activity_selected: usize,
    pub should_quit: bool,
}

/// The last index of a list of `len` items, 0 for an empty list.
pub open spec fn last_index(len: nat) -> nat {
    if len == 0 {
        0
    } else {
        (len - 1) as nat
    }
}

/// The tab a digit key selects: `1` to `9` select the tabs in order.
pub open spec fn tab_for_digit(c: char) -> Option<Tab> {
    if '1' <= c && c <= '9' {
        Some(tab_order()[(c as int) - ('1' as int)])
    } else {
        None
    }
}

/// The state after a key press: `q` and `Esc` quit; `Tab` and back-tab move
/// along the tabs; `j`/down and `k`/up move the selection in the Tasks or
/// Activity tab, within the list; `1` to `9` select a tab; other keys do
/// nothing.
pub open spec fn after_key(nav: Navigation, tasks: nat, activity: nat, key: Key) -> Navigation {
    match key {
        Key::Char('q') | Key::Esc => Navigation { should_quit: true, ..nav },
        Key::Tab => Navigation { selected_tab: tab_after(nav.selected_tab), ..nav },
        Key::BackTab => Navigation { selected_tab: tab_before(nav.selected_tab), ..nav },
        Key::Char('j') | Key::Down => {
            if nav.selected_tab == Tab::Tasks {
                let next = nav.task_selected + 1;
                Navigation {
                    task_selected: (if next < last_index(tasks) {
                        next
                    } else {
                        last_index(tasks) as int
                    }) as usize,
                    ..nav
                }
            } else if nav.selected_tab == Tab::Activity {
                let next = nav.activity_selected + 1;
                Navigation {
                    activity_selected: (if next < last_index(activity) {
                        next
                    } else {
                        last_index(activity) as int
                    }) as usize,
                    ..nav
                }
            } else {
                nav
            }
        },
        Key::Char('k') | Key::Up => {
            if nav.selected_tab == Tab::Tasks {
                Navigation {
                    task_selected: (if nav.task_selected == 0 {
                        0
                    } else {
                        nav.task_selected - 1
                    }) as usize,
                    ..nav
                }
            } else if nav.selected_tab == Tab::Activity {
                Navigation {
                    activity_selected: (if nav.activity_selected == 0 {
                        0
                    } else {
                        nav.activity_selected - 1
                    }) as usize,
                    ..nav
                }
            } else {
                nav
            }
        },
        Key::Char(c) => match tab_for_digit(c) {
            Some(t) => Navigation { selected_tab: t, ..nav },
            None => nav,
        },
        _ => nav,
    }
}

// ---- The application ----

/// Everything the terminal interface shows and where the user is in it.
pub struct App {
    pub agents: Vec<AgentEntry>,
    pub tasks: Vec<TaskEntry>,
    pub activity_log: Vec<ActivityEntry>,
    pub models: Vec<ModelEntry>,
    pub permissions: Vec<PermissionEntry>,
    pub skills: Vec<SkillEntry>,
    pub mcp_servers: Vec<McpServerEntry>,
    pub token_summary: Option<TokenSummary>,
    pub bands: Vec<BandEntry>,
    pub fan_out: Option<FanOutGroup>,
    pub selected_tab: Tab,
    pub selected_model_idx: usize,
    pub selected_perm_idx: usize,
    pub token_window: TokenWindow,
    pub agent_selected: usize,
    pub task_selected: usize,
    pub activity_selected: usize,
    pub command_input: String,
    pub status_message: String,
    pub should_quit: bool,
    pub task_scroll: usize,
    pub activity_scroll: usize,
}

/// The agent after `i` in a list of `len` agents, wrapping around.
pub open spec fn agent_after(i: nat, len: nat) -> nat {
    if len == 0 {
        i
    } else {
        (i + 1) % len
    }
}

/// The agent before `i` in a list of `len` agents, wrapping around.
pub open spec fn agent_before(i: nat, len: nat) -> nat {
    if len == 0 {
        i
    } else if i == 0 {
        (len - 1) as nat
    } else {
        (i - 1) as nat
    }
}

impl App {
    /// The part of the state that key presses change.
    pub open spec fn navigation(self) -> Navigation {
        Navigation {
            selected_tab: self.selected_tab,
            task_selected: self.task_selected,
            activity_selected: self.activity_selected,
            should_quit: self.should_quit,
        }
    }

    /// The state with its navigation replaced.
    pub open spec fn with_navigation(self, nav: Navigation) -> App {
        App {
            selected_tab: nav.selected_tab,
            task_selected: nav.task_selected,
            activity_selected: nav.activity_selected,
            should_quit: nav.should_quit,
            ..self
        }
    }

    /// Selects the next agent, wrapping around; with no agents nothing changes.
    pub fn select_next_agent(&mut self)
        requires
            old(self).agent_selected < usize::MAX,
        ensures
            *final(self) == (App {
                agent_selected: agent_after(
                    old(self).agent_selected as nat,
                    old(self).agents@.len(),
                ) as usize,
                ..*old(self)
            }),
    {
        if self.agents.len() > 0 {
            self.agent_selected = (self.agent_selected + 1) % self.agents.len();
        }
    }

    /// Selects the previous agent, wrapping around; with no agents nothing
    /// changes.
    pub fn select_prev_agent(&mut self)
        ensures
            *final(self) == (App {
                agent_selected: agent_before(
                    old(self).agent_selected as nat,
                    old(self).agents@.len(),
                ) as usize,
                ..*old(self)
            }),
    {
        if self.agents.len() > 0 {
            self.agent_selected = match self.agent_selected.checked_sub(1) {
                Some(i) => i,
                None => self.agents.len() - 1,
            };
        }
    }

    /// Moves to the next tab, wrapping around.
    pub fn next_tab(&mut self)
        ensures
            *final(self) == (App { selected_tab: tab_after(old(self).selected_tab), ..*old(self) }),
    {
        let tabs = Tab::all();
        let idx = position_of(tabs, self.selected_tab);
        self.selected_tab = tabs[(idx + 1) % tabs.len()];
    }

    /// Moves to the previous tab, wrapping around.
    pub fn prev_tab(&mut self)
        ensures
            *final(self) == (App { selected_tab: tab_before(old(self).selected_tab), ..*old(self) }),
    {
        let tabs = Tab::all();
        let idx = position_of(tabs, self.selected_tab);
        let before = match idx.checked_sub(1) {
            Some(i) => i,
            None => tabs.len() - 1,
        };
        self.selected_tab = tabs[before];
    }

    /// Applies a key press; see [`after_key`].
    pub fn handle_key(&mut self, key: Key)
        ensures
            *final(self) == old(self).with_navigation(
                after_key(old(self).navigation(), old(self).tasks@.len(), old(self).activity_log@.len(), key),
            ),
    {
        match key {
            Key::Char('q') | Key::Esc => self.should_quit = true,
            Key::Tab => self.next_tab(),
            Key::BackTab => self.prev_tab(),
            Key::Char('j') | Key::Down => {
                if self.selected_tab == Tab::Tasks {
                    let last = self.tasks.len().saturating_sub(1);
                    self.task_selected = if self.task_selected < last && self.task_selected + 1 < last {
                        self.task_selected + 1
                    } else {
                        last
                    };
                }
                if self.selected_tab == Tab::Activity {
                    let last = self.activity_log.len().saturating_sub(1);
                    self.activity_selected = if self.activity_selected < last && self.activity_selected + 1 < last {
                        self.activity_selected + 1
                    } else {
                        last
                    };
                }
            },
            Key::Char('k') | Key::Up => {
                if self.selected_tab == Tab::Tasks {
                    self.task_selected = self.task_selected.saturating_sub(1);
                }
                if self.selected_tab == Tab::Activity {
                    self.activity_selected = self.activity_selected.saturating_sub(1);
                }
            },
            Key::Char(c) => {
                if '1' <= c && c <= '9' {
                    let tabs = Tab::all();
                    let i = (c as u32 - '1' as u32) as usize;
                    self.selected_tab = tabs[i];
                }
            },
            _ => {},
        }
    }
}

/// The position of `tab` in `tabs`, which lists every tab.
fn position_of(tabs: &[Tab], tab: Tab) -> (res: usize)
    requires
        tabs@ == tab_order(),
    ensures
        res as nat == tab.index(),
{
    let mut i: usize = 0;
    while i < tabs.len()
        invariant
            tabs@ == tab_order(),
            i <= tabs@.len(),
            forall|j: int| 0 <= j < i ==> tabs@[j] != tab,
        decreases tabs@.len() - i,
    {
        if tabs[i] == tab {
            return i;
        }
        i = i + 1;
    }
    assert(tabs@[tab.index() as int] == tab);
    0
}

} // verus!

verus! {

// ---- Laws of navigation ----

/// The tab `n` steps after `t`.
pub open spec fn tabs_after(t: Tab, n: nat) -> Tab
    decreases n,
{
    if n == 0 {
        t
    } else {
        tab_after(tabs_after(t, (n - 1) as nat))
    }
}

/// Moving to the next tab and back, or back and then on, returns to the same
/// tab.
pub proof fn lemma_tab_round_trip(t: Tab)
    ensures
        tab_before(tab_after(t)) == t,
        tab_after(tab_before(t)) == t,
{
}

/// The tab at position `k` of the tab bar is at position `k`.
proof fn lemma_tab_order_index(k: int)
    requires
        0 <= k < 9,
    ensures
        tab_order()[k].index() == k,
{
}

/// `n` steps after `t` is the tab at position `(t + n) mod 9`.
proof fn lemma_tabs_after_index(t: Tab, n: nat)
    ensures
        tabs_after(t, n).index() == (t.index() + n) % 9,
    decreases n,
{
    if n == 0 {
        vstd::arithmetic::div_mod::lemma_small_mod(t.index(), 9);
    } else {
        lemma_tabs_after_index(t, (n - 1) as nat);
        let u = tabs_after(t, (n - 1) as nat);
        let k = (u.index() + 1) % 9;
        lemma_tab_order_index(k as int);
        assert(((t.index() + n - 1) % 9 + 1) % 9 == (t.index() + n) % 9) by (nonlinear_arith);
    }
}

/// Moving on through all nine tabs returns to the starting tab.
pub proof fn lemma_tab_cycle(t: Tab)
    ensures
        tabs_after(t, 9) == t,
{
    lemma_tabs_after_index(t, 9);
    assert((t.index() + 9) % 9 == t.index());
}

/// Selecting the next agent and then the previous one (or the other way
/// round) returns to the same agent, and both keep the selection within the
/// list.
pub proof fn lemma_agent_round_trip(i: nat, len: nat)
    requires
        i < len,
    ensures
        agent_after(i, len) < len,
        agent_before(i, len) < len,
        agent_before(agent_after(i, len), len) == i,
        agent_after(agent_before(i, len), len) == i,
{
    if i + 1 < len {
        vstd::arithmetic::div_mod::lemma_small_mod(i + 1, len);
    } else {
        assert((i + 1) % len == 0) by (nonlinear_arith)
            requires
                i + 1 == len,
                len > 0,
        ;
    }
    if i > 0 {
        vstd::arithmetic::div_mod::lemma_small_mod(i, len);
    } else {
        assert(((len - 1) + 1) % (len as int) == 0) by (nonlinear_arith)
            requires
                len > 0,
        ;
    }
}

/// Whether a key moves the selection: Up or `k` moves it up, Down or `j`
/// down.
pub open spec fn is_move_up(key: Key) -> bool {
    key == Key::Up || key == Key::Char('k')
}

/// Whether a key moves the selection down: Down or `j`.
pub open spec fn is_move_down(key: Key) -> bool {
    key == Key::Down || key == Key::Char('j')
}

/// In the Tasks and Activity tabs, moving up lowers a positive selection of
/// the list on screen by one, and moving down raises a selection below the
/// last item by one (for lists that fit in memory). Moving changes neither
/// the tab, nor the other list's selection, nor whether to quit.
pub proof fn lemma_moves_go_by_one(nav: Navigation, tasks: nat, activity: nat, key: Key)
    ensures
        nav.selected_tab == Tab::Activity && is_move_up(key) && nav.activity_selected > 0 ==> after_key(
            nav,
            tasks,
            activity,
            key,
        ).activity_selected == nav.activity_selected - 1,
        nav.selected_tab == Tab::Tasks && is_move_up(key) && nav.task_selected > 0 ==> after_key(
            nav,
            tasks,
            activity,
            key,
        ).task_selected == nav.task_selected - 1,
        nav.selected_tab == Tab::Activity && is_move_down(key) && activity <= usize::MAX
            && nav.activity_selected < last_index(activity) ==> after_key(nav, tasks, activity, key).activity_selected == nav.activity_selected + 1,
        nav.selected_tab == Tab::Tasks && is_move_down(key) && tasks <= usize::MAX && nav.task_selected
            < last_index(tasks) ==> after_key(
            nav,
            tasks,
            activity,
            key,
        ).task_selected == nav.task_selected + 1,
        is_move_up(key) || is_move_down(key) ==> {
            let after = after_key(nav, tasks, activity, key);
            &&& after.selected_tab == nav.selected_tab
            &&& after.should_quit == nav.should_quit
            &&& nav.selected_tab == Tab::Activity ==> after.task_selected == nav.task_selected
            &&& nav.selected_tab == Tab::Tasks ==> after.activity_selected == nav.activity_selected
            &&& nav.selected_tab != Tab::Activity && nav.selected_tab != Tab::Tasks ==> after == nav
        },
{
}

/// `q` and Esc ask to quit and change nothing else; a digit from `1` to `9`
/// selects the tab at that place in the tab bar (`1` the first) and changes
/// nothing else; any other key that is not a move or a tab key changes
/// nothing.
pub proof fn lemma_other_keys(nav: Navigation, tasks: nat, activity: nat, key: Key, c: char)
    ensures
        key == Key::Char('q') || key == Key::Esc ==> after_key(nav, tasks, activity, key) == (Navigation {
            should_quit: true,
            ..nav
        }),
        '1' <= c && c <= '9' ==> {
            let after = after_key(nav, tasks, activity, Key::Char(c));
            &&& after.selected_tab.index() == (c as int) - ('1' as int)
            &&& after == (Navigation { selected_tab: after.selected_tab, ..nav })
        },
        !('1' <= c && c <= '9') && c != 'q' && c != 'j' && c != 'k' ==> after_key(
            nav,
            tasks,
            activity,
            Key::Char(c),
        ) == nav,
        key == Key::Other ==> after_key(nav, tasks, activity, key) == nav,
{
    if '1' <= c && c <= '9' {
        let i = (c as int) - ('1' as int);
        assert(tab_order()[i].index() == i);
    }
}

/// Moving the selection in the Tasks or Activity tab keeps it within the
/// list: an index at most the last index stays so.
pub proof fn lemma_key_keeps_selection_in_list(nav: Navigation, tasks: nat, activity: nat, key: Key)
    requires
        nav.task_selected <= last_index(tasks),
        nav.activity_selected <= last_index(activity),
    ensures
        after_key(nav, tasks, activity, key).task_selected <= last_index(tasks),
        after_key(nav, tasks, activity, key).activity_selected <= last_index(activity),
{
}

} // verus!

verus! {

// ---- Demonstration data ----

/// Text of a literal.
fn text(s: &str) -> (res: String)
    ensures
        res@ == s@,
{
    String::from_str(s)
}

/// An instant `secs` seconds before `now`, both in microseconds since the
/// Unix epoch (the earliest instant when that is out of range).
fn seconds_before(now: i64, secs: i64) -> (res: i64)
    requires
        0 <= secs <= 1_000_000_000,
    ensures
        res == (if now - secs * 1_000_000 >= i64::MIN {
            now - secs * 1_000_000
        } else {
            i64::MIN as int
        }),
{
    match now.checked_sub(secs * 1_000_000) {
        Some(t) => t,
        None => i64::MIN,
    }
}

/// Id of the first demonstration task (`a1b2c3d4-e5f6-7890-abcd-ef1234567890`).
pub const DEMO_TASK_1: u128 = 0xa1b2c3d4_e5f6_7890_abcd_ef1234567890u128;

/// Id of the second demonstration task (`b2c3d4e5-f6a7-8901-bcde-f12345678901`).
pub const DEMO_TASK_2: u128 = 0xb2c3d4e5_f6a7_8901_bcde_f12345678901u128;

/// Id of the third demonstration task (`c3d4e5f6-a7b8-9012-cdef-123456789012`).
pub const DEMO_TASK_3: u128 = 0xc3d4e5f6_a7b8_9012_cdef_123456789012u128;

/// Bit pattern of `0.72f32`.
pub const DEMO_PROGRESS_BITS: u32 = 0x3F38_51ECu32;

/// The model and tokens (in, out) of each row of a token summary.
pub open spec fn token_rows(rows: Seq<ModelTokenEntry>) -> Seq<(Seq<char>, u64, u64)> {
    rows.map_values(|m: ModelTokenEntry| (m.model@, m.input, m.output))
}

/// The agent each task of a list is on.
pub open spec fn task_agents(tasks: Seq<TaskEntry>) -> Seq<Seq<char>> {
    tasks.map_values(|t: TaskEntry| t.agent.0@)
}

/// The agent each entry of an activity log names.
pub open spec fn activity_agents(log: Seq<ActivityEntry>) -> Seq<Seq<char>> {
    log.map_values(|e: ActivityEntry| e.agent.0@)
}

/// The task each entry of an activity log names, if any.
pub open spec fn activity_tasks(log: Seq<ActivityEntry>) -> Seq<Option<u128>> {
    log.map_values(|e: ActivityEntry| match e.task_id {
        Some(t) => Some(t.0),
        None => None,
    })
}

/// The model each agent of a list runs.
pub open spec fn agent_models(agents: Seq<AgentEntry>) -> Seq<Seq<char>> {
    agents.map_values(|a: AgentEntry| a.model@)
}

/// The ids of a list of agents.
pub open spec fn agent_ids(agents: Seq<AgentEntry>) -> Seq<Seq<char>> {
    agents.map_values(|a: AgentEntry| a.id.0@)
}

/// The ids of a list of tasks.
pub open spec fn task_ids(tasks: Seq<TaskEntry>) -> Seq<u128> {
    tasks.map_values(|t: TaskEntry| t.id.0)
}

/// The tools of a list of activity entries.
pub open spec fn activity_tools(log: Seq<ActivityEntry>) -> Seq<Seq<char>> {
    log.map_values(|e: ActivityEntry| e.tool@)
}

/// The ids of a list of models.
pub open spec fn model_ids(models: Seq<ModelEntry>) -> Seq<Seq<char>> {
    models.map_values(|m: ModelEntry| m.id@)
}

/// The tools and permits of a list of permissions.
pub open spec fn permission_rows(perms: Seq<PermissionEntry>) -> Seq<(Seq<char>, Permit)> {
    perms.map_values(|p: PermissionEntry| (p.tool@, p.permit))
}

/// The names of a list of skills.
pub open spec fn skill_names(skills: Seq<SkillEntry>) -> Seq<Seq<char>> {
    skills.map_values(|s: SkillEntry| s.name@)
}

/// The names of a list of MCP servers.
pub open spec fn server_names(servers: Seq<McpServerEntry>) -> Seq<Seq<char>> {
    servers.map_values(|s: McpServerEntry| s.name@)
}

/// The names of a list of bands.
pub open spec fn band_names(bands: Seq<BandEntry>) -> Seq<Seq<char>> {
    bands.map_values(|b: BandEntry| b.name@)
}

/// The agents of a fan-out's targets.
pub open spec fn target_agents(targets: Seq<FanOutTarget>) -> Seq<Seq<char>> {
    targets.map_values(|t: FanOutTarget| t.agent.0@)
}

impl App {
    /// The demonstration data: a busy local agent, an online and an offline
    /// remote one with their token counts; three tasks (running, done,
    /// queued); six tool calls; six models; nine permits; four skills; three
    /// MCP servers; today's token totals; two bands; and a parallel fan-out of
    /// one prompt to the three agents.
    pub open spec fn has_demo_data(self) -> bool {
        &&& agent_ids(self.agents@) == seq!["local/code-agent"@, "ssh/prod-hermes"@, "ssh/staging-openclaw"@]
        &&& self.agents@[0].status is Busy
        &&& self.agents@[1].status is Online
        &&& self.agents@[2].status is Offline
        &&& self.agents@[0].tokens_input == 420_000 && self.agents@[0].tokens_output == 85_000
        &&& self.agents@[1].tokens_input == 800_000 && self.agents@[1].tokens_output == 210_000
        &&& self.agents@[2].tokens_input == 50_000 && self.agents@[2].tokens_output == 10_000
        &&& agent_models(self.agents@) == seq!["sonnet-4-6"@, "deepseek-v4-pro"@, "opus-4-7"@]
        &&& task_ids(self.tasks@) == seq![DEMO_TASK_1, DEMO_TASK_2, DEMO_TASK_3]
        &&& task_agents(self.tasks@) == seq!["local/code-agent"@, "ssh/prod-hermes"@, "local/code-agent"@]
        &&& activity_agents(self.activity_log@) == seq![
            "local/code-agent"@,
            "ssh/prod-hermes"@,
            "local/code-agent"@,
            "ssh/prod-hermes"@,
            "local/code-agent"@,
            "local/code-agent"@,
        ]
        &&& activity_tasks(self.activity_log@) == seq![
            Some(DEMO_TASK_1),
            Some(DEMO_TASK_2),
            Some(DEMO_TASK_1),
            Some(DEMO_TASK_2),
            Some(DEMO_TASK_1),
            Some(DEMO_TASK_1),
        ]
        &&& self.tasks@[0].status is Running
        &&& self.tasks@[1].status is Done
        &&& self.tasks@[2].status is Queued
        &&& activity_tools(self.activity_log@) == seq!["Read"@, "Grep"@, "Edit"@, "Bash"@, "Grep"@, "Bash"@]
        &&& model_ids(self.models@) == seq![
            "sonnet-4-6"@,
            "opus-4-7"@,
            "haiku-4-5"@,
            "deepseek-v4-pro"@,
            "deepseek-v3"@,
            "qwen-3-max"@,
        ]
        &&& permission_rows(self.permissions@) == seq![
            ("Bash"@, Permit::Allow),
            ("Read"@, Permit::Allow),
            ("Write"@, Permit::Ask),
            ("Edit"@, Permit::Ask),
            ("Glob"@, Permit::Allow),
            ("Grep"@, Permit::Allow),
            ("Agent"@, Permit::Allow),
            ("WebFetch"@, Permit::Deny),
            ("WebSearch"@, Permit::Deny),
        ]
        &&& skill_names(self.skills@) == seq!["code-review"@, "security-review"@, "simplify"@, "test-gen"@]
        &&& server_names(self.mcp_servers@) == seq!["filesystem"@, "github"@, "postgres"@]
        &&& self.token_summary matches Some(t) && t.total_input == 1_270_000 && t.total_output == 305_000
            && t.window@ == "Today"@ && token_rows(t.by_model@) == seq![
            ("sonnet-4-6"@, 420_000u64, 85_000u64),
            ("deepseek-v4-pro"@, 800_000u64, 210_000u64),
            ("opus-4-7"@, 50_000u64, 10_000u64),
        ]
        &&& band_names(self.bands@) == seq!["default"@, "sandbox"@]
        &&& self.fan_out matches Some(g) && g.prompt@ == "review the auth module for security issues"@
            && g.strategy == FanOutStrategy::Parallel && target_agents(g.targets@) == seq![
            "local/code-agent"@,
            "ssh/prod-hermes"@,
            "ssh/staging-openclaw"@,
        ]
    }
}

impl App {
    /// The interface on the Tasks tab, nothing selected beyond the first item,
    /// filled with demonstration data: three agents, three tasks, six
    /// activity entries, six models, nine permits, four skills, three MCP
    /// servers, a token summary, two bands and a fan-out to three agents.
    /// The demonstration agents are `local/code-agent`, `ssh/prod-hermes`
    /// and `ssh/staging-openclaw`, on the models `sonnet-4-6`,
    /// `deepseek-v4-pro` and `opus-4-7`.
    pub fn new() -> (res: App)
        ensures
            res.has_demo_data(),
            res.selected_tab == Tab::Tasks,
            res.selected_model_idx == 0,
            res.selected_perm_idx == 0,
            res.token_window == TokenWindow::Today,
            res.agent_selected == 0,
            res.task_selected == 0,
            res.activity_selected == 0,
            res.command_input@.len() == 0,
            res.status_message@.len() == 0,
            !res.should_quit,
            res.task_scroll == 0,
            res.activity_scroll == 0,
    {
        let mut app = App {
            agents: Vec::new(),
            tasks: Vec::new(),
            activity_log: Vec::new(),
            models: Vec::new(),
            permissions: Vec::new(),
            skills: Vec::new(),
            mcp_servers: Vec::new(),
            token_summary: None,
            bands: Vec::new(),
            fan_out: None,
            selected_tab: Tab::Tasks,
            selected_model_idx: 0,
            selected_perm_idx: 0,
            token_window: TokenWindow::Today,
            agent_selected: 0,
            task_selected: 0,
            activity_selected: 0,
            command_input: String::new(),
            status_message: String::new(),
            should_quit: false,
            task_scroll: 0,
            activity_scroll: 0,
        };
        app.seed_demo_data();
        app
    }

    /// Fills every panel with demonstration data; see [`App::new`].
    fn seed_demo_data(&mut self)
        ensures
            final(self).has_demo_data(),
            final(self).selected_tab == old(self).selected_tab,
            final(self).selected_model_idx == old(self).selected_model_idx,
            final(self).selected_perm_idx == old(self).selected_perm_idx,
            final(self).token_window == old(self).token_window,
            final(self).agent_selected == old(self).agent_selected,
            final(self).task_selected == old(self).task_selected,
            final(self).activity_selected == old(self).activity_selected,
            final(self).command_input == old(self).command_input,
            final(self).status_message == old(self).status_message,
            final(self).should_quit == old(self).should_quit,
            final(self).task_scroll == old(self).task_scroll,
            final(self).activity_scroll == old(self).activity_scroll,
    {
        let now = now_micros();
        let t1 = TaskId(DEMO_TASK_1);
        let t2 = TaskId(DEMO_TASK_2);
        let t3 = TaskId(DEMO_TASK_3);
        let busy = Fraction(DEMO_PROGRESS_BITS);

        // Agents
        let mut agents: Vec<AgentEntry> = Vec::new();
        agents.push(AgentEntry {
            id: AgentId::from_str("local/code-agent"),
            alias: text("local/code-agent"),
            status: AgentStatus::Busy { current_task: t1, progress: busy, model: text("sonnet-4-6") },
            model: text("sonnet-4-6"),
            current_task: Some(text("fix auth bug")),
            progress: Some(busy),
            tokens_input: 420_000,
            tokens_output: 85_000,
            uptime: text("3h 12m"),
        });
        agents.push(AgentEntry {
            id: AgentId::from_str("ssh/prod-hermes"),
            alias: text("ssh/prod-hermes"),
            status: AgentStatus::Online {
                uptime: crate::outside::duration_new(12 * 3600 + 300, 0),
                model: text("deepseek-v4-pro"),
            },
            model: text("deepseek-v4-pro"),
            current_task: None,
            progress: None,
            tokens_input: 800_000,
            tokens_output: 210_000,
            uptime: text("12h 5m"),
        });
        agents.push(AgentEntry {
            id: AgentId::from_str("ssh/staging-openclaw"),
            alias: text("ssh/staging-openclaw"),
            status: AgentStatus::Offline { since: seconds_before(now, 2 * 3600) },
            model: text("opus-4-7"),
            current_task: None,
            progress: None,
            tokens_input: 50_000,
            tokens_output: 10_000,
            uptime: text("--"),
        });
        self.agents = agents;

        // Tasks
        let mut tasks: Vec<TaskEntry> = Vec::new();
        tasks.push(TaskEntry {
            id: t1,
            agent: AgentId::from_str("local/code-agent"),
            prompt: text("fix the auth bug in src/auth.rs"),
            status: TaskStatus::Running { progress: busy },
            progress: Some(busy),
            duration: Some(text("45s")),
        });
        tasks.push(TaskEntry {
            id: t2,
            agent: AgentId::from_str("ssh/prod-hermes"),
            prompt: text("optimize the slow SQL query in reports"),
            status: TaskStatus::Done {
                result: crate::types::TaskResult {
                    content: text("Query optimized"),
                    tokens_used: None,
                    tool_calls: Vec::new(),
                    duration: crate::outside::duration_new(3, 200_000_000),
                },
            },
            progress: None,
            duration: Some(text("3.2s")),
        });
        tasks.push(TaskEntry {
            id: t3,
            agent: AgentId::from_str("local/code-agent"),
            prompt: text("review PR #42 for security issues"),
            status: TaskStatus::Queued,
            progress: None,
            duration: None,
        });
        self.tasks = tasks;

        // Activity
        let mut log: Vec<ActivityEntry> = Vec::new();
        log.push(ActivityEntry {
            timestamp: seconds_before(now, 5),
            agent: AgentId::from_str("local/code-agent"),
            task_id: Some(t1),
            tool: text("Read"),
            args: text("src/auth.rs:42"),
            result: text("OK"),
            duration_ms: 45,
            success: true,
        });
        log.push(ActivityEntry {
            timestamp: seconds_before(now, 10),
            agent: AgentId::from_str("ssh/prod-hermes"),
            task_id: Some(t2),
            tool: text("Grep"),
            args: text("\"validate_token\""),
            result: text("3 matches"),
            duration_ms: 12,
            success: true,
        });
        log.push(ActivityEntry {
            timestamp: seconds_before(now, 15),
            agent: AgentId::from_str("local/code-agent"),
            task_id: Some(t1),
            tool: text("Edit"),
            args: text("src/auth.rs:42"),
            result: text("applied"),
            duration_ms: 230,
            success: true,
        });
        log.push(ActivityEntry {
            timestamp: seconds_before(now, 20),
            agent: AgentId::from_str("ssh/prod-hermes"),
            task_id: Some(t2),
            tool: text("Bash"),
            args: text("cargo test"),
            result: text("FAILED: 1 test"),
            duration_ms: 2100,
            success: false,
        });
        log.push(ActivityEntry {
            timestamp: seconds_before(now, 25),
            agent: AgentId::from_str("local/code-agent"),
            task_id: Some(t1),
            tool: text("Grep"),
            args: text("\"fn login\""),
            result: text("2 matches"),
            duration_ms: 8,
            success: true,
        });
        log.push(ActivityEntry {
            timestamp: seconds_before(now, 30),
            agent: AgentId::from_str("local/code-agent"),
            task_id: Some(t1),
            tool: text("Bash"),
            args: text("cargo build"),
            result: text("OK (12s)"),
            duration_ms: 12000,
            success: true,
        });
        self.activity_log = log;

        // Models
        let mut models: Vec<ModelEntry> = Vec::new();
        models.push(ModelEntry { id: text("sonnet-4-6"), provider: text("anthropic"), context_window: Some(200_000), is_current: true });
        models.push(ModelEntry { id: text("opus-4-7"), provider: text("anthropic"), context_window: Some(200_000), is_current: false });
        models.push(ModelEntry { id: text("haiku-4-5"), provider: text("anthropic"), context_window: Some(200_000), is_current: false });
        models.push(ModelEntry { id: text("deepseek-v4-pro"), provider: text("deepseek"), context_window: Some(128_000), is_current: true });
        models.push(ModelEntry { id: text("deepseek-v3"), provider: text("deepseek"), context_window: Some(64_000), is_current: false });
        models.push(ModelEntry { id: text("qwen-3-max"), provider: text("alibaba"), context_window: Some(128_000), is_current: false });
        self.models = models;

        // Permissions
        let mut perms: Vec<PermissionEntry> = Vec::new();
        perms.push(PermissionEntry { tool: text("Bash"), permit: Permit::Allow, description: text("Execute shell commands"), last_changed: Some(text("2026-05-09")) });
        perms.push(PermissionEntry { tool: text("Read"), permit: Permit::Allow, description: text("Read files"), last_changed: Some(text("2026-05-08")) });
        perms.push(PermissionEntry { tool: text("Write"), permit: Permit::Ask, description: text("Write new files"), last_changed: Some(text("2026-05-08")) });
        perms.push(PermissionEntry { tool: text("Edit"), permit: Permit::Ask, description: text("Edit existing files"), last_changed: Some(text("2026-05-08")) });
        perms.push(PermissionEntry { tool: text("Glob"), permit: Permit::Allow, description: text("Search file names"), last_changed: None });
        perms.push(PermissionEntry { tool: text("Grep"), permit: Permit::Allow, description: text("Search file contents"), last_changed: None });
        perms.push(PermissionEntry { tool: text("Agent"), permit: Permit::Allow, description: text("Spawn sub-agents"), last_changed: None });
        perms.push(PermissionEntry { tool: text("WebFetch"), permit: Permit::Deny, description: text("Fetch URLs"), last_changed: Some(text("2026-05-10")) });
        perms.push(PermissionEntry { tool: text("WebSearch"), permit: Permit::Deny, description: text("Search the web"), last_changed: Some(text("2026-05-10")) });
        self.permissions = perms;

        // Skills
        let mut skills: Vec<SkillEntry> = Vec::new();
        skills.push(SkillEntry { name: text("code-review"), description: text("Review pull requests for bugs and style"), loaded: true, call_count: 42 });
        skills.push(SkillEntry { name: text("security-review"), description: text("Security audit for vulnerabilities"), loaded: true, call_count: 15 });
        skills.push(SkillEntry { name: text("simplify"), description: text("Refactor code for readability"), loaded: true, call_count: 8 });
        skills.push(SkillEntry { name: text("test-gen"), description: text("Generate unit tests"), loaded: false, call_count: 0 });
        self.skills = skills;

        // MCP servers
        let mut servers: Vec<McpServerEntry> = Vec::new();
        servers.push(McpServerEntry { name: text("filesystem"), status: text("connected"), tools: 4 });
        servers.push(McpServerEntry { name: text("github"), status: text("connected"), tools: 12 });
        servers.push(McpServerEntry { name: text("postgres"), status: text("disconnected"), tools: 3 });
        self.mcp_servers = servers;

        // Tokens
        let mut by_model: Vec<ModelTokenEntry> = Vec::new();
        by_model.push(ModelTokenEntry { model: text("sonnet-4-6"), input: 420_000, output: 85_000 });
        by_model.push(ModelTokenEntry { model: text("deepseek-v4-pro"), input: 800_000, output: 210_000 });
        by_model.push(ModelTokenEntry { model: text("opus-4-7"), input: 50_000, output: 10_000 });
        assert(token_rows(by_model@) =~= seq![
            ("sonnet-4-6"@, 420_000u64, 85_000u64),
            ("deepseek-v4-pro"@, 800_000u64, 210_000u64),
            ("opus-4-7"@, 50_000u64, 10_000u64),
        ]);
        self.token_summary = Some(TokenSummary {
            total_input: 1_270_000,
            total_output: 305_000,
            by_model,
            window: text("Today"),
        });

        // Bands
        let mut bands: Vec<BandEntry> = Vec::new();
        bands.push(BandEntry { name: text("default"), isolation: text("Lightweight"), root: text("~/.local/share/aish/bands/default"), status: text("active") });
        bands.push(BandEntry { name: text("sandbox"), isolation: text("Standard"), root: text("/tmp/aish-band-sandbox"), status: text("stopped") });
        self.bands = bands;

        // Fan-out
        let mut targets: Vec<FanOutTarget> = Vec::new();
        targets.push(FanOutTarget {
            agent: AgentId::from_str("local/code-agent"),
            online: true,
            selected: true,
            result: Some(FanOutResult {
                status: text("Done"),
                summary: text("Found 2 issues: SQL injection in login(), missing rate limiting"),
            }),
        });
        targets.push(FanOutTarget {
            agent: AgentId::from_str("ssh/prod-hermes"),
            online: true,
            selected: true,
            result: Some(FanOutResult {
                status: text("Running 72%"),
                summary: text("Analyzing auth.rs... found potential issue in login()"),
            }),
        });
        targets.push(FanOutTarget {
            agent: AgentId::from_str("ssh/staging-openclaw"),
            online: false,
            selected: false,
            result: Some(FanOutResult { status: text("Error"), summary: text("Connection timeout") }),
        });
        let ghost shown = target_agents(targets@);
        assert(shown =~= seq!["local/code-agent"@, "ssh/prod-hermes"@, "ssh/staging-openclaw"@]);
        self.fan_out = Some(FanOutGroup {
            prompt: text("review the auth module for security issues"),
            targets,
            strategy: FanOutStrategy::Parallel,
        });
        assert(agent_ids(self.agents@) =~= seq!["local/code-agent"@, "ssh/prod-hermes"@, "ssh/staging-openclaw"@]);
        assert(task_ids(self.tasks@) =~= seq![DEMO_TASK_1, DEMO_TASK_2, DEMO_TASK_3]);
        assert(agent_models(self.agents@) =~= seq!["sonnet-4-6"@, "deepseek-v4-pro"@, "opus-4-7"@]);
        assert(task_agents(self.tasks@) =~= seq!["local/code-agent"@, "ssh/prod-hermes"@, "local/code-agent"@]);
        assert(activity_agents(self.activity_log@) =~= seq![
            "local/code-agent"@,
            "ssh/prod-hermes"@,
            "local/code-agent"@,
            "ssh/prod-hermes"@,
            "local/code-agent"@,
            "local/code-agent"@,
        ]);
        assert(activity_tasks(self.activity_log@) =~= seq![
            Some(DEMO_TASK_1),
            Some(DEMO_TASK_2),
            Some(DEMO_TASK_1),
            Some(DEMO_TASK_2),
            Some(DEMO_TASK_1),
            Some(DEMO_TASK_1),
        ]);
        assert(activity_tools(self.activity_log@) =~= seq!["Read"@, "Grep"@, "Edit"@, "Bash"@, "Grep"@, "Bash"@]);
        assert(model_ids(self.models@) =~= seq![
            "sonnet-4-6"@,
            "opus-4-7"@,
            "haiku-4-5"@,
            "deepseek-v4-pro"@,
            "deepseek-v3"@,
            "qwen-3-max"@,
        ]);
        assert(permission_rows(self.permissions@) =~= seq![
            ("Bash"@, Permit::Allow),
            ("Read"@, Permit::Allow),
            ("Write"@, Permit::Ask),
            ("Edit"@, Permit::Ask),
            ("Glob"@, Permit::Allow),
            ("Grep"@, Permit::Allow),
            ("Agent"@, Permit::Allow),
            ("WebFetch"@, Permit::Deny),
            ("WebSearch"@, Permit::Deny),
        ]);
        assert(skill_names(self.skills@) =~= seq!["code-review"@, "security-review"@, "simplify"@, "test-gen"@]);
        assert(server_names(self.mcp_servers@) =~= seq!["filesystem"@, "github"@, "postgres"@]);
        assert(band_names(self.bands@) =~= seq!["default"@, "sandbox"@]);
    }
}

// ---- The status bar ----

/// Whether an agent counts as online in the status bar: it is not offline.
pub open spec fn shown_online(a: AgentEntry) -> bool {
    !(a.status is Offline)
}

/// The number of agents of `agents[0..n]` that count as online.
pub open spec fn online_count(agents: Seq<AgentEntry>, n: nat) -> nat
    decreases n,
{
    if n == 0 {
        0
    } else {
        online_count(agents, (n - 1) as nat) + if shown_online(agents[n - 1]) {
            1nat
        } else {
            0nat
        }
    }
}

/// The number of agents of `agents[0..n]` that are offline.
pub open spec fn offline_count(agents: Seq<AgentEntry>, n: nat) -> nat
    decreases n,
{
    if n == 0 {
        0
    } else {
        offline_count(agents, (n - 1) as nat) + if agents[n - 1].status is Offline {
            1nat
        } else {
            0nat
        }
    }
}

/// The status bar counts every agent as online unless it is offline: the
/// agents it counts online and the offline ones make up all the agents (a
/// connecting or degraded agent counts as online), and every busy agent is
/// among those counted online.
pub proof fn lemma_online_is_not_offline(agents: Seq<AgentEntry>, n: nat)
    requires
        n <= agents.len(),
    ensures
        online_count(agents, n) + offline_count(agents, n) == n,
        busy_count(agents, n) <= online_count(agents, n),
        busy_count(agents, n) + offline_count(agents, n) <= n,
    decreases n,
{
    if n > 0 {
        lemma_online_is_not_offline(agents, (n - 1) as nat);
    }
}

/// The number of agents of `agents[0..n]` that are busy.
pub open spec fn busy_count(agents: Seq<AgentEntry>, n: nat) -> nat
    decreases n,
{
    if n == 0 {
        0
    } else {
        busy_count(agents, (n - 1) as nat) + if agents[n - 1].status is Busy {
            1nat
        } else {
            0nat
        }
    }
}

/// The tokens, in and out, of `agents[0..n]`.
pub open spec fn token_total(agents: Seq<AgentEntry>, n: nat) -> nat
    decreases n,
{
    if n == 0 {
        0
    } else {
        token_total(agents, (n - 1) as nat) + agents[n - 1].tokens_input as nat + agents[n - 1].tokens_output as nat
    }
}

/// The text of the status bar.
pub open spec fn status_bar(online: nat, busy: nat, tasks: nat, kilo_tokens: nat) -> Seq<char> {
    " AISH v0.1 · "@ + decimal(online) + " online ("@ + decimal(busy) + " busy) · "@ + decimal(tasks)
        + " tasks · "@ + decimal(kilo_tokens) + "k tokens · F1:Help "@
}

/// Token totals only grow along the list.
proof fn lemma_token_total_monotone(agents: Seq<AgentEntry>, i: nat, n: nat)
    requires
        i <= n,
    ensures
        token_total(agents, i) <= token_total(agents, n),
    decreases n - i,
{
    if i < n {
        lemma_token_total_monotone(agents, i, (n - 1) as nat);
    }
}

impl App {
    /// The status bar: agents not offline, busy agents, tasks, and thousands
    /// of tokens (in and out) over all agents.
    pub fn status_bar_text(&self) -> (res: String)
        requires
            token_total(self.agents@, self.agents@.len()) <= u64::MAX,
        ensures
            res@ == status_bar(
                online_count(self.agents@, self.agents@.len()),
                busy_count(self.agents@, self.agents@.len()),
                self.tasks@.len(),
                token_total(self.agents@, self.agents@.len()) / 1000,
            ),
    {
        let mut online: u64 = 0;
        let mut busy: u64 = 0;
        let mut total: u64 = 0;
        let mut i: usize = 0;
        while i < self.agents.len()
            invariant
                i <= self.agents@.len(),
                online as nat == online_count(self.agents@, i as nat),
                busy as nat == busy_count(self.agents@, i as nat),
                online <= i,
                busy <= i,
                total as nat == token_total(self.agents@, i as nat),
                token_total(self.agents@, self.agents@.len()) <= u64::MAX,
            decreases self.agents@.len() - i,
        {
            let agent = &self.agents[i];
            match agent.status {
                AgentStatus::Offline { .. } => {},
                _ => {
                    online = online + 1;
                },
            }
            match agent.status {
                AgentStatus::Busy { .. } => {
                    busy = busy + 1;
                },
                _ => {},
            }
            proof {
                lemma_token_total_monotone(self.agents@, (i + 1) as nat, self.agents@.len());
            }
            total = total + agent.tokens_input + agent.tokens_output;
            i = i + 1;
        }
        let mut res = String::from_str(" AISH v0.1 · ");
        res.append(u64_text(online).as_str());
        res.append(" online (");
        res.append(u64_text(busy).as_str());
        res.append(" busy) · ");
        res.append(u64_text(self.tasks.len() as u64).as_str());
        res.append(" tasks · ");
        res.append(u64_text(total / 1000).as_str());
        res.append("k tokens · F1:Help ");
        res
    }
}

} // verus!

verus! {

/// The demonstration data hangs together: every task and every activity entry
/// names one of the agents, every activity entry names one of the tasks, the
/// token rows are the agents' models with their tokens, and the totals are the
/// sums of the rows.
pub proof fn lemma_demo_data_consistent(app: App)
    requires
        app.has_demo_data(),
    ensures
        forall|i: int| 0 <= i < app.tasks@.len() ==> agent_ids(app.agents@).contains(#[trigger] task_agents(app.tasks@)[i]),
        forall|i: int|
            0 <= i < app.activity_log@.len() ==> agent_ids(app.agents@).contains(
                #[trigger] activity_agents(app.activity_log@)[i],
            ),
        forall|i: int|
            0 <= i < app.activity_log@.len() ==> (#[trigger] activity_tasks(app.activity_log@)[i] matches Some(t)
                && task_ids(app.tasks@).contains(t)),
        app.token_summary matches Some(s) && s.by_model@.len() == app.agents@.len() && (forall|i: int|
            0 <= i < app.agents@.len() ==> #[trigger] token_rows(s.by_model@)[i] == (
                agent_models(app.agents@)[i],
                app.agents@[i].tokens_input,
                app.agents@[i].tokens_output,
            )) && s.total_input == s.by_model@[0].input + s.by_model@[1].input + s.by_model@[2].input
            && s.total_output == s.by_model@[0].output + s.by_model@[1].output + s.by_model@[2].output,
{
    let ids = agent_ids(app.agents@);
    let local = "local/code-agent"@;
    let prod = "ssh/prod-hermes"@;
    assert(ids[0] == local && ids[1] == prod);
    assert(ids.contains(local) && ids.contains(prod));
    let ta = task_agents(app.tasks@);
    assert(ta.len() == app.tasks@.len() && ta.len() == 3);
    assert forall|i: int| 0 <= i < app.tasks@.len() implies ids.contains(#[trigger] ta[i]) by {
        assert(ta[i] == local || ta[i] == prod);
    }
    let aa = activity_agents(app.activity_log@);
    assert(aa.len() == app.activity_log@.len() && aa.len() == 6);
    assert forall|i: int| 0 <= i < app.activity_log@.len() implies ids.contains(#[trigger] aa[i]) by {
        assert(aa[i] == local || aa[i] == prod);
    }
    let tids = task_ids(app.tasks@);
    assert(tids[0] == DEMO_TASK_1 && tids[1] == DEMO_TASK_2);
    assert(tids.contains(DEMO_TASK_1) && tids.contains(DEMO_TASK_2));
    let at = activity_tasks(app.activity_log@);
    assert(at.len() == app.activity_log@.len());
    assert forall|i: int| 0 <= i < app.activity_log@.len() implies (#[trigger] at[i] matches Some(t)
        && tids.contains(t)) by {
        assert(at[i] == Some(DEMO_TASK_1) || at[i] == Some(DEMO_TASK_2));
    }
    let s = app.token_summary->Some_0;
    let rows = token_rows(s.by_model@);
    let models = agent_models(app.agents@);
    assert(ids.len() == app.agents@.len() && app.agents@.len() == 3);
    assert(rows.len() == s.by_model@.len() && rows.len() == 3);
    assert(models.len() == 3);
    assert forall|i: int| 0 <= i < 3 implies #[trigger] rows[i] == (
        s.by_model@[i].model@,
        s.by_model@[i].input,
        s.by_model@[i].output,
    ) by {}
    assert forall|i: int| 0 <= i < app.agents@.len() implies #[trigger] rows[i] == (
        models[i],
        app.agents@[i].tokens_input,
        app.agents@[i].tokens_output,
    ) by {
        assert(rows[i] == (s.by_model@[i].model@, s.by_model@[i].input, s.by_model@[i].output));
    }
    assert(s.by_model@[0].input == 420_000 && s.by_model@[1].input == 800_000 && s.by_model@[2].input == 50_000);
    assert(s.by_model@[0].output == 85_000 && s.by_model@[1].output == 210_000 && s.by_model@[2].output == 10_000);
}
} // verus!

verus! {

// ---- How the panels mark things ----

/// The colour a panel gives an item.
#[derive(Debug, Clone, Copy, PartialEq, Eq, Structural)]
pub enum Tone {
    Green,
    Yellow,
    Cyan,
    Blue,
    Magenta,
    Red,
    Gray,
    DarkGray,
}

/// The glyph and colour of an agent's status in the Agents panel: online,
/// busy, degraded, offline and connecting each have their own.
pub open spec fn status_look_of(status: AgentStatus) -> (Seq<char>, Tone) {
    match status {
        AgentStatus::Online { .. } => ("●"@, Tone::Green),
        AgentStatus::Busy { .. } => ("◉"@, Tone::Yellow),
        AgentStatus::Degraded { .. } => ("⚠"@, Tone::Yellow),
        AgentStatus::Offline { .. } => ("○"@, Tone::DarkGray),
        AgentStatus::Connecting => ("◌"@, Tone::Cyan),
    }
}

/// The glyph and colour of an agent's status; see [`status_look_of`].
pub fn status_look(status: &AgentStatus) -> (res: (&'static str, Tone))
    ensures
        (res.0@, res.1) == status_look_of(*status),
{
    match status {
        AgentStatus::Online { .. } => ("●", Tone::Green),
        AgentStatus::Busy { .. } => ("◉", Tone::Yellow),
        AgentStatus::Degraded { .. } => ("⚠", Tone::Yellow),
        AgentStatus::Offline { .. } => ("○", Tone::DarkGray),
        AgentStatus::Connecting => ("◌", Tone::Cyan),
    }
}

/// The colour of a tool in the Activity panel: reading green, writing and
/// editing yellow, searching blue, the shell magenta, sub-agents cyan, and
/// any other tool gray.
pub open spec fn tool_tone_of(tool: Seq<char>) -> Tone {
    if tool == "Read"@ {
        Tone::Green
    } else if tool == "Write"@ || tool == "Edit"@ {
        Tone::Yellow
    } else if tool == "Grep"@ || tool == "Glob"@ {
        Tone::Blue
    } else if tool == "Bash"@ {
        Tone::Magenta
    } else if tool == "Agent"@ {
        Tone::Cyan
    } else {
        Tone::Gray
    }
}

/// The colour of a tool; see [`tool_tone_of`].
pub fn tool_tone(tool: &str) -> (res: Tone)
    ensures
        res == tool_tone_of(tool@),
{
    if str_eq(tool, "Read") {
        Tone::Green
    } else if str_eq(tool, "Write") || str_eq(tool, "Edit") {
        Tone::Yellow
    } else if str_eq(tool, "Grep") || str_eq(tool, "Glob") {
        Tone::Blue
    } else if str_eq(tool, "Bash") {
        Tone::Magenta
    } else if str_eq(tool, "Agent") {
        Tone::Cyan
    } else {
        Tone::Gray
    }
}

/// The glyph and colour of a fan-out result, by how its status begins:
/// `Done` is a success, `Error` a failure, `Running` still waits, and
/// anything else is unknown.
pub open spec fn result_look_of(status: Seq<char>) -> (Seq<char>, Tone) {
    if "Done"@.is_prefix_of(status) {
        ("✓"@, Tone::Green)
    } else if "Error"@.is_prefix_of(status) {
        ("✗"@, Tone::Red)
    } else if "Running"@.is_prefix_of(status) {
        ("⏳"@, Tone::Yellow)
    } else {
        ("?"@, Tone::Gray)
    }
}

/// The glyph and colour of a fan-out result; see [`result_look_of`].
pub fn result_look(status: &str) -> (res: (&'static str, Tone))
    ensures
        (res.0@, res.1) == result_look_of(status@),
{
    if starts_with(status, "Done") {
        ("✓", Tone::Green)
    } else if starts_with(status, "Error") {
        ("✗", Tone::Red)
    } else if starts_with(status, "Running") {
        ("⏳", Tone::Yellow)
    } else {
        ("?", Tone::Gray)
    }
}

} // verus!

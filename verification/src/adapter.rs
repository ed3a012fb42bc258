//! The state behind the tools of the built-in adapters: the mock agent used
//! for testing the whole pipeline, and an agent that runs a command-line
//! coding tool for each task. Serving the tools over JSON-RPC and running
//! processes is left to the program around the library.

use crate::outside::{i64_text, now_millis, signed_decimal, u64_text};
use crate::text::{first_chars, prefix_chars};
use crate::types::{Fraction, FRACTION_ZERO_BITS};
use vstd::prelude::*;

verus! {

/// A tool permit as the mock agent keeps it: the permit is free text
/// (`Allow`, `Deny`, `Ask`, or whatever a client set).
#[derive(Debug)]
pub struct MockPermission {
    pub tool_name: String,
    pub permit: String,
    pub description: String,
}

/// A task the mock agent was given.
#[derive(Debug)]
pub struct MockTask {
    pub id: String,
    pub prompt: String,
    pub status: String,
    pub progress: Fraction,
}

/// How many characters of a prompt the mock agent's task list shows.
pub const MOCK_PREVIEW_CHARS: usize = 100usize;

impl MockTask {
    /// The prompt as the task list shows it: its first 100 characters.
    pub fn list_preview(&self) -> (res: String)
        ensures
            res@ == prefix_chars(self.prompt@, MOCK_PREVIEW_CHARS as nat),
    {
        first_chars(self.prompt.as_str(), MOCK_PREVIEW_CHARS)
    }
}

/// The simulated agent behind the mock adapter.
#[derive(Debug)]
pub struct MockAgent {
    pub tasks: Vec<MockTask>,
    pub model: String,
    pub permissions: Vec<MockPermission>,
    pub token_input: u64,
    pub token_output: u64,
}

/// The index of the first item of `names` equal to `name`, if any.
pub open spec fn first_index(names: Seq<Seq<char>>, name: Seq<char>) -> Option<int> {
    if exists|i: int| 0 <= i < names.len() && names[i] == name {
        Some(
            choose|i: int|
                0 <= i < names.len() && names[i] == name && forall|j: int| 0 <= j < i ==> names[j] != name,
        )
    } else {
        None
    }
}

/// A first match found by a scan from the front is the first index of the name.
proof fn lemma_first_index(names: Seq<Seq<char>>, name: Seq<char>, res: Option<usize>)
    requires
        match res {
            Some(i) => i < names.len() && names[i as int] == name && forall|j: int|
                0 <= j < i ==> names[j] != name,
            None => forall|j: int| 0 <= j < names.len() ==> names[j] != name,
        },
    ensures
        first_index(names, name) == match res {
            Some(i) => Some(i as int),
            None => None::<int>,
        },
{
    if let Some(i) = res {
        let w = choose|k: int|
            0 <= k < names.len() && names[k] == name && forall|j: int| 0 <= j < k ==> names[j] != name;
        assert(names[i as int] == name);
        if w < i {
            assert(names[w] != name);
        } else if w > i {
            assert(names[i as int] != name);
        }
    }
}

/// The tool names of the mock agent's permits.
pub open spec fn permission_names(perms: Seq<MockPermission>) -> Seq<Seq<char>> {
    perms.map_values(|p: MockPermission| p.tool_name@)
}

/// The ids of the mock agent's tasks.
pub open spec fn task_ids(tasks: Seq<MockTask>) -> Seq<Seq<char>> {
    tasks.map_values(|t: MockTask| t.id@)
}

/// The id the mock agent gives a task submitted at `stamp` milliseconds.
pub open spec fn mock_task_id(stamp: i64) -> Seq<char> {
    "mock-task-"@ + signed_decimal(stamp as int)
}

/// Text of a literal.
fn text(s: &str) -> (res: String)
    ensures
        res@ == s@,
{
    String::from_str(s)
}

impl MockAgent {
    /// The agent as it starts: model `mock-model-v1`, no task, no token spent,
    /// and five permits (Bash and Read allowed, Write and Edit asked,
    /// WebFetch denied).
    pub fn new() -> (res: MockAgent)
        ensures
            res.model@ == "mock-model-v1"@,
            res.tasks@.len() == 0,
            res.token_input == 0,
            res.token_output == 0,
            permission_names(res.permissions@) == seq!["Bash"@, "Read"@, "Write"@, "Edit"@, "WebFetch"@],
            res.permissions@.map_values(|p: MockPermission| p.permit@) == seq![
                "Allow"@,
                "Allow"@,
                "Ask"@,
                "Ask"@,
                "Deny"@,
            ],
    {
        let mut permissions: Vec<MockPermission> = Vec::new();
        permissions.push(MockPermission { tool_name: text("Bash"), permit: text("Allow"), description: text("Execute shell commands") });
        permissions.push(MockPermission { tool_name: text("Read"), permit: text("Allow"), description: text("Read files") });
        permissions.push(MockPermission { tool_name: text("Write"), permit: text("Ask"), description: text("Write new files") });
        permissions.push(MockPermission { tool_name: text("Edit"), permit: text("Ask"), description: text("Edit existing files") });
        permissions.push(MockPermission { tool_name: text("WebFetch"), permit: text("Deny"), description: text("Fetch URLs") });
        let res = MockAgent {
            tasks: Vec::new(),
            model: text("mock-model-v1"),
            permissions,
            token_input: 0,
            token_output: 0,
        };
        assert(permission_names(res.permissions@) =~= seq!["Bash"@, "Read"@, "Write"@, "Edit"@, "WebFetch"@]);
        assert(res.permissions@.map_values(|p: MockPermission| p.permit@) =~= seq![
            "Allow"@,
            "Allow"@,
            "Ask"@,
            "Ask"@,
            "Deny"@,
        ]);
        res
    }

    /// Switches the model (to `unknown` when none is named), and reports
    /// `Model switched: <old> → <new>`.
    pub fn set_model(&mut self, requested: Option<&str>) -> (res: String)
        ensures
            final(self).model@ == match requested {
                Some(m) => m@,
                None => "unknown"@,
            },
            res@ == "Model switched: "@ + old(self).model@ + " → "@ + final(self).model@,
            final(self).tasks == old(self).tasks,
            final(self).permissions == old(self).permissions,
            final(self).token_input == old(self).token_input,
            final(self).token_output == old(self).token_output,
    {
        let model = match requested {
            Some(m) => text(m),
            None => text("unknown"),
        };
        let mut msg = text("Model switched: ");
        msg.append(self.model.as_str());
        msg.append(" → ");
        msg.append(model.as_str());
        self.model = model;
        msg
    }

    /// Sets the permit of the first permission naming `tool`, and reports
    /// `Permission changed: <tool> <old> → <permit>`; when no permission names
    /// it nothing changes and the report is
    /// `Tool '<tool>' not found in permission list`.
    pub fn set_permission(&mut self, tool: &str, permit: &str) -> (res: String)
        ensures
            final(self).tasks == old(self).tasks,
            final(self).model == old(self).model,
            final(self).token_input == old(self).token_input,
            final(self).token_output == old(self).token_output,
            match first_index(permission_names(old(self).permissions@), tool@) {
                Some(i) => {
                    &&& final(self).permissions@.len() == old(self).permissions@.len()
                    &&& forall|j: int|
                        0 <= j < old(self).permissions@.len() && j != i ==> #[trigger] final(self).permissions@[j]
                            == old(self).permissions@[j]
                    &&& final(self).permissions@[i].tool_name == old(self).permissions@[i].tool_name
                    &&& final(self).permissions@[i].description == old(self).permissions@[i].description
                    &&& final(self).permissions@[i].permit@ == permit@
                    &&& res@ == "Permission changed: "@ + tool@ + " "@ + old(self).permissions@[i].permit@ + " → "@
                        + permit@
                },
                None => {
                    &&& final(self).permissions == old(self).permissions
                    &&& res@ == "Tool '"@ + tool@ + "' not found in permission list"@
                },
            },
    {
        let mut i: usize = 0;
        while i < self.permissions.len()
            invariant
                i <= self.permissions@.len(),
                self.permissions == old(self).permissions,
                self.tasks == old(self).tasks,
                self.model == old(self).model,
                self.token_input == old(self).token_input,
                self.token_output == old(self).token_output,
                forall|j: int| 0 <= j < i ==> self.permissions@[j].tool_name@ != tool@,
            decreases self.permissions@.len() - i,
        {
            if crate::text::str_eq(self.permissions[i].tool_name.as_str(), tool) {
                let ghost before = self.permissions@;
                proof {
                    let names = permission_names(before);
                    assert(names[i as int] == tool@);
                    assert(forall|j: int| 0 <= j < i ==> names[j] != tool@);
                    lemma_first_index(names, tool@, Some(i));
                }
                let mut msg = text("Permission changed: ");
                msg.append(tool);
                msg.append(" ");
                msg.append(self.permissions[i].permit.as_str());
                msg.append(" → ");
                msg.append(permit);
                let updated = MockPermission {
                    tool_name: self.permissions[i].tool_name.clone(),
                    permit: text(permit),
                    description: self.permissions[i].description.clone(),
                };
                self.permissions.set(i, updated);
                return msg;
            }
            i = i + 1;
        }
        proof {
            let names = permission_names(self.permissions@);
            assert(forall|j: int| 0 <= j < names.len() ==> names[j] != tool@);
            lemma_first_index(names, tool@, None);
        }
        let mut msg = text("Tool '");
        msg.append(tool);
        msg.append("' not found in permission list");
        msg
    }

    /// Queues a task submitted at `stamp` milliseconds: its id is
    /// `mock-task-<stamp>`; a quarter of the prompt's length in bytes is
    /// counted as input tokens and 200 as output tokens (both counters wrap
    /// around, as atomic additions do). Reports `Task submitted: <id>`.
    pub fn submit_at(&mut self, prompt: &str, stamp: i64) -> (res: String)
        ensures
            final(self).tasks@.len() == old(self).tasks@.len() + 1,
            final(self).tasks@.take(old(self).tasks@.len() as int) == old(self).tasks@,
            final(self).tasks@.last().id@ == mock_task_id(stamp),
            final(self).tasks@.last().prompt@ == prompt@,
            final(self).tasks@.last().status@ == "queued"@,
            final(self).tasks@.last().progress == Fraction(FRACTION_ZERO_BITS),
            final(self).token_input == (old(self).token_input + prompt.len() / 4) % 0x1_0000_0000_0000_0000,
            final(self).token_output == (old(self).token_output + 200) % 0x1_0000_0000_0000_0000,
            final(self).model == old(self).model,
            final(self).permissions == old(self).permissions,
            res@ == "Task submitted: "@ + mock_task_id(stamp),
    {
        let mut id = text("mock-task-");
        id.append(i64_text(stamp).as_str());
        let mut msg = text("Task submitted: ");
        msg.append(id.as_str());
        let ghost before = self.tasks@;
        self.tasks.push(MockTask { id, prompt: text(prompt), status: text("queued"), progress: Fraction::zero() });
        assert(self.tasks@.take(before.len() as int) =~= before);
        let quarter = (prompt.len() / 4) as u64;
        self.token_input = self.token_input.wrapping_add(quarter);
        self.token_output = self.token_output.wrapping_add(200);
        msg
    }

    /// Queues a task submitted now; see [`MockAgent::submit_at`].
    pub fn submit(&mut self, prompt: &str) -> (res: String)
        ensures
            exists|stamp: i64|
                #![trigger mock_task_id(stamp)]
                final(self).tasks@.last().id@ == mock_task_id(stamp) && res@ == "Task submitted: "@
                    + mock_task_id(stamp),
            final(self).tasks@.len() == old(self).tasks@.len() + 1,
            final(self).tasks@.take(old(self).tasks@.len() as int) == old(self).tasks@,
            final(self).tasks@.last().prompt@ == prompt@,
            final(self).tasks@.last().status@ == "queued"@,
    {
        let stamp = now_millis();
        self.submit_at(prompt, stamp)
    }

    /// Marks the first task of id `task_id` cancelled, and reports
    /// `Task <id> cancelled`; when there is none nothing changes and the
    /// report is `Task <id> not found`.
    pub fn cancel(&mut self, task_id: &str) -> (res: String)
        ensures
            final(self).model == old(self).model,
            final(self).permissions == old(self).permissions,
            final(self).token_input == old(self).token_input,
            final(self).token_output == old(self).token_output,
            match first_index(task_ids(old(self).tasks@), task_id@) {
                Some(i) => {
                    &&& final(self).tasks@.len() == old(self).tasks@.len()
                    &&& forall|j: int|
                        0 <= j < old(self).tasks@.len() && j != i ==> #[trigger] final(self).tasks@[j]
                            == old(self).tasks@[j]
                    &&& final(self).tasks@[i].id == old(self).tasks@[i].id
                    &&& final(self).tasks@[i].prompt == old(self).tasks@[i].prompt
                    &&& final(self).tasks@[i].progress == old(self).tasks@[i].progress
                    &&& final(self).tasks@[i].status@ == "cancelled"@
                    &&& res@ == "Task "@ + task_id@ + " cancelled"@
                },
                None => {
                    &&& final(self).tasks == old(self).tasks
                    &&& res@ == "Task "@ + task_id@ + " not found"@
                },
            },
    {
        let mut i: usize = 0;
        while i < self.tasks.len()
            invariant
                i <= self.tasks@.len(),
                self.tasks == old(self).tasks,
                self.permissions == old(self).permissions,
                self.model == old(self).model,
                self.token_input == old(self).token_input,
                self.token_output == old(self).token_output,
                forall|j: int| 0 <= j < i ==> self.tasks@[j].id@ != task_id@,
            decreases self.tasks@.len() - i,
        {
            if crate::text::str_eq(self.tasks[i].id.as_str(), task_id) {
                proof {
                    let ids = task_ids(self.tasks@);
                    assert(ids[i as int] == task_id@);
                    assert(forall|j: int| 0 <= j < i ==> ids[j] != task_id@);
                    lemma_first_index(ids, task_id@, Some(i));
                }
                let updated = MockTask {
                    id: self.tasks[i].id.clone(),
                    prompt: self.tasks[i].prompt.clone(),
                    status: text("cancelled"),
                    progress: self.tasks[i].progress,
                };
                self.tasks.set(i, updated);
                let mut msg = text("Task ");
                msg.append(task_id);
                msg.append(" cancelled");
                return msg;
            }
            i = i + 1;
        }
        proof {
            let ids = task_ids(self.tasks@);
            assert(forall|j: int| 0 <= j < ids.len() ==> ids[j] != task_id@);
            lemma_first_index(ids, task_id@, None);
        }
        let mut msg = text("Task ");
        msg.append(task_id);
        msg.append(" not found");
        msg
    }
}

// ---- An agent that runs a command-line tool per task ----

/// The state of an adapter that runs a command-line coding tool for each
/// task: the model it asks for, the tokens it estimated, and the tasks still
/// running.
#[derive(Debug)]
pub struct CliAgentState {
    pub model: String,
    pub token_input: u64,
    pub token_output: u64,
    pub active_tasks: Vec<String>,
}

/// `tasks` without any task of id `id`.
pub open spec fn without(tasks: Seq<Seq<char>>, id: Seq<char>) -> Seq<Seq<char>>
    decreases tasks.len(),
{
    if tasks.len() == 0 {
        tasks
    } else if tasks.last() == id {
        without(tasks.drop_last(), id)
    } else {
        without(tasks.drop_last(), id).push(tasks.last())
    }
}

/// The id of a task started at `stamp` milliseconds by an adapter whose tasks
/// are named `<prefix>-<stamp>`.
pub open spec fn cli_task_id(prefix: Seq<char>, stamp: i64) -> Seq<char> {
    prefix + "-"@ + signed_decimal(stamp as int)
}

impl CliAgentState {
    /// The state at start: the given model, no token, no task.
    pub fn new(model: String) -> (res: CliAgentState)
        ensures
            res.model == model,
            res.token_input == 0,
            res.token_output == 0,
            res.active_tasks@.len() == 0,
    {
        CliAgentState { model, token_input: 0, token_output: 0, active_tasks: Vec::new() }
    }

    /// Switches the model (to `fallback` when none is named), and reports
    /// `Model: <old> → <new>`.
    pub fn set_model(&mut self, requested: Option<&str>, fallback: &str) -> (res: String)
        ensures
            final(self).model@ == match requested {
                Some(m) => m@,
                None => fallback@,
            },
            res@ == "Model: "@ + old(self).model@ + " → "@ + final(self).model@,
            final(self).active_tasks == old(self).active_tasks,
            final(self).token_input == old(self).token_input,
            final(self).token_output == old(self).token_output,
    {
        let model = match requested {
            Some(m) => text(m),
            None => text(fallback),
        };
        let mut msg = text("Model: ");
        msg.append(self.model.as_str());
        msg.append(" → ");
        msg.append(model.as_str());
        self.model = model;
        msg
    }

    /// Starts a task at `stamp` milliseconds: its id `<prefix>-<stamp>` joins
    /// the running tasks.
    pub fn begin_task_at(&mut self, prefix: &str, stamp: i64) -> (res: String)
        ensures
            res@ == cli_task_id(prefix@, stamp),
            final(self).active_tasks@.map_values(|t: String| t@) == old(self).active_tasks@.map_values(
                |t: String| t@,
            ).push(res@),
            final(self).model == old(self).model,
            final(self).token_input == old(self).token_input,
            final(self).token_output == old(self).token_output,
    {
        let mut id = text(prefix);
        id.append("-");
        id.append(i64_text(stamp).as_str());
        let ghost before = self.active_tasks@;
        self.active_tasks.push(id.clone());
        assert(self.active_tasks@.map_values(|t: String| t@) =~= before.map_values(|t: String| t@).push(id@));
        id
    }

    /// Starts a task now; see [`CliAgentState::begin_task_at`].
    pub fn begin_task(&mut self, prefix: &str) -> (res: String)
        ensures
            exists|stamp: i64| #[trigger] cli_task_id(prefix@, stamp) == res@,
            final(self).active_tasks@.map_values(|t: String| t@) == old(self).active_tasks@.map_values(
                |t: String| t@,
            ).push(res@),
    {
        let stamp = now_millis();
        self.begin_task_at(prefix, stamp)
    }

    /// Removes every running task of id `id`.
    pub fn drop_task(&mut self, id: &str)
        ensures
            final(self).active_tasks@.map_values(|t: String| t@) == without(
                old(self).active_tasks@.map_values(|t: String| t@),
                id@,
            ),
            final(self).model == old(self).model,
            final(self).token_input == old(self).token_input,
            final(self).token_output == old(self).token_output,
    {
        let ghost all = self.active_tasks@.map_values(|t: String| t@);
        let mut kept: Vec<String> = Vec::new();
        let mut i: usize = 0;
        while i < self.active_tasks.len()
            invariant
                i <= self.active_tasks@.len(),
                all == self.active_tasks@.map_values(|t: String| t@),
                kept@.map_values(|t: String| t@) == without(all.take(i as int), id@),
            decreases self.active_tasks@.len() - i,
        {
            let ghost before = kept@.map_values(|t: String| t@);
            assert(all.take(i + 1).drop_last() =~= all.take(i as int));
            assert(all.take(i + 1).last() == all[i as int]);
            if !crate::text::str_eq(self.active_tasks[i].as_str(), id) {
                kept.push(self.active_tasks[i].clone());
                assert(kept@.map_values(|t: String| t@) =~= before.push(all[i as int]));
            }
            i = i + 1;
        }
        assert(all.take(all.len() as int) =~= all);
        self.active_tasks = kept;
    }

    /// Records a finished task: its token estimates (a quarter of the prompt's
    /// and of the output's length in bytes, both counters wrapping around as
    /// atomic additions do) are added, and it leaves the running tasks. Gives
    /// the two estimates.
    pub fn finish_task(&mut self, id: &str, prompt_bytes: usize, output_bytes: usize) -> (res: (u64, u64))
        ensures
            res.0 == prompt_bytes / 4,
            res.1 == output_bytes / 4,
            final(self).token_input == (old(self).token_input + res.0) % 0x1_0000_0000_0000_0000,
            final(self).token_output == (old(self).token_output + res.1) % 0x1_0000_0000_0000_0000,
            final(self).active_tasks@.map_values(|t: String| t@) == without(
                old(self).active_tasks@.map_values(|t: String| t@),
                id@,
            ),
            final(self).model == old(self).model,
    {
        let input = (prompt_bytes / 4) as u64;
        let output = (output_bytes / 4) as u64;
        self.token_input = self.token_input.wrapping_add(input);
        self.token_output = self.token_output.wrapping_add(output);
        self.drop_task(id);
        (input, output)
    }

    /// Cancels a running task: when it runs, every task of that id leaves and
    /// the report is `Task <id> cancelled`; otherwise nothing changes and the
    /// report is `Task <id> not found`.
    pub fn cancel(&mut self, id: &str) -> (res: String)
        ensures
            old(self).active_tasks@.map_values(|t: String| t@).contains(id@) ==> final(self).active_tasks@.map_values(
                |t: String| t@,
            ) == without(old(self).active_tasks@.map_values(|t: String| t@), id@) && res@ == "Task "@ + id@
                + " cancelled"@,
            !old(self).active_tasks@.map_values(|t: String| t@).contains(id@) ==> final(self).active_tasks
                == old(self).active_tasks && res@ == "Task "@ + id@ + " not found"@,
            final(self).model == old(self).model,
            final(self).token_input == old(self).token_input,
            final(self).token_output == old(self).token_output,
    {
        let mut found = false;
        let mut i: usize = 0;
        let ghost all = self.active_tasks@.map_values(|t: String| t@);
        while i < self.active_tasks.len()
            invariant
                i <= self.active_tasks@.len(),
                all == self.active_tasks@.map_values(|t: String| t@),
                found == exists|j: int| 0 <= j < i && all[j] == id@,
            decreases self.active_tasks@.len() - i,
        {
            assert(all[i as int] == self.active_tasks@[i as int]@);
            if crate::text::str_eq(self.active_tasks[i].as_str(), id) {
                found = true;
            }
            i = i + 1;
        }
        proof {
            if found {
                let j = choose|j: int| 0 <= j < i && all[j] == id@;
                assert(all.contains(id@));
            } else {
                assert(!all.contains(id@));
            }
        }
        let mut msg = text("Task ");
        msg.append(id);
        if found {
            self.drop_task(id);
            msg.append(" cancelled");
        } else {
            msg.append(" not found");
        }
        msg
    }

    /// The arguments the coding tool is run with for a prompt: print mode with
    /// the prompt, the model, and plain text output.
    pub fn command_args(prompt: &str, model: &str) -> (res: Vec<String>)
        ensures
            res.deep_view() == seq!["-p"@, prompt@, "--model"@, model@, "--output-format"@, "text"@],
    {
        let mut args: Vec<String> = Vec::new();
        args.push(String::from_str("-p"));
        args.push(String::from_str(prompt));
        args.push(String::from_str("--model"));
        args.push(String::from_str(model));
        args.push(String::from_str("--output-format"));
        args.push(String::from_str("text"));
        assert(args.deep_view() =~= seq!["-p"@, prompt@, "--model"@, model@, "--output-format"@, "text"@]);
        args
    }

    /// The directory the tool runs in: the project's, or `.` when none is
    /// given.
    pub fn working_dir(project: Option<&str>) -> (res: String)
        ensures
            res@ == match project {
                Some(p) => p@,
                None => "."@,
            },
    {
        match project {
            Some(p) => String::from_str(p),
            None => String::from_str("."),
        }
    }

    /// Settles a task whose tool ran to its end: its token estimates are
    /// counted (see [`CliAgentState::finish_task`]), it leaves the running
    /// tasks, and the report is the completed one when the tool succeeded,
    /// else the failed one.
    pub fn settle_exit(&mut self, id: &str, prompt_bytes: usize, success: bool, stdout: &str, stderr: &str) -> (res: String)
        ensures
            final(self).token_input == (old(self).token_input + prompt_bytes / 4) % 0x1_0000_0000_0000_0000,
            final(self).token_output == (old(self).token_output + stdout.len() / 4) % 0x1_0000_0000_0000_0000,
            final(self).active_tasks@.map_values(|t: String| t@) == without(
                old(self).active_tasks@.map_values(|t: String| t@),
                id@,
            ),
            final(self).model == old(self).model,
            success ==> res@ == "Task "@ + id@ + " completed.\n\n"@ + stdout@ + "\n\n---\nTokens: ~"@
                + crate::outside::decimal((prompt_bytes / 4) as nat) + " in / ~"@ + crate::outside::decimal(
                (stdout.len() / 4) as nat,
            ) + " out"@,
            !success ==> res@ == "Task "@ + id@ + " failed.\n\nstderr: "@ + stderr@ + "\n\nstdout: "@ + stdout@,
    {
        let (input, output) = self.finish_task(id, prompt_bytes, stdout.len());
        if success {
            CliAgentState::completed_report(id, stdout, input, output)
        } else {
            CliAgentState::failed_report(id, stderr, stdout)
        }
    }

    /// Settles a task whose tool could not be started: it leaves the running
    /// tasks, and the report is `Error spawning <program>: <error>`.
    pub fn settle_spawn_failure(&mut self, id: &str, program: &str, error: &str) -> (res: String)
        ensures
            final(self).active_tasks@.map_values(|t: String| t@) == without(
                old(self).active_tasks@.map_values(|t: String| t@),
                id@,
            ),
            final(self).model == old(self).model,
            final(self).token_input == old(self).token_input,
            final(self).token_output == old(self).token_output,
            res@ == "Error spawning "@ + program@ + ": "@ + error@,
    {
        self.drop_task(id);
        let mut msg = text("Error spawning ");
        msg.append(program);
        msg.append(": ");
        msg.append(error);
        msg
    }

    /// Settles a task whose run was interrupted before it reported: it leaves
    /// the running tasks, and the report is `Internal error: <error>`.
    pub fn settle_interrupted(&mut self, id: &str, error: &str) -> (res: String)
        ensures
            final(self).active_tasks@.map_values(|t: String| t@) == without(
                old(self).active_tasks@.map_values(|t: String| t@),
                id@,
            ),
            final(self).model == old(self).model,
            final(self).token_input == old(self).token_input,
            final(self).token_output == old(self).token_output,
            res@ == "Internal error: "@ + error@,
    {
        self.drop_task(id);
        let mut msg = text("Internal error: ");
        msg.append(error);
        msg
    }

    /// The report of a task whose tool succeeded:
    /// `Task <id> completed.`, a blank line, the output, a blank line, `---`,
    /// then `Tokens: ~<in> in / ~<out> out`.
    pub fn completed_report(id: &str, stdout: &str, input: u64, output: u64) -> (res: String)
        ensures
            res@ == "Task "@ + id@ + " completed.\n\n"@ + stdout@ + "\n\n---\nTokens: ~"@ + crate::outside::decimal(
                input as nat,
            ) + " in / ~"@ + crate::outside::decimal(output as nat) + " out"@,
    {
        let mut msg = text("Task ");
        msg.append(id);
        msg.append(" completed.\n\n");
        msg.append(stdout);
        msg.append("\n\n---\nTokens: ~");
        msg.append(u64_text(input).as_str());
        msg.append(" in / ~");
        msg.append(u64_text(output).as_str());
        msg.append(" out");
        msg
    }

    /// The report of a task whose tool failed: `Task <id> failed.`, a blank
    /// line, `stderr: <stderr>`, a blank line, `stdout: <stdout>`.
    pub fn failed_report(id: &str, stderr: &str, stdout: &str) -> (res: String)
        ensures
            res@ == "Task "@ + id@ + " failed.\n\nstderr: "@ + stderr@ + "\n\nstdout: "@ + stdout@,
    {
        let mut msg = text("Task ");
        msg.append(id);
        msg.append(" failed.\n\nstderr: ");
        msg.append(stderr);
        msg.append("\n\nstdout: ");
        msg.append(stdout);
        msg
    }
}

} // verus!

verus! {

/// A task that is begun and then settled (finished, failed, cancelled or
/// interrupted) leaves the running tasks as they were, when no running task
/// had its id.
pub proof fn lemma_begin_then_settle(tasks: Seq<Seq<char>>, id: Seq<char>)
    ensures
        without(tasks.push(id), id) == without(tasks, id),
        !tasks.contains(id) ==> without(tasks, id) == tasks,
    decreases tasks.len(),
{
    assert(tasks.push(id).drop_last() =~= tasks);
    if tasks.len() > 0 {
        lemma_begin_then_settle(tasks.drop_last(), id);
        if !tasks.contains(id) {
            assert(!tasks.drop_last().contains(id)) by {
                if tasks.drop_last().contains(id) {
                    let k = choose|k: int| 0 <= k < tasks.drop_last().len() && tasks.drop_last()[k] == id;
                    assert(tasks[k] == id);
                }
            }
            assert(tasks.last() != id) by {
                assert(tasks[tasks.len() - 1] == tasks.last());
            }
            assert(without(tasks, id) =~= without(tasks.drop_last(), id).push(tasks.last()));
            assert(tasks.drop_last().push(tasks.last()) =~= tasks);
        }
    }
}

} // verus!

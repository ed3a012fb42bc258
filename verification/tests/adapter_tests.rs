use aish::adapter::{CliAgentState, MockAgent};

#[test]
fn test_mock_server_agent_status() {
    let agent = MockAgent::new();
    assert_eq!(agent.model, "mock-model-v1");
    assert_eq!(agent.tasks.len(), 0);
}

#[test]
fn test_mock_server_task_submit_and_list() {
    let mut agent = MockAgent::new();
    let text = agent.submit("explain main.rs");
    assert!(text.contains("Task submitted"));
    assert_eq!(agent.tasks.len(), 1);
    assert!(agent.tasks[0].id.starts_with("mock-task-"));
    assert_eq!(text, format!("Task submitted: {}", agent.tasks[0].id));
    assert_eq!(agent.tasks[0].prompt, "explain main.rs");
    assert_eq!(agent.tasks[0].status, "queued");
}

#[test]
fn test_mock_server_set_model() {
    let mut agent = MockAgent::new();
    let text = agent.set_model(Some("mock-model-v2"));
    assert!(text.contains("mock-model-v1"));
    assert!(text.contains("mock-model-v2"));
    assert_eq!(text, "Model switched: mock-model-v1 → mock-model-v2");
    assert_eq!(agent.model, "mock-model-v2");
    assert_eq!(agent.set_model(None), "Model switched: mock-model-v2 → unknown");
}

#[test]
fn test_mock_server_permissions() {
    let agent = MockAgent::new();
    let names: Vec<&str> = agent.permissions.iter().map(|p| p.tool_name.as_str()).collect();
    let permits: Vec<&str> = agent.permissions.iter().map(|p| p.permit.as_str()).collect();
    assert_eq!(names, vec!["Bash", "Read", "Write", "Edit", "WebFetch"]);
    assert_eq!(permits, vec!["Allow", "Allow", "Ask", "Ask", "Deny"]);
}

#[test]
fn mock_permission_changes() {
    let mut agent = MockAgent::new();
    assert_eq!(agent.set_permission("Bash", "Deny"), "Permission changed: Bash Allow → Deny");
    assert_eq!(agent.permissions[0].permit, "Deny");
    assert_eq!(agent.permissions[0].description, "Execute shell commands");
    assert_eq!(agent.permissions[1].permit, "Allow");
    assert_eq!(agent.set_permission("Nope", "Allow"), "Tool 'Nope' not found in permission list");
    assert_eq!(agent.permissions.len(), 5);
}

#[test]
fn mock_tokens_are_estimated_per_submission() {
    let mut agent = MockAgent::new();
    agent.submit_at("0123456789", 7);
    assert_eq!(agent.token_input, 2);
    assert_eq!(agent.token_output, 200);
    assert_eq!(agent.tasks[0].id, "mock-task-7");
    agent.submit_at("abc", -3);
    assert_eq!(agent.token_input, 2);
    assert_eq!(agent.token_output, 400);
    assert_eq!(agent.tasks[1].id, "mock-task--3");
    agent.token_output = u64::MAX;
    agent.submit_at("", 0);
    assert_eq!(agent.token_output, 199);
}

#[test]
fn mock_cancel() {
    let mut agent = MockAgent::new();
    agent.submit_at("a", 1);
    agent.submit_at("b", 2);
    assert_eq!(agent.cancel("mock-task-2"), "Task mock-task-2 cancelled");
    assert_eq!(agent.tasks[1].status, "cancelled");
    assert_eq!(agent.tasks[0].status, "queued");
    assert_eq!(agent.cancel("mock-task-9"), "Task mock-task-9 not found");
}

#[test]
fn cli_agent_tasks_and_reports() {
    let mut st = CliAgentState::new("sonnet".to_string());
    assert_eq!(st.set_model(Some("opus"), "sonnet"), "Model: sonnet → opus");
    assert_eq!(st.set_model(None, "sonnet"), "Model: opus → sonnet");
    let a = st.begin_task_at("code-task", 5);
    assert_eq!(a, "code-task-5");
    let b = st.begin_task_at("code-task", 6);
    assert_eq!(st.active_tasks, vec![a.clone(), b.clone()]);
    assert_eq!(st.finish_task(&a, 41, 9), (10, 2));
    assert_eq!(st.token_input, 10);
    assert_eq!(st.token_output, 2);
    assert_eq!(st.active_tasks, vec![b.clone()]);
    assert_eq!(st.cancel("code-task-99"), "Task code-task-99 not found");
    assert_eq!(st.cancel(&b), "Task code-task-6 cancelled");
    assert!(st.active_tasks.is_empty());
    let t = st.begin_task("x");
    assert!(t.starts_with("x-"));
}

#[test]
fn cli_agent_report_texts() {
    assert_eq!(
        CliAgentState::completed_report("t-1", "out", 12, 3),
        "Task t-1 completed.\n\nout\n\n---\nTokens: ~12 in / ~3 out"
    );
    assert_eq!(CliAgentState::failed_report("t-1", "err", "out"), "Task t-1 failed.\n\nstderr: err\n\nstdout: out");
}

#[test]
fn mock_task_list_preview_keeps_one_hundred_chars() {
    let mut agent = MockAgent::new();
    let long: String = "é".repeat(150);
    agent.submit(&long);
    agent.submit("short");
    let n = agent.tasks.len();
    assert_eq!(agent.tasks[n - 2].list_preview().chars().count(), 100);
    assert_eq!(agent.tasks[n - 1].list_preview(), "short");
}

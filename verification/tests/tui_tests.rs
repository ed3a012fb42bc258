use aish::tui::{result_look, status_look, tool_tone, App, FanOutStrategy, Key, Tab, TokenWindow, Tone};
use aish::types::AgentStatus;

#[test]
fn tabs_in_order_with_labels() {
    let labels: Vec<&str> = Tab::all().iter().map(|t| t.label()).collect();
    assert_eq!(labels, vec!["Tasks", "Activity", "Models", "Perms", "Skills", "MCP", "Tokens", "Fan-out", "Band"]);
    for (i, t) in Tab::all().iter().enumerate() {
        assert_eq!(t.position(), i);
    }
}

#[test]
fn token_windows_and_strategies() {
    assert_eq!(TokenWindow::Today.label(), "Today");
    assert_eq!(TokenWindow::Month.label(), "This Month");
    assert_eq!(TokenWindow::Total.label(), "Total");
    assert_eq!(FanOutStrategy::Parallel.name(), "Parallel");
    assert_eq!(FanOutStrategy::Vote.name(), "Vote");
}

#[test]
fn tab_cycles_round_trip() {
    let mut app = App::new();
    assert_eq!(app.selected_tab, Tab::Tasks);
    for _ in 0..9 {
        app.next_tab();
    }
    assert_eq!(app.selected_tab, Tab::Tasks);
    app.prev_tab();
    assert_eq!(app.selected_tab, Tab::Band);
    app.next_tab();
    assert_eq!(app.selected_tab, Tab::Tasks);
}

#[test]
fn agent_selection_wraps_both_ways() {
    let mut app = App::new();
    assert_eq!(app.agents.len(), 3);
    app.select_prev_agent();
    assert_eq!(app.agent_selected, 2);
    app.select_next_agent();
    assert_eq!(app.agent_selected, 0);
    app.select_next_agent();
    app.select_next_agent();
    app.select_next_agent();
    assert_eq!(app.agent_selected, 0);
}

#[test]
fn keys_move_within_the_lists() {
    let mut app = App::new();
    app.handle_key(Key::Down);
    app.handle_key(Key::Char('j'));
    app.handle_key(Key::Down);
    assert_eq!(app.task_selected, 2);
    app.handle_key(Key::Up);
    app.handle_key(Key::Char('k'));
    app.handle_key(Key::Up);
    assert_eq!(app.task_selected, 0);
    app.handle_key(Key::Char('2'));
    assert_eq!(app.selected_tab, Tab::Activity);
    for _ in 0..10 {
        app.handle_key(Key::Down);
    }
    assert_eq!(app.activity_selected, 5);
    app.handle_key(Key::Char('9'));
    assert_eq!(app.selected_tab, Tab::Band);
    app.handle_key(Key::Char('0'));
    assert_eq!(app.selected_tab, Tab::Band);
    app.handle_key(Key::Tab);
    assert_eq!(app.selected_tab, Tab::Tasks);
    app.handle_key(Key::BackTab);
    assert_eq!(app.selected_tab, Tab::Band);
    assert!(!app.should_quit);
    app.handle_key(Key::Other);
    assert!(!app.should_quit);
    app.handle_key(Key::Char('q'));
    assert!(app.should_quit);
    let mut app = App::new();
    app.handle_key(Key::Esc);
    assert!(app.should_quit);
}

#[test]
fn demo_data_and_status_bar() {
    let app = App::new();
    assert_eq!(app.tasks.len(), 3);
    assert_eq!(app.activity_log.len(), 6);
    assert_eq!(app.models.len(), 6);
    assert_eq!(app.permissions.len(), 9);
    assert_eq!(app.skills.len(), 4);
    assert_eq!(app.mcp_servers.len(), 3);
    assert_eq!(app.bands.len(), 2);
    assert!(app.token_summary.is_some());
    assert!(app.fan_out.is_some());
    assert_eq!(app.token_window, TokenWindow::Today);
    assert_eq!(app.status_bar_text(), " AISH v0.1 · 2 online (1 busy) · 3 tasks · 1575k tokens · F1:Help ");
}

#[test]
fn demo_agents_and_tasks() {
    let app = App::new();
    let ids: Vec<String> = app.agents.iter().map(|a| a.id.to_text()).collect();
    assert_eq!(ids, vec!["local/code-agent", "ssh/prod-hermes", "ssh/staging-openclaw"]);
    match &app.agents[1].status {
        aish::types::AgentStatus::Online { uptime, model } => {
            assert_eq!(*uptime, std::time::Duration::from_secs(12 * 3600 + 300));
            assert_eq!(model, "deepseek-v4-pro");
        }
        _ => panic!("expected the second agent online"),
    }
    assert_eq!(app.tasks[0].id.0, aish::tui::DEMO_TASK_1);
    match &app.tasks[1].status {
        aish::types::TaskStatus::Done { result } => {
            assert_eq!(result.duration, std::time::Duration::from_millis(3200));
            assert_eq!(result.content, "Query optimized");
        }
        _ => panic!("expected the second task done"),
    }
    let t = app.token_summary.as_ref().unwrap();
    assert_eq!((t.total_input, t.total_output), (1_270_000, 305_000));
    assert_eq!(app.fan_out.as_ref().unwrap().targets.len(), 3);
}

#[test]
fn demo_data_hangs_together() {
    let app = App::new();
    let agent_ids: Vec<String> = app.agents.iter().map(|a| a.id.to_text()).collect();
    let task_ids: Vec<u128> = app.tasks.iter().map(|t| t.id.0).collect();
    for t in &app.tasks {
        assert!(agent_ids.contains(&t.agent.to_text()));
    }
    for e in &app.activity_log {
        assert!(agent_ids.contains(&e.agent.to_text()));
        assert!(task_ids.contains(&e.task_id.unwrap().0));
    }
    let s = app.token_summary.as_ref().unwrap();
    assert_eq!(s.window, "Today");
    assert_eq!(s.by_model.len(), app.agents.len());
    for (row, agent) in s.by_model.iter().zip(app.agents.iter()) {
        assert_eq!(row.model, agent.model);
        assert_eq!(row.input, agent.tokens_input);
        assert_eq!(row.output, agent.tokens_output);
    }
    assert_eq!(s.total_input, s.by_model.iter().map(|m| m.input).sum::<u64>());
    assert_eq!(s.total_output, s.by_model.iter().map(|m| m.output).sum::<u64>());
}

#[test]
fn moving_down_from_the_largest_selection_lands_on_the_last_task() {
    let mut app = App::new();
    app.selected_tab = Tab::Tasks;
    app.task_selected = usize::MAX;
    app.handle_key(Key::Down);
    assert_eq!(app.task_selected, 2);
    app.handle_key(Key::Down);
    assert_eq!(app.task_selected, 2);
}

#[test]
fn panel_marks() {
    assert_eq!(status_look(&AgentStatus::Connecting), ("◌", Tone::Cyan));
    assert_eq!(status_look(&AgentStatus::Offline { since: 0 }), ("○", Tone::DarkGray));
    assert_eq!(tool_tone("Read"), Tone::Green);
    assert_eq!(tool_tone("Edit"), Tone::Yellow);
    assert_eq!(tool_tone("Glob"), Tone::Blue);
    assert_eq!(tool_tone("Bash"), Tone::Magenta);
    assert_eq!(tool_tone("WebFetch"), Tone::Gray);
    assert_eq!(result_look("Done (3.2s)"), ("✓", Tone::Green));
    assert_eq!(result_look("Error: timeout"), ("✗", Tone::Red));
    assert_eq!(result_look("Running"), ("⏳", Tone::Yellow));
    assert_eq!(result_look("Do"), ("?", Tone::Gray));
    assert_eq!(result_look(""), ("?", Tone::Gray));
}

use aish::event::{BusEvent, EventBus};
use aish::scheduler::TaskScheduler;
use aish::types::{AgentId, Fraction, Priority, TaskFilter, TaskRequest, TaskResult, TaskStatus};
use std::sync::Arc;
use std::time::Duration;

fn request(prompt: &str) -> TaskRequest {
    TaskRequest { prompt: prompt.to_string(), context: None, model: None, timeout: None, priority: Priority::Normal }
}

fn no_filter() -> TaskFilter {
    TaskFilter { agent_id: None, status: None, limit: None, offset: None }
}

fn result(text: &str) -> TaskResult {
    TaskResult { content: text.to_string(), tokens_used: None, tool_calls: vec![], duration: Duration::from_secs(1) }
}

#[test]
fn submitted_task_reads_back_queued() {
    let mut s = TaskScheduler::new(Arc::new(EventBus::default()));
    let agent = AgentId::from_str("local/a");
    let mut req = request("explain main.rs");
    req.model = Some("m1".to_string());
    req.priority = Priority::High;
    let id = s.submit(&agent, req);
    let t = s.get(&id).unwrap();
    assert_eq!(t.id, id);
    assert_eq!(t.agent_id.0, "local/a");
    assert_eq!(t.prompt_preview, "explain main.rs");
    assert!(matches!(t.status, TaskStatus::Queued));
    assert_eq!(t.model, "m1");
    assert_eq!(t.priority, Priority::High);
    assert_eq!(t.progress, Fraction::zero());
    assert!(t.completed_at.is_none());
}

#[test]
fn model_defaults_and_preview_is_cut_at_two_hundred_chars() {
    let mut s = TaskScheduler::new(Arc::new(EventBus::default()));
    let long: String = "é".repeat(250);
    let id = s.submit(&AgentId::from_str("a"), request(&long));
    let t = s.get(&id).unwrap();
    assert_eq!(t.model, "default");
    assert_eq!(t.prompt_preview.chars().count(), 200);
    assert_eq!(t.prompt_preview, "é".repeat(200));
}

#[test]
fn unknown_task_is_absent_and_updates_are_ignored() {
    let mut s = TaskScheduler::new(Arc::new(EventBus::default()));
    let ghost = aish::types::TaskId(42);
    assert!(s.get(&ghost).is_none());
    s.set_running(&ghost);
    s.set_failed(&ghost, "boom");
    assert!(s.cancel(&ghost).is_ok());
    assert!(s.get(&ghost).is_none());
    assert_eq!(s.list(&no_filter()).len(), 0);
}

#[test]
fn lifecycle_of_a_task() {
    let bus = Arc::new(EventBus::default());
    let mut rx = bus.subscribe();
    let mut s = TaskScheduler::new(bus.clone());
    let id = s.submit(&AgentId::from_str("a"), request("p"));
    let other = s.submit(&AgentId::from_str("b"), request("q"));

    s.set_running(&id);
    assert!(matches!(s.get(&id).unwrap().status, TaskStatus::Running { .. }));
    s.set_progress(&id, Fraction(0.5f32.to_bits()), "halfway");
    let t = s.get(&id).unwrap();
    assert_eq!(t.progress, Fraction(0.5f32.to_bits()));
    assert!(matches!(t.status, TaskStatus::Running { progress } if progress == Fraction(0.5f32.to_bits())));
    s.set_done(&id, result("all good"));
    let t = s.get(&id).unwrap();
    assert_eq!(t.progress, Fraction::one());
    assert!(t.completed_at.is_some());
    match t.status {
        TaskStatus::Done { result } => assert_eq!(result.content, "all good"),
        _ => panic!("expected done"),
    }
    // The other task is untouched.
    assert!(matches!(s.get(&other).unwrap().status, TaskStatus::Queued));

    s.set_failed(&other, "boom");
    match s.get(&other).unwrap().status {
        TaskStatus::Failed { error } => assert_eq!(error, "boom"),
        _ => panic!("expected failed"),
    }

    // Every change was announced, in order.
    let mut kinds = vec![];
    while let Ok(ev) = rx.try_recv() {
        kinds.push(match ev {
            BusEvent::TaskSubmitted { .. } => "submitted",
            BusEvent::TaskStarted { .. } => "started",
            BusEvent::TaskProgress { .. } => "progress",
            BusEvent::TaskCompleted { .. } => "completed",
            BusEvent::TaskFailed { .. } => "failed",
            _ => "other",
        });
    }
    assert_eq!(kinds, vec!["submitted", "submitted", "started", "progress", "completed", "failed"]);
}

#[test]
fn cancel_marks_cancelled() {
    let mut s = TaskScheduler::new(Arc::new(EventBus::default()));
    let id = s.submit(&AgentId::from_str("a"), request("p"));
    assert!(s.cancel(&id).is_ok());
    let t = s.get(&id).unwrap();
    assert!(matches!(t.status, TaskStatus::Cancelled));
    assert!(t.completed_at.is_some());
}

#[test]
fn listing_filters_by_agent_and_pages_newest_first() {
    let mut s = TaskScheduler::new(Arc::new(EventBus::default()));
    let mut ids = vec![];
    for i in 0..5 {
        let agent = if i % 2 == 0 { "even" } else { "odd" };
        ids.push(s.submit(&AgentId::from_str(agent), request(&format!("task {}", i))));
    }
    let all = s.list(&no_filter());
    assert_eq!(all.len(), 5);
    for w in all.windows(2) {
        assert!(w[0].created_at >= w[1].created_at);
    }
    for id in &ids {
        assert_eq!(all.iter().filter(|t| t.id == *id).count(), 1);
    }

    let even = s.list(&TaskFilter { agent_id: Some(AgentId::from_str("even")), status: None, limit: None, offset: None });
    assert_eq!(even.len(), 3);
    assert!(even.iter().all(|t| t.agent_id.0 == "even"));

    let page = s.list(&TaskFilter { agent_id: None, status: None, limit: Some(2), offset: Some(1) });
    assert_eq!(page.len(), 2);
    assert_eq!(page[0].id, all[1].id);
    assert_eq!(page[1].id, all[2].id);

    let past_end = s.list(&TaskFilter { agent_id: None, status: None, limit: Some(2), offset: Some(9) });
    assert!(past_end.is_empty());
}

#[test]
fn listing_defaults_to_one_hundred() {
    let mut s = TaskScheduler::new(Arc::new(EventBus::default()));
    for i in 0..105 {
        s.submit(&AgentId::from_str("a"), request(&i.to_string()));
    }
    assert_eq!(s.list(&no_filter()).len(), 100);
}

#[test]
fn count_by_status_counts_each_kind() {
    let mut s = TaskScheduler::new(Arc::new(EventBus::default()));
    let a = s.submit(&AgentId::from_str("a"), request("1"));
    let _b = s.submit(&AgentId::from_str("a"), request("2"));
    let c = s.submit(&AgentId::from_str("a"), request("3"));
    s.set_running(&a);
    s.cancel(&c).unwrap();
    assert_eq!(s.count_by_status(TaskStatus::Queued), 1);
    assert_eq!(s.count_by_status(TaskStatus::Running { progress: Fraction::zero() }), 1);
    assert_eq!(s.count_by_status(TaskStatus::Cancelled), 1);
    assert_eq!(s.count_by_status(TaskStatus::Failed { error: String::new() }), 0);
}

#[test]
fn fan_out_gives_one_task_per_agent_in_order() {
    let mut s = TaskScheduler::new(Arc::new(EventBus::default()));
    let agents = vec![AgentId::from_str("x"), AgentId::from_str("y"), AgentId::from_str("z")];
    let ids = s.submit_all(&agents, request("same prompt"));
    assert_eq!(ids.len(), 3);
    for (agent, id) in agents.iter().zip(ids.iter()) {
        let t = s.get(id).unwrap();
        assert_eq!(t.agent_id.0, agent.0);
        assert_eq!(t.prompt_preview, "same prompt");
    }
    assert_ne!(ids[0], ids[1]);
}

#[test]
fn task_id_text_is_the_start_of_its_uuid() {
    let id = aish::types::TaskId(0xa1b2c3d4_e5f6_7890_abcd_ef1234567890);
    assert_eq!(id.to_text(), "a1b2c3d4");
    assert_eq!(aish::types::TaskId(0).to_text(), "00000000");
    let fresh = aish::types::TaskId::new();
    assert_eq!(fresh.to_text().len(), 8);
    assert_ne!(fresh, aish::types::TaskId::new());
}

#[test]
fn listing_filters_by_status_variant() {
    let mut s = TaskScheduler::new(Arc::new(EventBus::default()));
    let a = s.submit(&AgentId::from_str("a"), request("1"));
    let b = s.submit(&AgentId::from_str("a"), request("2"));
    s.set_running(&a);
    let queued = s.list(&TaskFilter { agent_id: None, status: Some(TaskStatus::Queued), limit: None, offset: None });
    assert_eq!(queued.len(), 1);
    assert_eq!(queued[0].id, b);
    let running = s.list(&TaskFilter {
        agent_id: Some(AgentId::from_str("a")),
        status: Some(TaskStatus::Running { progress: Fraction(0.9f32.to_bits()) }),
        limit: None,
        offset: None,
    });
    assert_eq!(running.len(), 1);
    assert_eq!(running[0].id, a);
    let none = s.list(&TaskFilter { agent_id: Some(AgentId::from_str("b")), status: Some(TaskStatus::Queued), limit: None, offset: None });
    assert!(none.is_empty());
}

#[test]
fn fan_out_and_cancel_are_announced_with_their_tasks() {
    let bus = Arc::new(EventBus::default());
    let mut rx = bus.subscribe();
    let mut s = TaskScheduler::new(bus.clone());
    let agents = vec![AgentId::from_str("x"), AgentId::from_str("y")];
    let ids = s.submit_all(&agents, request("same prompt"));
    assert!(s.cancel(&ids[1]).is_ok());
    // Cancelling an unknown task announces nothing.
    assert!(s.cancel(&aish::types::TaskId(7)).is_ok());
    let mut seen = vec![];
    while let Ok(ev) = rx.try_recv() {
        seen.push(ev);
    }
    assert_eq!(seen.len(), 3);
    for (k, ev) in seen.iter().take(2).enumerate() {
        match ev {
            BusEvent::TaskSubmitted { agent, task, prompt_preview } => {
                assert_eq!(agent.0, agents[k].0);
                assert_eq!(*task, ids[k]);
                assert_eq!(prompt_preview, "same prompt");
            }
            other => panic!("expected a submission, got {:?}", other),
        }
    }
    match &seen[2] {
        BusEvent::TaskCancelled { agent, task } => {
            assert_eq!(agent.0, "y");
            assert_eq!(*task, ids[1]);
        }
        other => panic!("expected a cancellation, got {:?}", other),
    }
}

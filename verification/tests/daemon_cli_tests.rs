use aish::cli::{dispatch, dispatch_to, exec_target, ExecError, ExecTarget};
use aish::config::{AdapterDef, TransportConfig};
use aish::daemon::{agent_counts, counts_of, expand_tilde, lookup_agent, ping_reply, task_total, version_reply};
use aish::event::EventBus;
use aish::registry::AgentRegistry;
use aish::scheduler::TaskScheduler;
use aish::types::{AgentId, AgentStatus, Fraction, Priority, TaskFilter, TaskId, TaskRequest};
use std::sync::Arc;
use std::time::Duration;

fn def(id: &str) -> AdapterDef {
    AdapterDef {
        id: id.to_string(),
        alias: None,
        transport: TransportConfig::Unix { path: "/s".into() },
        default_model: None,
        timeout_ms: 1,
    }
}

fn request(prompt: &str) -> TaskRequest {
    TaskRequest { prompt: prompt.to_string(), context: None, model: None, timeout: None, priority: Priority::Low }
}

fn online() -> AgentStatus {
    AgentStatus::Online { uptime: Duration::from_secs(1), model: "m".into() }
}

#[test]
fn counting_statuses() {
    let statuses = vec![
        online(),
        AgentStatus::Busy { current_task: TaskId(1), progress: Fraction::zero(), model: "m".into() },
        AgentStatus::Offline { since: 0 },
        AgentStatus::Connecting,
        AgentStatus::Degraded { model: "m".into(), reason: "r".into() },
    ];
    let c = counts_of(&statuses);
    assert_eq!((c.total, c.online, c.offline), (5, 2, 3));
    let c = counts_of(&vec![]);
    assert_eq!((c.total, c.online, c.offline), (0, 0, 0));
}

#[test]
fn counting_registered_agents() {
    let mut r = AgentRegistry::new(Arc::new(EventBus::default()));
    let a = r.register(&def("a"));
    r.register(&def("b"));
    a.set_status(online());
    let c = agent_counts(&r);
    assert_eq!((c.total, c.online, c.offline), (2, 1, 1));
}

#[test]
fn looking_up_agents() {
    let mut r = AgentRegistry::new(Arc::new(EventBus::default()));
    r.register(&def("a"));
    assert_eq!(lookup_agent(&r, "a").unwrap().id.0, "a");
    match lookup_agent(&r, "zz") {
        Err(msg) => assert_eq!(msg, "Agent 'zz' not found"),
        Ok(_) => panic!("expected a refusal"),
    }
    assert_eq!(ping_reply(), "pong");
    assert_eq!(version_reply("0.1.0"), "aish-daemon v0.1.0");
}

#[test]
fn tilde_expansion() {
    assert_eq!(expand_tilde("~/.aish/daemon.sock", Some("/home/u")), "/home/u/.aish/daemon.sock");
    assert_eq!(expand_tilde("~/a~b", Some("/h")), "/h/a/hb");
    assert_eq!(expand_tilde("/abs/~x", Some("/h")), "/abs/~x");
    assert_eq!(expand_tilde("~/x", None), "~/x");
    assert_eq!(expand_tilde("", Some("/h")), "");
    assert_eq!(expand_tilde("~é", Some("/h")), "/hé");
}

#[test]
fn exec_targets() {
    assert!(matches!(exec_target(Some("a".into()), true), ExecTarget::All));
    assert!(matches!(exec_target(Some("a".into()), false), ExecTarget::Agent(ref a) if a == "a"));
    assert!(matches!(exec_target(None, false), ExecTarget::FirstOnline));
    assert_eq!(ExecError::NoOnlineAgents.message(), "No online agents available");
    assert_eq!(
        ExecError::NoAgentToPick.message(),
        "No online agents. Register an agent first with: aish agent add"
    );
}

#[test]
fn dispatch_given_online_agents() {
    let mut s = TaskScheduler::new(Arc::new(EventBus::default()));
    let none: Vec<AgentId> = vec![];
    assert_eq!(dispatch_to(&mut s, &ExecTarget::All, &none, request("p")).unwrap_err(), ExecError::NoOnlineAgents);
    assert_eq!(
        dispatch_to(&mut s, &ExecTarget::FirstOnline, &none, request("p")).unwrap_err(),
        ExecError::NoAgentToPick
    );
    assert_eq!(s.list(&TaskFilter { agent_id: None, status: None, limit: None, offset: None }).len(), 0);

    let online = vec![AgentId::from_str("x"), AgentId::from_str("y")];
    let subs = dispatch_to(&mut s, &ExecTarget::All, &online, request("p")).unwrap();
    assert_eq!(subs.len(), 2);
    assert_eq!(subs[0].agent.0, "x");
    assert_eq!(subs[1].agent.0, "y");
    assert_eq!(s.get(&subs[1].task).unwrap().agent_id.0, "y");

    let subs = dispatch_to(&mut s, &ExecTarget::FirstOnline, &online, request("q")).unwrap();
    assert_eq!(subs.len(), 1);
    assert_eq!(subs[0].agent.0, "x");

    let subs = dispatch_to(&mut s, &ExecTarget::Agent("w".into()), &none, request("r")).unwrap();
    assert_eq!(subs[0].agent.0, "w");
    assert_eq!(s.get(&subs[0].task).unwrap().prompt_preview, "r");
}

#[test]
fn dispatch_reads_the_registry() {
    let mut r = AgentRegistry::new(Arc::new(EventBus::default()));
    let mut s = TaskScheduler::new(Arc::new(EventBus::default()));
    let a = r.register(&def("a"));
    r.register(&def("b"));
    assert_eq!(dispatch(&r, &mut s, &ExecTarget::All, request("p")).unwrap_err(), ExecError::NoOnlineAgents);
    a.set_status(online());
    let subs = dispatch(&r, &mut s, &ExecTarget::All, request("p")).unwrap();
    assert_eq!(subs.len(), 1);
    assert_eq!(subs[0].agent.0, "a");
    let subs = dispatch(&r, &mut s, &ExecTarget::FirstOnline, request("p")).unwrap();
    assert_eq!(subs[0].agent.0, "a");
}

#[test]
fn task_total_counts_every_task() {
    let mut s = TaskScheduler::new(Arc::new(EventBus::default()));
    assert_eq!(task_total(&s), 0);
    s.submit(&AgentId::from_str("a"), request("one"));
    s.submit(&AgentId::from_str("b"), request("two"));
    assert_eq!(task_total(&s), 2);
    for _ in 0..120 {
        s.submit(&AgentId::from_str("a"), request("more"));
    }
    assert_eq!(task_total(&s), 122);
}

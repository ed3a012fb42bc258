use aish::config::{AdapterDef, AdaptersConfig, TransportConfig};
use aish::event::{BusEvent, EventBus};
use aish::registry::{status_event, AgentRegistry};
use aish::types::{AgentId, AgentStatus, ConnectionType, Fraction, TaskId};
use std::sync::Arc;
use std::time::Duration;

fn stdio_def(id: &str) -> AdapterDef {
    AdapterDef {
        id: id.to_string(),
        alias: Some(format!("{} alias", id)),
        transport: TransportConfig::Stdio {
            command: "aish-adapter-hermes".to_string(),
            args: vec!["--fast".to_string()],
            env: vec![("K".to_string(), "V".to_string())],
        },
        default_model: Some("m".to_string()),
        timeout_ms: 1234,
    }
}

fn online(model: &str) -> AgentStatus {
    AgentStatus::Online { uptime: Duration::from_secs(1), model: model.to_string() }
}

#[test]
fn register_then_get() {
    let mut r = AgentRegistry::new(Arc::new(EventBus::default()));
    assert_eq!(r.count(), 0);
    let h = r.register(&stdio_def("local/a"));
    assert_eq!(h.id.0, "local/a");
    assert_eq!(h.alias.as_deref(), Some("local/a alias"));
    assert_eq!(h.default_model.as_deref(), Some("m"));
    assert_eq!(h.timeout_ms, 1234);
    assert!(matches!(h.status(), AgentStatus::Connecting));
    match &h.connection_type {
        ConnectionType::Stdio { command, args, env } => {
            assert_eq!(command, "aish-adapter-hermes");
            assert_eq!(args, &vec!["--fast".to_string()]);
            assert_eq!(env, &vec![("K".to_string(), "V".to_string())]);
        }
        _ => panic!("expected stdio"),
    }
    let got = r.get(&AgentId::from_str("local/a")).unwrap();
    assert_eq!(got.id.0, "local/a");
    assert_eq!(r.count(), 1);
    assert!(r.get(&AgentId::from_str("local/b")).is_none());
}

#[test]
fn registering_an_id_again_replaces_it() {
    let mut r = AgentRegistry::new(Arc::new(EventBus::default()));
    r.register(&stdio_def("a"));
    let mut def = stdio_def("a");
    def.timeout_ms = 5;
    r.register(&def);
    assert_eq!(r.count(), 1);
    assert_eq!(r.get(&AgentId::from_str("a")).unwrap().timeout_ms, 5);
}

#[test]
fn remove_then_get() {
    let mut r = AgentRegistry::new(Arc::new(EventBus::default()));
    r.register(&stdio_def("a"));
    r.register(&stdio_def("b"));
    let removed = r.remove(&AgentId::from_str("a")).unwrap();
    assert_eq!(removed.id.0, "a");
    assert!(r.get(&AgentId::from_str("a")).is_none());
    assert!(r.get(&AgentId::from_str("b")).is_some());
    assert_eq!(r.count(), 1);
    assert!(r.remove(&AgentId::from_str("a")).is_none());
}

#[test]
fn load_from_config_registers_each_in_order() {
    let mut r = AgentRegistry::new(Arc::new(EventBus::default()));
    let cfg = AdaptersConfig { adapters: vec![stdio_def("x"), stdio_def("y"), stdio_def("z")] };
    let handles = r.load_from_config(&cfg);
    let ids: Vec<String> = handles.iter().map(|h| h.id.0.clone()).collect();
    assert_eq!(ids, vec!["x", "y", "z"]);
    assert_eq!(r.count(), 3);
    let mut listed: Vec<String> = r.list().iter().map(|h| h.id.0.clone()).collect();
    listed.sort();
    assert_eq!(listed, vec!["x", "y", "z"]);
}

#[test]
fn status_is_shared_by_clones_and_online_follows_it() {
    let bus = Arc::new(EventBus::default());
    let mut rx = bus.subscribe();
    let mut r = AgentRegistry::new(bus.clone());
    let h = r.register(&stdio_def("a"));
    r.register(&stdio_def("b"));
    assert!(r.online().is_empty());
    h.set_status(online("m1"));
    let stored = r.get(&AgentId::from_str("a")).unwrap();
    assert!(matches!(stored.status(), AgentStatus::Online { .. }));
    let on = r.online();
    assert_eq!(on.len(), 1);
    assert_eq!(on[0].id.0, "a");
    match rx.try_recv().unwrap() {
        BusEvent::AgentOnline { agent, model } => {
            assert_eq!(agent.0, "a");
            assert_eq!(model, "m1");
        }
        _ => panic!("expected AgentOnline"),
    }
}

#[test]
fn status_events() {
    let a = AgentId::from_str("a");
    assert!(matches!(status_event(&a, &online("m")), Some(BusEvent::AgentOnline { .. })));
    match status_event(&a, &AgentStatus::Offline { since: 7 }) {
        Some(BusEvent::AgentOffline { reason, since, .. }) => {
            assert_eq!(reason, "connection lost");
            assert_eq!(since, 7);
        }
        _ => panic!("expected AgentOffline"),
    }
    match status_event(&a, &AgentStatus::Degraded { model: "m".into(), reason: "slow".into() }) {
        Some(BusEvent::AgentDegraded { reason, .. }) => assert_eq!(reason, "slow"),
        _ => panic!("expected AgentDegraded"),
    }
    let busy = AgentStatus::Busy { current_task: TaskId(1), progress: Fraction::zero(), model: "m".into() };
    assert!(status_event(&a, &busy).is_none());
    assert!(status_event(&a, &AgentStatus::Connecting).is_none());
}

#[test]
fn connection_from_ssh_transport_drops_the_remote_command() {
    let t = TransportConfig::Ssh {
        host: "h".into(),
        port: 2222,
        user: "u".into(),
        key_path: Some("~/.ssh/k".into()),
        remote_command: "aish-adapter-x".into(),
    };
    match ConnectionType::from_transport(&t) {
        ConnectionType::Ssh { host, port, user, key_path } => {
            assert_eq!(host, "h");
            assert_eq!(port, 2222);
            assert_eq!(user, "u");
            assert_eq!(key_path.as_deref(), Some("~/.ssh/k"));
        }
        _ => panic!("expected ssh"),
    }
    match ConnectionType::from_transport(&TransportConfig::Unix { path: "/s".into() }) {
        ConnectionType::UnixSocket { path } => assert_eq!(path, "/s"),
        _ => panic!("expected unix"),
    }
    match ConnectionType::from_transport(&TransportConfig::Tcp { host: "h".into(), port: 1, tls: true }) {
        ConnectionType::Tcp { host, port, tls } => {
            assert_eq!(host, "h");
            assert_eq!(port, 1);
            assert!(tls);
        }
        _ => panic!("expected tcp"),
    }
}

#[test]
fn status_labels() {
    assert_eq!(online("m").label(), "online");
    assert_eq!(online("m").model_label(), "m");
    assert_eq!(AgentStatus::Connecting.label(), "connecting");
    assert_eq!(AgentStatus::Connecting.model_label(), "-");
    assert_eq!(AgentStatus::Offline { since: 0 }.label(), "offline");
    assert!(online("m").is_available());
    assert!(!AgentStatus::Offline { since: 0 }.is_available());
}

#[test]
fn select_available_keeps_online_and_busy_in_order() {
    let mut r = AgentRegistry::new(Arc::new(EventBus::default()));
    let handles = vec![r.register(&stdio_def("a")), r.register(&stdio_def("b")), r.register(&stdio_def("c"))];
    let statuses = vec![
        AgentStatus::Busy { current_task: TaskId(1), progress: Fraction::zero(), model: "m".into() },
        AgentStatus::Offline { since: 0 },
        online("m"),
    ];
    let picked = aish::registry::select_available(&handles, &statuses);
    let ids: Vec<String> = picked.iter().map(|h| h.id.0.clone()).collect();
    assert_eq!(ids, vec!["a", "c"]);
    let none = aish::registry::select_available(&handles, &vec![AgentStatus::Connecting; 3]);
    assert!(none.is_empty());
}

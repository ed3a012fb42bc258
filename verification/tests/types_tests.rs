use aish::types::{AgentId, Message, Permit, Priority, TaskStatus};

#[test]
fn messages_carry_their_role() {
    let m = Message::user("hi".to_string());
    assert_eq!(m.role, "user");
    assert_eq!(m.content, "hi");
    let m = Message::assistant("yo".to_string());
    assert_eq!(m.role, "assistant");
    assert_eq!(m.content, "yo");
}

#[test]
fn priorities() {
    assert_eq!(Priority::default(), Priority::Normal);
    assert_eq!(Priority::from_flag("low"), Priority::Low);
    assert_eq!(Priority::from_flag("high"), Priority::High);
    assert_eq!(Priority::from_flag("critical"), Priority::Critical);
    assert_eq!(Priority::from_flag("urgent"), Priority::Normal);
    assert!(Priority::Low.rank() < Priority::Normal.rank());
    assert!(Priority::High.rank() < Priority::Critical.rank());
}

#[test]
fn permits_and_ids() {
    assert_eq!(Permit::Allow.name(), "Allow");
    assert_eq!(Permit::Deny.name(), "Deny");
    assert_eq!(Permit::Ask.name(), "Ask");
    let a = AgentId::from_str("local/x");
    assert_eq!(a.to_text(), "local/x");
    assert!(a.same_as(&AgentId::from_str("local/x")));
    assert!(!a.same_as(&AgentId::from_str("local/y")));
}

#[test]
fn status_kinds() {
    assert_eq!(TaskStatus::Queued.kind(), 0);
    assert_eq!(TaskStatus::Cancelled.kind(), 4);
}

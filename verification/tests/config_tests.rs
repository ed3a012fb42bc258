use aish::config::{
    config_dir_for, default_ssh_port, default_timeout_ms, AdapterDef, DaemonConfig, Settings, TransportConfig,
};

#[test]
fn defaults() {
    assert_eq!(default_timeout_ms(), 300_000);
    assert_eq!(default_ssh_port(), 22);
}

#[test]
fn config_dir_inside_band_or_platform() {
    assert_eq!(config_dir_for(Some("/band/root"), Some("/home/u/.config")), "/band/root/config");
    assert_eq!(config_dir_for(None, Some("/home/u/.config")), "/home/u/.config/aish");
    assert_eq!(config_dir_for(None, None), "./aish");
}

#[test]
fn agent_add_local() {
    let def = AdapterDef::from_cli("hermes", "local", None, None, 22, None, Some("m1".to_string()));
    assert_eq!(def.id, "local/hermes");
    assert_eq!(def.alias, None);
    assert_eq!(def.default_model.as_deref(), Some("m1"));
    assert_eq!(def.timeout_ms, 300_000);
    match def.transport {
        TransportConfig::Stdio { command, args, env } => {
            assert_eq!(command, "aish-adapter-hermes");
            assert!(args.is_empty());
            assert!(env.is_empty());
        }
        _ => panic!("expected a stdio transport"),
    }
}

#[test]
fn agent_add_remote() {
    let def = AdapterDef::from_cli("openclaw", "remote", Some("box".to_string()), None, 2200, None, None);
    assert_eq!(def.id, "remote/box");
    assert_eq!(def.alias.as_deref(), Some("box"));
    match def.transport {
        TransportConfig::Ssh { host, port, user, key_path, remote_command } => {
            assert_eq!(host, "localhost");
            assert_eq!(port, 2200);
            assert_eq!(user, "root");
            assert_eq!(key_path, None);
            assert_eq!(remote_command, "aish-adapter-openclaw");
        }
        _ => panic!("expected an ssh transport"),
    }
    let def = AdapterDef::from_cli("x", "remote", None, Some("h".to_string()), 22, Some("u".to_string()), None);
    match def.transport {
        TransportConfig::Ssh { host, user, .. } => {
            assert_eq!(host, "h");
            assert_eq!(user, "u");
        }
        _ => panic!("expected an ssh transport"),
    }
}

#[test]
fn daemon_and_settings_defaults() {
    let d = DaemonConfig::default();
    assert!(d.mcp_server.unix_socket.enabled);
    assert_eq!(d.mcp_server.unix_socket.path.as_deref(), Some("~/.aish/daemon.sock"));
    assert!(!d.mcp_server.tcp.enabled);
    assert_eq!(d.mcp_server.tcp.bind, "127.0.0.1");
    assert_eq!(d.mcp_server.tcp.port, 9876);
    assert!(d.mcp_server.tcp.tls.is_none());
    assert!(d.mcp_server.auth_token.is_none());
    let s = Settings::default();
    assert!(s.hot_reload.auto_watch);
    assert!(s.hot_reload.manual_reload);
}

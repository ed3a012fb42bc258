use aish::ssh::SshConfig;

#[test]
fn test_ssh_config_default() {
    let cfg = SshConfig::default();
    assert_eq!(cfg.host, "localhost");
    assert_eq!(cfg.port, 22);
}

#[test]
fn test_to_command_basic() {
    let cfg = SshConfig {
        host: "10.0.0.5".into(),
        port: 22,
        user: "deploy".into(),
        ..Default::default()
    };
    let (cmd, args) = cfg.to_command("aish-adapter-openclaw");
    assert_eq!(cmd, "ssh");
    assert!(args.contains(&"deploy@10.0.0.5".to_string()));
    assert!(args.contains(&"aish-adapter-openclaw".to_string()));
    assert!(args.contains(&"BatchMode=yes".to_string()));
}

#[test]
fn test_to_command_with_key_and_port() {
    let cfg = SshConfig {
        host: "prod.example.com".into(),
        port: 2222,
        user: "admin".into(),
        identity_file: Some("~/.ssh/prod_key".to_string()),
        ..Default::default()
    };
    let (_, args) = cfg.to_command("aish-adapter-hermes");
    assert!(args.contains(&"-p".to_string()));
    assert!(args.contains(&"2222".to_string()));
    assert!(args.contains(&"-i".to_string()));
    assert!(args.contains(&"~/.ssh/prod_key".to_string()));
}

#[test]
fn to_command_exact_arguments_with_every_option() {
    let cfg = SshConfig {
        host: "h".into(),
        port: 2200,
        user: "u".into(),
        identity_file: Some("k".to_string()),
        config_file: Some("c".to_string()),
        extra_args: vec!["-v".to_string()],
    };
    let (cmd, args) = cfg.to_command("run");
    assert_eq!(cmd, "ssh");
    assert_eq!(
        args,
        vec![
            "-o", "BatchMode=yes", "-o", "ConnectTimeout=10", "-o", "ServerAliveInterval=30", "-p", "2200",
            "-i", "k", "-F", "c", "-v", "u@h", "run",
        ]
    );
}

#[test]
fn to_command_default_port_has_no_port_flag() {
    let cfg = SshConfig::default();
    let (_, args) = cfg.to_command("x");
    assert_eq!(
        args,
        vec!["-o", "BatchMode=yes", "-o", "ConnectTimeout=10", "-o", "ServerAliveInterval=30", "root@localhost", "x"]
    );
}

#[test]
fn adapter_command_runs_named_adapter() {
    let cfg = SshConfig::default();
    let (cmd, args) = cfg.adapter_command("hermes");
    assert_eq!(cmd, "ssh");
    assert_eq!(args.last().unwrap(), "aish-adapter-hermes");
}

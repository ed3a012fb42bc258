//! Configuration: the adapters the shell knows, the daemon's listeners and
//! the user's settings, with their defaults.

use crate::outside::{joined, path_join};
use crate::types::clone_strings;
use crate::types::clone_string_pairs;
use vstd::prelude::*;

verus! {

/// How an adapter process is reached.
#[derive(Debug)]
pub enum TransportConfig {
    /// A local process speaking over its standard input and output.
    Stdio { command: String, args: Vec<String>, env: Vec<(String, String)> },
    /// A remote process started over SSH.
    Ssh { host: String, port: u16, user: String, key_path: Option<String>, remote_command: String },
    /// A Unix domain socket.
    Unix { path: String },
    /// A TCP connection, with or without TLS.
    Tcp { host: String, port: u16, tls: bool },
}

/// The mathematical value of a [`TransportConfig`].
pub enum TransportConfigView {
    Stdio { command: Seq<char>, args: Seq<Seq<char>>, env: Seq<(Seq<char>, Seq<char>)> },
    Ssh {
        host: Seq<char>,
        port: u16,
        user: Seq<char>,
        key_path: Option<Seq<char>>,
        remote_command: Seq<char>,
    },
    Unix { path: Seq<char> },
    Tcp { host: Seq<char>, port: u16, tls: bool },
}

impl View for TransportConfig {
    type V = TransportConfigView;

    open spec fn view(&self) -> TransportConfigView {
        match self {
            TransportConfig::Stdio { command, args, env } => TransportConfigView::Stdio {
                command: command@,
                args: args.deep_view(),
                env: env.deep_view(),
            },
            TransportConfig::Ssh { host, port, user, key_path, remote_command } =>
                TransportConfigView::Ssh {
                host: host@,
                port: *port,
                user: user@,
                key_path: key_path.deep_view(),
                remote_command: remote_command@,
            },
            TransportConfig::Unix { path } => TransportConfigView::Unix { path: path@ },
            TransportConfig::Tcp { host, port, tls } => TransportConfigView::Tcp {
                host: host@,
                port: *port,
                tls: *tls,
            },
        }
    }
}

impl Clone for TransportConfig {
    fn clone(&self) -> (res: Self)
        ensures
            res@ == self@,
    {
        match self {
            TransportConfig::Stdio { command, args, env } => TransportConfig::Stdio {
                command: command.clone(),
                args: clone_strings(args),
                env: clone_string_pairs(env),
            },
            TransportConfig::Ssh { host, port, user, key_path, remote_command } =>
                TransportConfig::Ssh {
                host: host.clone(),
                port: *port,
                user: user.clone(),
                key_path: key_path.clone(),
                remote_command: remote_command.clone(),
            },
            TransportConfig::Unix { path } => TransportConfig::Unix { path: path.clone() },
            TransportConfig::Tcp { host, port, tls } => TransportConfig::Tcp {
                host: host.clone(),
                port: *port,
                tls: *tls,
            },
        }
    }
}

/// The timeout of an adapter when its definition gives none: five minutes.
pub fn default_timeout_ms() -> (res: u64)
    ensures
        res == 300_000,
{
    300_000
}

/// The SSH port when a definition gives none.
pub fn default_ssh_port() -> (res: u16)
    ensures
        res == 22,
{
    22
}

/// The definition of one adapter.
#[derive(Debug)]
pub struct AdapterDef {
    pub id: String,
    pub alias: Option<String>,
    pub transport: TransportConfig,
    pub default_model: Option<String>,
    pub timeout_ms: u64,
}

/// The mathematical value of an [`AdapterDef`].
pub struct AdapterDefView {
    pub id: Seq<char>,
    pub alias: Option<Seq<char>>,
    pub transport: TransportConfigView,
    pub default_model: Option<Seq<char>>,
    pub timeout_ms: u64,
}

impl View for AdapterDef {
    type V = AdapterDefView;

    open spec fn view(&self) -> AdapterDefView {
        AdapterDefView {
            id: self.id@,
            alias: self.alias.deep_view(),
            transport: self.transport@,
            default_model: self.default_model.deep_view(),
            timeout_ms: self.timeout_ms,
        }
    }
}

impl Clone for AdapterDef {
    fn clone(&self) -> (res: Self)
        ensures
            res@ == self@,
    {
        AdapterDef {
            id: self.id.clone(),
            alias: self.alias.clone(),
            transport: self.transport.clone(),
            default_model: self.default_model.clone(),
            timeout_ms: self.timeout_ms,
        }
    }
}

/// The identifier the command line gives a new adapter: the mode, `/`, then
/// the alias, or the adapter kind when there is no alias.
pub open spec fn cli_adapter_id(kind: Seq<char>, mode: Seq<char>, name: Option<Seq<char>>) -> Seq<char> {
    mode + seq!['/'] + match name {
        Some(n) => n,
        None => kind,
    }
}

/// The id `aish agent add` gives an adapter is the mode, `/`, then the name
/// when one is given, whatever the mode, and the adapter kind otherwise. So
/// two adapters added in one mode under different names get different ids,
/// whatever their kinds.
pub proof fn lemma_cli_id_uses_the_name(kind: Seq<char>, other_kind: Seq<char>, mode: Seq<char>, name: Seq<char>, other_name: Seq<char>)
    ensures
        cli_adapter_id(kind, mode, Some(name)) == mode + seq!['/'] + name,
        cli_adapter_id(kind, mode, None) == mode + seq!['/'] + kind,
        cli_adapter_id(kind, mode, Some(name)).skip(mode.len() + 1int) == name,
        cli_adapter_id(kind, mode, Some(name)) == cli_adapter_id(other_kind, mode, Some(other_name)) ==> name
            == other_name,
{
    let id = cli_adapter_id(kind, mode, Some(name));
    assert(id.skip(mode.len() + 1int) =~= name);
    let other = cli_adapter_id(other_kind, mode, Some(other_name));
    assert(other.skip(mode.len() + 1int) =~= other_name);
}

/// The program that serves an adapter kind: `aish-adapter-<kind>`.
pub open spec fn adapter_program(kind: Seq<char>) -> Seq<char> {
    "aish-adapter-"@ + kind
}

/// The transport `aish agent add` gives an adapter: see [`AdapterDef::from_cli`].
pub open spec fn cli_transport(
    kind: Seq<char>,
    mode: Seq<char>,
    host: Option<Seq<char>>,
    port: u16,
    user: Option<Seq<char>>,
) -> TransportConfigView {
    if mode == "remote"@ {
        TransportConfigView::Ssh {
            host: match host {
                Some(h) => h,
                None => "localhost"@,
            },
            port,
            user: match user {
                Some(u) => u,
                None => "root"@,
            },
            key_path: None,
            remote_command: adapter_program(kind),
        }
    } else {
        TransportConfigView::Stdio { command: adapter_program(kind), args: seq![], env: seq![] }
    }
}

/// The command an adapter added from the command line runs is its kind's
/// program, `aish-adapter-` then the kind, so different kinds run different
/// programs. In `remote` mode it runs over SSH on the given host (else
/// `localhost`) as the given user (else `root`), on the given port; in any
/// other mode it runs locally with no arguments.
pub proof fn lemma_cli_transport_runs_the_kind(
    kind: Seq<char>,
    other_kind: Seq<char>,
    mode: Seq<char>,
    host: Option<Seq<char>>,
    port: u16,
    user: Option<Seq<char>>,
)
    ensures
        adapter_program(kind).skip(13) == kind,
        adapter_program(kind) == adapter_program(other_kind) ==> kind == other_kind,
        mode == "remote"@ ==> (cli_transport(kind, mode, host, port, user) matches TransportConfigView::Ssh {
            host: h,
            port: p,
            user: u,
            key_path,
            remote_command,
        } && remote_command == adapter_program(kind) && p == port && key_path is None && (host matches Some(x)
            ==> h == x) && (user matches Some(x) ==> u == x)),
        mode != "remote"@ ==> cli_transport(kind, mode, host, port, user) == (TransportConfigView::Stdio {
            command: adapter_program(kind),
            args: seq![],
            env: seq![],
        }),
{
    reveal_strlit("aish-adapter-");
    assert(adapter_program(kind).skip(13) =~= kind);
    assert(adapter_program(other_kind).skip(13) =~= other_kind);
}

impl AdapterDef {
    /// The definition `aish agent add` writes: a remote adapter (mode `remote`)
    /// is reached over SSH, on `localhost` as `root` unless host or user are
    /// given, and runs `aish-adapter-<kind>` there; any other adapter runs
    /// `aish-adapter-<kind>` locally with no arguments or environment. The
    /// timeout is the default one.
    pub fn from_cli(
        kind: &str,
        mode: &str,
        name: Option<String>,
        host: Option<String>,
        port: u16,
        user: Option<String>,
        model: Option<String>,
    ) -> (res: AdapterDef)
        ensures
            res@ == (AdapterDefView {
                id: cli_adapter_id(kind@, mode@, name.deep_view()),
                alias: name.deep_view(),
                transport: cli_transport(kind@, mode@, host.deep_view(), port, user.deep_view()),
                default_model: model.deep_view(),
                timeout_ms: 300_000,
            }),
    {
        proof {
            reveal_strlit("/");
            reveal_strlit("remote");
            reveal_strlit("localhost");
            reveal_strlit("root");
            reveal_strlit("aish-adapter-");
        }
        let mut id = String::from_str(mode);
        id.append("/");
        match &name {
            Some(n) => id.append(n.as_str()),
            None => id.append(kind),
        }
        let mut program = String::from_str("aish-adapter-");
        program.append(kind);
        assert(program@ =~= adapter_program(kind@));
        let transport = if crate::text::str_eq(mode, "remote") {
            TransportConfig::Ssh {
                host: match host {
                    Some(h) => h,
                    None => String::from_str("localhost"),
                },
                port,
                user: match user {
                    Some(u) => u,
                    None => String::from_str("root"),
                },
                key_path: None,
                remote_command: program,
            }
        } else {
            let args: Vec<String> = Vec::new();
            let env: Vec<(String, String)> = Vec::new();
            assert(args.deep_view() =~= seq![]);
            assert(env.deep_view() =~= seq![]);
            TransportConfig::Stdio { command: program, args, env }
        };
        assert(id@ =~= cli_adapter_id(kind@, mode@, name.deep_view()));
        assert(transport@ =~= cli_transport(kind@, mode@, host.deep_view(), port, user.deep_view()));
        AdapterDef { id, alias: name, transport, default_model: model, timeout_ms: 300_000 }
    }
}

/// All adapters the shell knows (`adapters.ron`).
#[derive(Debug)]
pub struct AdaptersConfig {
    pub adapters: Vec<AdapterDef>,
}

/// The daemon's configuration (`daemon.ron`).
#[derive(Debug)]
pub struct DaemonConfig {
    pub mcp_server: McpServerConfig,
}

/// Where the daemon listens, and the token clients must present.
#[derive(Debug)]
pub struct McpServerConfig {
    pub unix_socket: UnixSocketConfig,
    pub tcp: TcpConfig,
    pub auth_token: Option<String>,
}

/// The daemon's Unix socket listener.
#[derive(Debug)]
pub struct UnixSocketConfig {
    pub enabled: bool,
    pub path: Option<String>,
}

/// The daemon's TCP listener.
#[derive(Debug)]
pub struct TcpConfig {
    pub enabled: bool,
    pub bind: String,
    pub port: u16,
    pub tls: Option<TlsConfig>,
}

/// Certificate and key of a TLS listener.
#[derive(Debug)]
pub struct TlsConfig {
    pub cert_path: String,
    pub key_path: String,
}

/// The user's settings (`settings.ron`).
#[derive(Debug)]
pub struct Settings {
    pub hot_reload: HotReloadConfig,
}

/// Whether configuration files are watched, and whether a manual reload is
/// offered.
#[derive(Debug)]
pub struct HotReloadConfig {
    pub auto_watch: bool,
    pub manual_reload: bool,
}

impl Default for Settings {
    /// Both watching and manual reload are on.
    fn default() -> (res: Settings)
        ensures
            res.hot_reload.auto_watch,
            res.hot_reload.manual_reload,
    {
        Settings { hot_reload: HotReloadConfig { auto_watch: true, manual_reload: true } }
    }
}

impl Default for DaemonConfig {
    /// The Unix socket `~/.aish/daemon.sock` is on; TCP on `127.0.0.1:9876`
    /// is off and without TLS; no token is asked for.
    fn default() -> (res: DaemonConfig)
        ensures
            res.mcp_server.unix_socket.enabled,
            res.mcp_server.unix_socket.path is Some,
            res.mcp_server.unix_socket.path->0@ == "~/.aish/daemon.sock"@,
            !res.mcp_server.tcp.enabled,
            res.mcp_server.tcp.bind@ == "127.0.0.1"@,
            res.mcp_server.tcp.port == 9876,
            res.mcp_server.tcp.tls is None,
            res.mcp_server.auth_token is None,
    {
        DaemonConfig {
            mcp_server: McpServerConfig {
                unix_socket: UnixSocketConfig {
                    enabled: true,
                    path: Some(String::from_str("~/.aish/daemon.sock")),
                },
                tcp: TcpConfig {
                    enabled: false,
                    bind: String::from_str("127.0.0.1"),
                    port: 9876,
                    tls: None,
                },
                auth_token: None,
            },
        }
    }
}

/// The configuration directory: `<band root>/config` inside a band (the
/// variable `AISH_BAND_ROOT` is set), else `aish` under the platform's
/// configuration directory, or under `.` when the platform has none.
pub open spec fn spec_config_dir_for(band_root: Option<Seq<char>>, platform_dir: Option<Seq<char>>) -> Seq<char> {
    match band_root {
        Some(root) => joined(root, "config"@),
        None => joined(
            match platform_dir {
                Some(d) => d,
                None => "."@,
            },
            "aish"@,
        ),
    }
}

/// The configuration directory, given the value of `AISH_BAND_ROOT` and the
/// platform's configuration directory, each when there is one.
pub fn config_dir_for(band_root: Option<&str>, platform_dir: Option<&str>) -> (res: String)
    ensures
        res@ == spec_config_dir_for(
            match band_root {
                Some(r) => Some(r@),
                None => None,
            },
            match platform_dir {
                Some(d) => Some(d@),
                None => None,
            },
        ),
{
    proof {
        reveal_strlit("config");
        reveal_strlit("aish");
    }
    match band_root {
        Some(root) => path_join(root, "config"),
        None => match platform_dir {
            Some(dir) => path_join(dir, "aish"),
            None => path_join(".", "aish"),
        },
    }
}

} // verus!

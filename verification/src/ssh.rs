//! SSH connection parameters, and the `ssh` command line that runs an adapter
//! on a remote host through the system's own `ssh` (so its configuration,
//! keys, agent and known hosts all apply).

use crate::outside::{decimal, u64_text};
use vstd::prelude::*;

verus! {

/// SSH connection parameters.
#[derive(Debug)]
pub struct SshConfig {
    pub host: String,
    pub port: u16,
    pub user: String,
    /// Identity file (`-i`).
    pub identity_file: Option<String>,
    /// SSH configuration file (`-F`).
    pub config_file: Option<String>,
    /// Further arguments, passed as they are.
    pub extra_args: Vec<String>,
}

/// The mathematical value of an [`SshConfig`].
pub struct SshConfigView {
    pub host: Seq<char>,
    pub port: u16,
    pub user: Seq<char>,
    pub identity_file: Option<Seq<char>>,
    pub config_file: Option<Seq<char>>,
    pub extra_args: Seq<Seq<char>>,
}

impl View for SshConfig {
    type V = SshConfigView;

    open spec fn view(&self) -> SshConfigView {
        SshConfigView {
            host: self.host@,
            port: self.port,
            user: self.user@,
            identity_file: self.identity_file.deep_view(),
            config_file: self.config_file.deep_view(),
            extra_args: self.extra_args.deep_view(),
        }
    }
}

impl Default for SshConfig {
    /// `root@localhost` on port 22, with no identity file, configuration file
    /// or further arguments.
    fn default() -> (res: SshConfig)
        ensures
            res@.host == "localhost"@,
            res@.port == 22,
            res@.user == "root"@,
            res@.identity_file is None,
            res@.config_file is None,
            res@.extra_args.len() == 0,
    {
        let extra_args: Vec<String> = Vec::new();
        assert(extra_args.deep_view() =~= seq![]);
        SshConfig {
            host: String::from_str("localhost"),
            port: 22,
            user: String::from_str("root"),
            identity_file: None,
            config_file: None,
            extra_args,
        }
    }
}

/// The options every connection gets: batch mode (never ask for a
/// password), a 10 s connection timeout, and a keep-alive every 30 s.
pub open spec fn ssh_base_options() -> Seq<Seq<char>> {
    seq!["-o"@, "BatchMode=yes"@, "-o"@, "ConnectTimeout=10"@, "-o"@, "ServerAliveInterval=30"@]
}

/// The arguments of `ssh` that run `remote` on the configured host: the base
/// options; `-p <port>` unless the port is 22; `-i <identity file>` and
/// `-F <configuration file>` when given; the further arguments; then
/// `<user>@<host>` and the remote command.
pub open spec fn ssh_args(c: SshConfigView, remote: Seq<char>) -> Seq<Seq<char>> {
    ssh_base_options() + (if c.port != 22 {
        seq!["-p"@, decimal(c.port as nat)]
    } else {
        seq![]
    }) + (match c.identity_file {
        Some(k) => seq!["-i"@, k],
        None => seq![],
    }) + (match c.config_file {
        Some(f) => seq!["-F"@, f],
        None => seq![],
    }) + c.extra_args + seq![c.user + "@"@ + c.host, remote]
}

impl SshConfig {
    /// The program (`ssh`) and its arguments that run `remote_command` on the
    /// host, with its standard input and output piped through the connection;
    /// see [`ssh_args`].
    pub fn to_command(&self, remote_command: &str) -> (res: (String, Vec<String>))
        ensures
            res.0@ == "ssh"@,
            res.1.deep_view() == ssh_args(self@, remote_command@),
    {
        let mut args: Vec<String> = Vec::new();
        args.push(String::from_str("-o"));
        args.push(String::from_str("BatchMode=yes"));
        args.push(String::from_str("-o"));
        args.push(String::from_str("ConnectTimeout=10"));
        args.push(String::from_str("-o"));
        args.push(String::from_str("ServerAliveInterval=30"));
        assert(args.deep_view() =~= ssh_base_options());
        let ghost after_base = args.deep_view();
        if self.port != 22 {
            args.push(String::from_str("-p"));
            args.push(u64_text(self.port as u64));
        }
        let ghost port_part = if self.port != 22 {
            seq!["-p"@, decimal(self.port as nat)]
        } else {
            seq![]
        };
        assert(args.deep_view() =~= after_base + port_part);
        let ghost after_port = args.deep_view();
        match &self.identity_file {
            Some(key) => {
                args.push(String::from_str("-i"));
                args.push(key.clone());
            },
            None => {},
        }
        let ghost key_part = match self@.identity_file {
            Some(k) => seq!["-i"@, k],
            None => seq![],
        };
        assert(args.deep_view() =~= after_port + key_part);
        let ghost after_key = args.deep_view();
        match &self.config_file {
            Some(cfg) => {
                args.push(String::from_str("-F"));
                args.push(cfg.clone());
            },
            None => {},
        }
        let ghost cfg_part = match self@.config_file {
            Some(f) => seq!["-F"@, f],
            None => seq![],
        };
        assert(args.deep_view() =~= after_key + cfg_part);
        let ghost after_cfg = args.deep_view();
        let mut i: usize = 0;
        while i < self.extra_args.len()
            invariant
                i <= self.extra_args@.len(),
                args.deep_view() == after_cfg + self.extra_args.deep_view().take(i as int),
            decreases self.extra_args@.len() - i,
        {
            let ghost prev = args.deep_view();
            args.push(self.extra_args[i].clone());
            assert(args.deep_view() =~= prev.push(self.extra_args@[i as int]@));
            assert(self.extra_args.deep_view()[i as int] == self.extra_args@[i as int]@);
            assert(args.deep_view() =~= after_cfg + self.extra_args.deep_view().take(i + 1));
            i = i + 1;
        }
        assert(self.extra_args.deep_view().take(self.extra_args@.len() as int) =~= self.extra_args.deep_view());
        let mut target = self.user.clone();
        target.append("@");
        target.append(self.host.as_str());
        args.push(target);
        args.push(String::from_str(remote_command));
        proof {
            reveal_strlit("-o");
            reveal_strlit("-p");
            reveal_strlit("-i");
            reveal_strlit("-F");
            reveal_strlit("@");
            assert(args.deep_view() =~= ssh_args(self@, remote_command@));
        }
        (String::from_str("ssh"), args)
    }

    /// The command that runs the standard adapter `aish-adapter-<kind>` on the
    /// host.
    pub fn adapter_command(&self, adapter_type: &str) -> (res: (String, Vec<String>))
        ensures
            res.0@ == "ssh"@,
            res.1.deep_view() == ssh_args(self@, "aish-adapter-"@ + adapter_type@),
    {
        let mut remote = String::from_str("aish-adapter-");
        remote.append(adapter_type);
        self.to_command(remote.as_str())
    }
}

} // verus!

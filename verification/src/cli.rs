//! The command-line commands as values, which sub-command runs when none is
//! named, and the small texts of the `daemon` command.

use vstd::prelude::*;
use crate::text::{decimal, owned, parse_u64, parsed_u64, push_decimal, push_str, trim, trimmed};

verus! {

/// `pulsos auth` and its flags.
#[derive(Debug)]
pub struct AuthArgs {
    pub command: Option<AuthCommand>,
    /// Only read tokens from the environment.
    pub from_env: bool,
    /// Store the given tokens without prompting.
    pub ci: bool,
    pub github_token: Option<String>,
    pub railway_token: Option<String>,
    pub vercel_token: Option<String>,
}

#[derive(Debug)]
pub enum AuthCommand {
    Status,
    Github { token: Option<String> },
    Railway { token: Option<String> },
    Vercel { token: Option<String> },
    Logout { platform: Option<String> },
    Refresh { platform: Option<String> },
}

/// `pulsos repos`.
#[derive(Debug)]
pub struct ReposArgs {
    pub command: Option<ReposCommand>,
}

#[derive(Debug)]
pub enum GroupsCommand {
    List,
    Create { name: String, resources: Vec<String> },
    Delete { name: String },
}

#[derive(Debug)]
pub enum ReposCommand {
    Sync,
    List,
    Add { resource: String },
    Remove { resource: String },
    Correlate { name: String },
    Groups { command: Option<GroupsCommand> },
    Verify,
}

/// `pulsos views`.
#[derive(Debug)]
pub struct ViewsArgs {
    pub command: Option<ViewsCommand>,
}

#[derive(Debug)]
pub enum ViewsCommand {
    List,
    Show { name: String },
    Create,
    Delete { name: String },
    Edit { name: String },
    Templates,
    Validate { name: String },
    /// `output` is a file path.
    Export { name: String, output: Option<String> },
    /// `file` is a file path.
    Import { file: String },
}

/// `pulsos config`.
#[derive(Debug)]
pub struct ConfigArgs {
    pub command: Option<ConfigCommand>,
}

#[derive(Debug, Clone, Copy, PartialEq, Eq, Structural)]
pub enum ConfigCommand {
    Show,
    Path,
    Edit,
    Wizard,
}

/// `pulsos daemon`.
#[derive(Debug)]
pub struct DaemonArgs {
    pub action: DaemonAction,
}

#[derive(Debug, Clone, Copy, PartialEq, Eq, Structural)]
pub enum DaemonAction {
    Run,
    Start,
    Stop,
    Status,
}

/// `pulsos doctor` takes no arguments.
#[derive(Debug)]
pub struct DoctorArgs {}

impl AuthArgs {
    /// The command to run: the status report when none is named.
    pub fn command_or_default(self) -> (r: AuthCommand)
        ensures
            match self.command {
                Some(c) => r == c,
                None => r is Status,
            },
    {
        match self.command {
            Some(c) => c,
            None => AuthCommand::Status,
        }
    }
}

impl ReposArgs {
    /// The command to run: a sync when none is named.
    pub fn command_or_default(self) -> (r: ReposCommand)
        ensures
            match self.command {
                Some(c) => r == c,
                None => r is Sync,
            },
    {
        match self.command {
            Some(c) => c,
            None => ReposCommand::Sync,
        }
    }
}

/// The group command to run: the listing when none is named.
pub fn groups_command_or_default(command: Option<GroupsCommand>) -> (r: GroupsCommand)
    ensures
        match command {
            Some(c) => r == c,
            None => r is List,
        },
{
    match command {
        Some(c) => c,
        None => GroupsCommand::List,
    }
}

impl ViewsArgs {
    /// The command to run: the listing when none is named.
    pub fn command_or_default(self) -> (r: ViewsCommand)
        ensures
            match self.command {
                Some(c) => r == c,
                None => r is List,
            },
    {
        match self.command {
            Some(c) => c,
            None => ViewsCommand::List,
        }
    }
}

impl ConfigArgs {
    /// The command to run: showing the configuration when none is named.
    pub fn command_or_default(&self) -> (r: ConfigCommand)
        ensures
            match self.command {
                Some(c) => r == c,
                None => r == ConfigCommand::Show,
            },
    {
        match self.command {
            Some(c) => c,
            None => ConfigCommand::Show,
        }
    }
}

/// The port the background service listens on, as its port file holds it.
pub open spec fn port_in(text: Seq<char>) -> Option<u16> {
    match parsed_u64(trimmed(text)) {
        Some(v) => if v <= u16::MAX {
            Some(v as u16)
        } else {
            None
        },
        None => None,
    }
}

/// The port the background service listens on.
pub fn parse_port(text: &str) -> (r: Option<u16>)
    ensures
        r == port_in(text@),
{
    let t = trim(text);
    match parse_u64(t.as_str()) {
        Some(v) => if v <= 0xffff {
            Some(v as u16)
        } else {
            None
        },
        None => None,
    }
}

/// The address of the service's health check.
pub fn health_url(port: u16) -> (r: String)
    ensures
        r@ == "http://127.0.0.1:"@ + decimal(port as nat) + "/health"@,
{
    let mut out = owned("http://127.0.0.1:");
    push_decimal(&mut out, port as u64);
    push_str(&mut out, "/health");
    out
}

/// What `daemon status` reports: no port file, a healthy service, or a port
/// file whose service does not answer.
pub fn daemon_status_line(port: Option<u16>, healthy: bool) -> (r: String)
    ensures
        r@ == match port {
            None => "Daemon is not running (no port file found)."@,
            Some(p) => if healthy {
                "Daemon is running on port "@ + decimal(p as nat) + "."@
            } else {
                "Daemon port file exists (port "@ + decimal(p as nat) + ") but health check failed."@
            },
        },
{
    match port {
        None => owned("Daemon is not running (no port file found)."),
        Some(p) => {
            if healthy {
                let mut out = owned("Daemon is running on port ");
                push_decimal(&mut out, p as u64);
                push_str(&mut out, ".");
                out
            } else {
                let mut out = owned("Daemon port file exists (port ");
                push_decimal(&mut out, p as u64);
                push_str(&mut out, ") but health check failed.");
                out
            }
        },
    }
}

/// The line after stopping the service.
pub fn daemon_stopped_line(pid: u32) -> (r: String)
    ensures
        r@ == "Daemon (PID "@ + decimal(pid as nat) + ") stopped."@,
{
    let mut out = owned("Daemon (PID ");
    push_decimal(&mut out, pid as u64);
    push_str(&mut out, ") stopped.");
    out
}

} // verus!

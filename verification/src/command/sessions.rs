//! What the agents left behind, and what this machine can run, as commands.
//!
//! Nothing here takes a path through the trust boundary: the working
//! directories are compared as strings against what the agents recorded and
//! are never opened.

use vstd::prelude::*;

use crate::command::params::{
    bool_member, bool_param, clamp, clamp_u32, i64_member, i64_param, list_member, member, missing,
    opt_str_param, opt_text, or_text, str_list, str_member, str_param, take_member, text_or,
    u32_member, u32_param, Param, Params,
};
use crate::command::table::all_methods;
use crate::command::{capability_in, lemma_capability_by_name, wire_shape, Capability, Wire, WireShape};
use crate::text::{chars_of, push_str, string_of, strs, text_is};

verus! {

/// Which terminal the caller is, for the one command that has to tell its
/// own live session from a neighbour's.
#[derive(Debug, Clone)]
pub enum Own {
    /// What the caller said: a terminal id the host minted.
    Pty(Option<String>),
    /// What the host answered: the process that terminal runs.
    Pid(Option<u32>),
}

/// One sessions command, carrying its arguments.
#[derive(Debug)]
pub enum Sessions {
    /// The session an agent opened in this directory, if it is not one the
    /// caller already has or one somebody else is holding open.
    Find {
        kind: String,
        cwd: String,
        after_unix_ms: i64,
        exclude_ids: Vec<String>,
        session_id: Option<String>,
        own: Own,
    },
    /// Agent CLI sessions that are still open.
    LiveClaude,
    /// What each named thread's agent is doing. The queries are kept as the
    /// client sent them (an empty list when it sent none), for the module that
    /// reads turns to take apart.
    AgentTurns {
        queries: Param,
    },
    /// Tokens and money per directory.
    Usage {
        cwds: Vec<String>,
        days: u32,
        orchestrator_sessions: Vec<String>,
    },
    StopClaude {
        session_id: String,
    },
    CopilotResumable {
        session_id: String,
    },
    /// A thread that changed project takes its transcript along.
    Migrate {
        kind: String,
        session_id: String,
        from_cwd: String,
        to_cwd: String,
    },
    ShellDefault,
    ShellAvailable {
        refresh: bool,
    },
    CommandExists {
        cmd: String,
    },
    FastpickList {
        provider: Option<String>,
        refresh: bool,
    },
    FastpickVersion,
    CodexSwitcherList,
    CodexSwitcherSave,
    CodexSwitcherActivate {
        account_id: String,
    },
    CodexSwitcherVersion,
    FastMcpSshVersion,
    KebaccSwitcherList {
        provider: Option<String>,
    },
    KebaccSwitcherAdd {
        provider: String,
    },
    KebaccSwitcherSwitch {
        provider: String,
        email: String,
    },
    KebaccSwitcherVersion,
    /// What a terminal printed, from the end, at most a mebibyte of it. `dir` is
    /// the host's answer, never the caller's.
    Transcript {
        thread_id: String,
        bytes: u32,
        dir: Option<String>,
    },
    CliCatalog {
        probe_versions: bool,
    },
    CliLatest,
    CliJobs,
    CliDataPaths {
        id: String,
    },
    CliInstall {
        id: String,
    },
    CliUninstall {
        id: String,
        purge_data: bool,
    },
    CliCancel {
        id: String,
    },
    CliDismiss {
        id: String,
    },
    McpCatalog,
}

pub open spec fn sessions_name(x: Sessions) -> Seq<char> {
    match x {
        Sessions::Find { .. } => "session.find"@,
        Sessions::LiveClaude => "session.liveClaude"@,
        Sessions::AgentTurns { .. } => "session.agentTurns"@,
        Sessions::Usage { .. } => "session.usage"@,
        Sessions::StopClaude { .. } => "session.stopClaude"@,
        Sessions::CopilotResumable { .. } => "session.copilotResumable"@,
        Sessions::Migrate { .. } => "session.migrate"@,
        Sessions::ShellDefault => "shell.default"@,
        Sessions::ShellAvailable { .. } => "shell.available"@,
        Sessions::CommandExists { .. } => "shell.commandExists"@,
        Sessions::FastpickList { .. } => "fastpick.list"@,
        Sessions::FastpickVersion => "fastpick.version"@,
        Sessions::CodexSwitcherList => "codexSwitcher.list"@,
        Sessions::CodexSwitcherSave => "codexSwitcher.save"@,
        Sessions::CodexSwitcherActivate { .. } => "codexSwitcher.activate"@,
        Sessions::CodexSwitcherVersion => "codexSwitcher.version"@,
        Sessions::FastMcpSshVersion => "fastMcpSsh.version"@,
        Sessions::KebaccSwitcherList { .. } => "kebaccSwitcher.list"@,
        Sessions::KebaccSwitcherAdd { .. } => "kebaccSwitcher.add"@,
        Sessions::KebaccSwitcherSwitch { .. } => "kebaccSwitcher.switch"@,
        Sessions::KebaccSwitcherVersion => "kebaccSwitcher.version"@,
        Sessions::Transcript { .. } => "session.transcript"@,
        Sessions::CliCatalog { .. } => "cli.catalog"@,
        Sessions::CliLatest => "cli.latest"@,
        Sessions::CliJobs => "cli.jobs"@,
        Sessions::CliDataPaths { .. } => "cli.dataPaths"@,
        Sessions::CliInstall { .. } => "cli.install"@,
        Sessions::CliUninstall { .. } => "cli.uninstall"@,
        Sessions::CliCancel { .. } => "cli.cancel"@,
        Sessions::CliDismiss { .. } => "cli.dismiss"@,
        Sessions::McpCatalog => "mcp.catalog"@,
    }
}

pub open spec fn sessions_wire(x: Sessions) -> WireShape {
    match x {
        Sessions::Find { .. } => WireShape::Key("session"@),
        Sessions::LiveClaude => WireShape::Key("sessions"@),
        Sessions::AgentTurns { .. } => WireShape::Key("turns"@),
        Sessions::Usage { .. } => WireShape::Bare,
        Sessions::StopClaude { .. } => WireShape::Key("stopped"@),
        Sessions::CopilotResumable { .. } => WireShape::Key("resumable"@),
        Sessions::Migrate { .. } => WireShape::Key("migrated"@),
        Sessions::ShellDefault => WireShape::Key("shell"@),
        Sessions::ShellAvailable { .. } => WireShape::Key("shells"@),
        Sessions::CommandExists { .. } => WireShape::Key("found"@),
        Sessions::FastpickList { .. } => WireShape::Key("json"@),
        Sessions::FastpickVersion => WireShape::Key("version"@),
        Sessions::CodexSwitcherList => WireShape::Key("json"@),
        Sessions::CodexSwitcherSave => WireShape::Key("json"@),
        Sessions::CodexSwitcherActivate { .. } => WireShape::Key("json"@),
        Sessions::CodexSwitcherVersion => WireShape::Key("version"@),
        Sessions::FastMcpSshVersion => WireShape::Key("version"@),
        Sessions::KebaccSwitcherList { .. } => WireShape::Key("json"@),
        Sessions::KebaccSwitcherAdd { .. } => WireShape::Key("json"@),
        Sessions::KebaccSwitcherSwitch { .. } => WireShape::Key("json"@),
        Sessions::KebaccSwitcherVersion => WireShape::Key("version"@),
        Sessions::Transcript { .. } => WireShape::Key("text"@),
        Sessions::CliCatalog { .. } => WireShape::Key("clis"@),
        Sessions::CliLatest => WireShape::Key("latest"@),
        Sessions::CliJobs => WireShape::Key("jobs"@),
        Sessions::CliDataPaths { .. } => WireShape::Key("paths"@),
        Sessions::CliInstall { .. } => WireShape::Key("job"@),
        Sessions::CliUninstall { .. } => WireShape::Key("job"@),
        Sessions::CliCancel { .. } => WireShape::Key("cancelled"@),
        Sessions::CliDismiss { .. } => WireShape::Key("dismissed"@),
        Sessions::McpCatalog => WireShape::Key("servers"@),
    }
}

/// Most of the domain reads what the agents left on disk; stopping a
/// session, moving a transcript and switching accounts write; installing a
/// binary or deleting a tool's data changes the machine itself.
pub open spec fn sessions_capability(x: Sessions) -> Capability {
    match x {
        Sessions::Find { .. } => Capability::ReadProject,
        Sessions::LiveClaude => Capability::ReadProject,
        Sessions::AgentTurns { .. } => Capability::ReadProject,
        Sessions::Usage { .. } => Capability::ReadProject,
        Sessions::StopClaude { .. } => Capability::MutateProject,
        Sessions::CopilotResumable { .. } => Capability::ReadProject,
        Sessions::Migrate { .. } => Capability::MutateProject,
        Sessions::ShellDefault => Capability::ReadProject,
        Sessions::ShellAvailable { .. } => Capability::ReadProject,
        Sessions::CommandExists { .. } => Capability::ReadProject,
        Sessions::FastpickList { .. } => Capability::ReadProject,
        Sessions::FastpickVersion => Capability::ReadProject,
        Sessions::CodexSwitcherList => Capability::ReadProject,
        Sessions::CodexSwitcherSave => Capability::MutateProject,
        Sessions::CodexSwitcherActivate { .. } => Capability::MutateProject,
        Sessions::CodexSwitcherVersion => Capability::ReadProject,
        Sessions::FastMcpSshVersion => Capability::ReadProject,
        Sessions::KebaccSwitcherList { .. } => Capability::ReadProject,
        Sessions::KebaccSwitcherAdd { .. } => Capability::MutateProject,
        Sessions::KebaccSwitcherSwitch { .. } => Capability::MutateProject,
        Sessions::KebaccSwitcherVersion => Capability::ReadProject,
        Sessions::Transcript { .. } => Capability::ReadProject,
        Sessions::CliCatalog { .. } => Capability::ReadProject,
        Sessions::CliLatest => Capability::ReadProject,
        Sessions::CliJobs => Capability::ReadProject,
        Sessions::CliDataPaths { .. } => Capability::ReadProject,
        Sessions::CliInstall { .. } => Capability::MutateAcross,
        Sessions::CliUninstall { .. } => Capability::MutateAcross,
        Sessions::CliCancel { .. } => Capability::MutateProject,
        Sessions::CliDismiss { .. } => Capability::MutateProject,
        Sessions::McpCatalog => Capability::ReadProject,
    }
}

/// Whether `x` is what method `m` with parameters `p` decodes into: the
/// method's own variant, each argument read from the member of its name.
pub open spec fn sessions_decoded(m: Seq<char>, p: Params, x: Sessions) -> bool {
    if m == "session.find"@ {
        match x {
            Sessions::Find { kind, cwd, after_unix_ms, exclude_ids, session_id, own } => {
                &&& str_member(p, "kind"@) == Some(kind@)
                &&& str_member(p, "cwd"@) == Some(cwd@)
                &&& after_unix_ms == (match i64_member(p, "afterUnixMs"@) { Some(n) => n, None => 0i64 })
                &&& strs(exclude_ids@) == list_member(p, "excludeIds"@)
                &&& str_member(p, "sessionId"@) == opt_text(session_id)
                &&& (match own { Own::Pty(o) => opt_text(o) == str_member(p, "ptyId"@), _ => false })
            },
            _ => false,
        }
    } else if m == "session.liveClaude"@ {
        x is LiveClaude
    } else if m == "session.agentTurns"@ {
        match x {
            Sessions::AgentTurns { queries } => {
                &&& (match member(p.fields@, "queries"@) { Some(v) => queries == v, None => (match queries { Param::List(items) => items@.len() == 0, _ => false }) })
            },
            _ => false,
        }
    } else if m == "session.usage"@ {
        match x {
            Sessions::Usage { cwds, days, orchestrator_sessions } => {
                &&& strs(cwds@) == list_member(p, "cwds"@)
                &&& days == u32_member(p, "days"@, 365)
                &&& strs(orchestrator_sessions@) == list_member(p, "orchestratorSessions"@)
            },
            _ => false,
        }
    } else if m == "session.stopClaude"@ {
        match x {
            Sessions::StopClaude { session_id } => {
                &&& str_member(p, "sessionId"@) == Some(session_id@)
            },
            _ => false,
        }
    } else if m == "session.copilotResumable"@ {
        match x {
            Sessions::CopilotResumable { session_id } => {
                &&& str_member(p, "sessionId"@) == Some(session_id@)
            },
            _ => false,
        }
    } else if m == "session.migrate"@ {
        match x {
            Sessions::Migrate { kind, session_id, from_cwd, to_cwd } => {
                &&& str_member(p, "kind"@) == Some(kind@)
                &&& str_member(p, "sessionId"@) == Some(session_id@)
                &&& str_member(p, "fromCwd"@) == Some(from_cwd@)
                &&& str_member(p, "toCwd"@) == Some(to_cwd@)
            },
            _ => false,
        }
    } else if m == "shell.default"@ {
        x is ShellDefault
    } else if m == "shell.available"@ {
        match x {
            Sessions::ShellAvailable { refresh } => {
                &&& refresh == bool_member(p, "refresh"@, false)
            },
            _ => false,
        }
    } else if m == "shell.commandExists"@ {
        match x {
            Sessions::CommandExists { cmd } => {
                &&& str_member(p, "cmd"@) == Some(cmd@)
            },
            _ => false,
        }
    } else if m == "fastpick.list"@ {
        match x {
            Sessions::FastpickList { provider, refresh } => {
                &&& str_member(p, "provider"@) == opt_text(provider)
                &&& refresh == bool_member(p, "refresh"@, false)
            },
            _ => false,
        }
    } else if m == "fastpick.version"@ {
        x is FastpickVersion
    } else if m == "codexSwitcher.list"@ {
        x is CodexSwitcherList
    } else if m == "codexSwitcher.save"@ {
        x is CodexSwitcherSave
    } else if m == "codexSwitcher.activate"@ {
        match x {
            Sessions::CodexSwitcherActivate { account_id } => {
                &&& account_id@ == or_text(str_member(p, "accountId"@), ""@)
            },
            _ => false,
        }
    } else if m == "codexSwitcher.version"@ {
        x is CodexSwitcherVersion
    } else if m == "fastMcpSsh.version"@ {
        x is FastMcpSshVersion
    } else if m == "kebaccSwitcher.list"@ {
        match x {
            Sessions::KebaccSwitcherList { provider } => {
                &&& str_member(p, "provider"@) == opt_text(provider)
            },
            _ => false,
        }
    } else if m == "kebaccSwitcher.add"@ {
        match x {
            Sessions::KebaccSwitcherAdd { provider } => {
                &&& str_member(p, "provider"@) == Some(provider@)
            },
            _ => false,
        }
    } else if m == "kebaccSwitcher.switch"@ {
        match x {
            Sessions::KebaccSwitcherSwitch { provider, email } => {
                &&& str_member(p, "provider"@) == Some(provider@)
                &&& str_member(p, "email"@) == Some(email@)
            },
            _ => false,
        }
    } else if m == "kebaccSwitcher.version"@ {
        x is KebaccSwitcherVersion
    } else if m == "session.transcript"@ {
        match x {
            Sessions::Transcript { thread_id, bytes, dir } => {
                &&& str_member(p, "threadId"@) == Some(thread_id@)
                &&& bytes == clamp_u32(u32_member(p, "bytes"@, 16_384), 0, 0x10_0000)
                &&& dir == None::<String>
            },
            _ => false,
        }
    } else if m == "cli.catalog"@ {
        match x {
            Sessions::CliCatalog { probe_versions } => {
                &&& probe_versions == bool_member(p, "probeVersions"@, false)
            },
            _ => false,
        }
    } else if m == "cli.latest"@ {
        x is CliLatest
    } else if m == "cli.jobs"@ {
        x is CliJobs
    } else if m == "cli.dataPaths"@ {
        match x {
            Sessions::CliDataPaths { id } => {
                &&& str_member(p, "id"@) == Some(id@)
            },
            _ => false,
        }
    } else if m == "cli.install"@ {
        match x {
            Sessions::CliInstall { id } => {
                &&& str_member(p, "id"@) == Some(id@)
            },
            _ => false,
        }
    } else if m == "cli.uninstall"@ {
        match x {
            Sessions::CliUninstall { id, purge_data } => {
                &&& str_member(p, "id"@) == Some(id@)
                &&& purge_data == bool_member(p, "purgeData"@, false)
            },
            _ => false,
        }
    } else if m == "cli.cancel"@ {
        match x {
            Sessions::CliCancel { id } => {
                &&& str_member(p, "id"@) == Some(id@)
            },
            _ => false,
        }
    } else if m == "cli.dismiss"@ {
        match x {
            Sessions::CliDismiss { id } => {
                &&& str_member(p, "id"@) == Some(id@)
            },
            _ => false,
        }
    } else if m == "mcp.catalog"@ {
        x is McpCatalog
    } else {
        false
    }
}

/// Why method `m` with parameters `p` does not decode: the first argument
/// that cannot be read, or a method this domain does not serve.
pub open spec fn sessions_decode_error(m: Seq<char>, p: Params) -> Option<Seq<char>> {
    if m == "session.find"@ {
        if str_member(p, "kind"@) is None {
            Some(missing("kind"@))
        } else if str_member(p, "cwd"@) is None {
            Some(missing("cwd"@))
        } else {
            None
        }
    } else if m == "session.liveClaude"@ {
        None
    } else if m == "session.agentTurns"@ {
        None
    } else if m == "session.usage"@ {
        None
    } else if m == "session.stopClaude"@ {
        if str_member(p, "sessionId"@) is None {
            Some(missing("sessionId"@))
        } else {
            None
        }
    } else if m == "session.copilotResumable"@ {
        if str_member(p, "sessionId"@) is None {
            Some(missing("sessionId"@))
        } else {
            None
        }
    } else if m == "session.migrate"@ {
        if str_member(p, "kind"@) is None {
            Some(missing("kind"@))
        } else if str_member(p, "sessionId"@) is None {
            Some(missing("sessionId"@))
        } else if str_member(p, "fromCwd"@) is None {
            Some(missing("fromCwd"@))
        } else if str_member(p, "toCwd"@) is None {
            Some(missing("toCwd"@))
        } else {
            None
        }
    } else if m == "shell.default"@ {
        None
    } else if m == "shell.available"@ {
        None
    } else if m == "shell.commandExists"@ {
        if str_member(p, "cmd"@) is None {
            Some(missing("cmd"@))
        } else {
            None
        }
    } else if m == "fastpick.list"@ {
        None
    } else if m == "fastpick.version"@ {
        None
    } else if m == "codexSwitcher.list"@ {
        None
    } else if m == "codexSwitcher.save"@ {
        None
    } else if m == "codexSwitcher.activate"@ {
        None
    } else if m == "codexSwitcher.version"@ {
        None
    } else if m == "fastMcpSsh.version"@ {
        None
    } else if m == "kebaccSwitcher.list"@ {
        None
    } else if m == "kebaccSwitcher.add"@ {
        if str_member(p, "provider"@) is None {
            Some(missing("provider"@))
        } else {
            None
        }
    } else if m == "kebaccSwitcher.switch"@ {
        if str_member(p, "provider"@) is None {
            Some(missing("provider"@))
        } else if str_member(p, "email"@) is None {
            Some(missing("email"@))
        } else {
            None
        }
    } else if m == "kebaccSwitcher.version"@ {
        None
    } else if m == "session.transcript"@ {
        if str_member(p, "threadId"@) is None {
            Some(missing("threadId"@))
        } else {
            None
        }
    } else if m == "cli.catalog"@ {
        None
    } else if m == "cli.latest"@ {
        None
    } else if m == "cli.jobs"@ {
        None
    } else if m == "cli.dataPaths"@ {
        if str_member(p, "id"@) is None {
            Some(missing("id"@))
        } else {
            None
        }
    } else if m == "cli.install"@ {
        if str_member(p, "id"@) is None {
            Some(missing("id"@))
        } else {
            None
        }
    } else if m == "cli.uninstall"@ {
        if str_member(p, "id"@) is None {
            Some(missing("id"@))
        } else {
            None
        }
    } else if m == "cli.cancel"@ {
        if str_member(p, "id"@) is None {
            Some(missing("id"@))
        } else {
            None
        }
    } else if m == "cli.dismiss"@ {
        if str_member(p, "id"@) is None {
            Some(missing("id"@))
        } else {
            None
        }
    } else if m == "mcp.catalog"@ {
        None
    } else {
        Some("unknown method: "@ + m)
    }
}

impl Sessions {
    /// Reads a method name and its parameters into a command. The refusal
    /// names the first argument that cannot be read, or the method nobody
    /// serves.
    pub fn decode(method: &str, params: Params) -> (r: Result<Sessions, String>)
        ensures
            match r {
                Ok(x) => sessions_decode_error(method@, params) is None && sessions_decoded(method@, params, x)
                    && sessions_name(x) == method@,
                Err(e) => sessions_decode_error(method@, params) == Some(e@),
            },
    {
        let m = chars_of(method);
        if text_is(&m, "session.find") {
            let kind = match str_param(&params, "kind") {
                Ok(v) => v,
                Err(e) => return Err(e),
            };
            let cwd = match str_param(&params, "cwd") {
                Ok(v) => v,
                Err(e) => return Err(e),
            };
            let after_unix_ms: i64 = match i64_param(&params, "afterUnixMs") {
                Some(n) => n,
                None => 0,
            };
            let exclude_ids = str_list(&params, "excludeIds");
            let session_id = opt_str_param(&params, "sessionId");
            let own = Own::Pty(opt_str_param(&params, "ptyId"));
            return Ok(Sessions::Find { kind, cwd, after_unix_ms, exclude_ids, session_id, own });
        }
        if text_is(&m, "session.liveClaude") {
            return Ok(Sessions::LiveClaude);
        }
        if text_is(&m, "session.agentTurns") {
            let queries = match take_member(params, "queries") {
                Some(v) => v,
                None => Param::List(Vec::new()),
            };
            return Ok(Sessions::AgentTurns { queries });
        }
        if text_is(&m, "session.usage") {
            let cwds = str_list(&params, "cwds");
            let days = u32_param(&params, "days", 365);
            let orchestrator_sessions = str_list(&params, "orchestratorSessions");
            return Ok(Sessions::Usage { cwds, days, orchestrator_sessions });
        }
        if text_is(&m, "session.stopClaude") {
            let session_id = match str_param(&params, "sessionId") {
                Ok(v) => v,
                Err(e) => return Err(e),
            };
            return Ok(Sessions::StopClaude { session_id });
        }
        if text_is(&m, "session.copilotResumable") {
            let session_id = match str_param(&params, "sessionId") {
                Ok(v) => v,
                Err(e) => return Err(e),
            };
            return Ok(Sessions::CopilotResumable { session_id });
        }
        if text_is(&m, "session.migrate") {
            let kind = match str_param(&params, "kind") {
                Ok(v) => v,
                Err(e) => return Err(e),
            };
            let session_id = match str_param(&params, "sessionId") {
                Ok(v) => v,
                Err(e) => return Err(e),
            };
            let from_cwd = match str_param(&params, "fromCwd") {
                Ok(v) => v,
                Err(e) => return Err(e),
            };
            let to_cwd = match str_param(&params, "toCwd") {
                Ok(v) => v,
                Err(e) => return Err(e),
            };
            return Ok(Sessions::Migrate { kind, session_id, from_cwd, to_cwd });
        }
        if text_is(&m, "shell.default") {
            return Ok(Sessions::ShellDefault);
        }
        if text_is(&m, "shell.available") {
            let refresh = bool_param(&params, "refresh", false);
            return Ok(Sessions::ShellAvailable { refresh });
        }
        if text_is(&m, "shell.commandExists") {
            let cmd = match str_param(&params, "cmd") {
                Ok(v) => v,
                Err(e) => return Err(e),
            };
            return Ok(Sessions::CommandExists { cmd });
        }
        if text_is(&m, "fastpick.list") {
            let provider = opt_str_param(&params, "provider");
            let refresh = bool_param(&params, "refresh", false);
            return Ok(Sessions::FastpickList { provider, refresh });
        }
        if text_is(&m, "fastpick.version") {
            return Ok(Sessions::FastpickVersion);
        }
        if text_is(&m, "codexSwitcher.list") {
            return Ok(Sessions::CodexSwitcherList);
        }
        if text_is(&m, "codexSwitcher.save") {
            return Ok(Sessions::CodexSwitcherSave);
        }
        if text_is(&m, "codexSwitcher.activate") {
            let account_id = text_or(opt_str_param(&params, "accountId"), "");
            return Ok(Sessions::CodexSwitcherActivate { account_id });
        }
        if text_is(&m, "codexSwitcher.version") {
            return Ok(Sessions::CodexSwitcherVersion);
        }
        if text_is(&m, "fastMcpSsh.version") {
            return Ok(Sessions::FastMcpSshVersion);
        }
        if text_is(&m, "kebaccSwitcher.list") {
            let provider = opt_str_param(&params, "provider");
            return Ok(Sessions::KebaccSwitcherList { provider });
        }
        if text_is(&m, "kebaccSwitcher.add") {
            let provider = match str_param(&params, "provider") {
                Ok(v) => v,
                Err(e) => return Err(e),
            };
            return Ok(Sessions::KebaccSwitcherAdd { provider });
        }
        if text_is(&m, "kebaccSwitcher.switch") {
            let provider = match str_param(&params, "provider") {
                Ok(v) => v,
                Err(e) => return Err(e),
            };
            let email = match str_param(&params, "email") {
                Ok(v) => v,
                Err(e) => return Err(e),
            };
            return Ok(Sessions::KebaccSwitcherSwitch { provider, email });
        }
        if text_is(&m, "kebaccSwitcher.version") {
            return Ok(Sessions::KebaccSwitcherVersion);
        }
        if text_is(&m, "session.transcript") {
            let thread_id = match str_param(&params, "threadId") {
                Ok(v) => v,
                Err(e) => return Err(e),
            };
            let bytes = clamp(u32_param(&params, "bytes", 16_384), 0, 0x10_0000);
            let dir = None;
            return Ok(Sessions::Transcript { thread_id, bytes, dir });
        }
        if text_is(&m, "cli.catalog") {
            let probe_versions = bool_param(&params, "probeVersions", false);
            return Ok(Sessions::CliCatalog { probe_versions });
        }
        if text_is(&m, "cli.latest") {
            return Ok(Sessions::CliLatest);
        }
        if text_is(&m, "cli.jobs") {
            return Ok(Sessions::CliJobs);
        }
        if text_is(&m, "cli.dataPaths") {
            let id = match str_param(&params, "id") {
                Ok(v) => v,
                Err(e) => return Err(e),
            };
            return Ok(Sessions::CliDataPaths { id });
        }
        if text_is(&m, "cli.install") {
            let id = match str_param(&params, "id") {
                Ok(v) => v,
                Err(e) => return Err(e),
            };
            return Ok(Sessions::CliInstall { id });
        }
        if text_is(&m, "cli.uninstall") {
            let id = match str_param(&params, "id") {
                Ok(v) => v,
                Err(e) => return Err(e),
            };
            let purge_data = bool_param(&params, "purgeData", false);
            return Ok(Sessions::CliUninstall { id, purge_data });
        }
        if text_is(&m, "cli.cancel") {
            let id = match str_param(&params, "id") {
                Ok(v) => v,
                Err(e) => return Err(e),
            };
            return Ok(Sessions::CliCancel { id });
        }
        if text_is(&m, "cli.dismiss") {
            let id = match str_param(&params, "id") {
                Ok(v) => v,
                Err(e) => return Err(e),
            };
            return Ok(Sessions::CliDismiss { id });
        }
        if text_is(&m, "mcp.catalog") {
            return Ok(Sessions::McpCatalog);
        }
        let mut msg: Vec<char> = Vec::new();
        push_str(&mut msg, "unknown method: ");
        push_str(&mut msg, method);
        Err(string_of(&msg))
    }

    /// The wire name this command answers to.
    pub fn name(&self) -> (r: &'static str)
        ensures
            r@ == sessions_name(*self),
    {
        match self {
            Sessions::Find { .. } => "session.find",
            Sessions::LiveClaude => "session.liveClaude",
            Sessions::AgentTurns { .. } => "session.agentTurns",
            Sessions::Usage { .. } => "session.usage",
            Sessions::StopClaude { .. } => "session.stopClaude",
            Sessions::CopilotResumable { .. } => "session.copilotResumable",
            Sessions::Migrate { .. } => "session.migrate",
            Sessions::ShellDefault => "shell.default",
            Sessions::ShellAvailable { .. } => "shell.available",
            Sessions::CommandExists { .. } => "shell.commandExists",
            Sessions::FastpickList { .. } => "fastpick.list",
            Sessions::FastpickVersion => "fastpick.version",
            Sessions::CodexSwitcherList => "codexSwitcher.list",
            Sessions::CodexSwitcherSave => "codexSwitcher.save",
            Sessions::CodexSwitcherActivate { .. } => "codexSwitcher.activate",
            Sessions::CodexSwitcherVersion => "codexSwitcher.version",
            Sessions::FastMcpSshVersion => "fastMcpSsh.version",
            Sessions::KebaccSwitcherList { .. } => "kebaccSwitcher.list",
            Sessions::KebaccSwitcherAdd { .. } => "kebaccSwitcher.add",
            Sessions::KebaccSwitcherSwitch { .. } => "kebaccSwitcher.switch",
            Sessions::KebaccSwitcherVersion => "kebaccSwitcher.version",
            Sessions::Transcript { .. } => "session.transcript",
            Sessions::CliCatalog { .. } => "cli.catalog",
            Sessions::CliLatest => "cli.latest",
            Sessions::CliJobs => "cli.jobs",
            Sessions::CliDataPaths { .. } => "cli.dataPaths",
            Sessions::CliInstall { .. } => "cli.install",
            Sessions::CliUninstall { .. } => "cli.uninstall",
            Sessions::CliCancel { .. } => "cli.cancel",
            Sessions::CliDismiss { .. } => "cli.dismiss",
            Sessions::McpCatalog => "mcp.catalog",
        }
    }

    /// How the WebSocket protocol wraps this command's answer.
    pub fn wire(&self) -> (r: Wire)
        ensures
            wire_shape(r) == sessions_wire(*self),
    {
        match self {
            Sessions::Find { .. } => Wire::Key("session"),
            Sessions::LiveClaude => Wire::Key("sessions"),
            Sessions::AgentTurns { .. } => Wire::Key("turns"),
            Sessions::Usage { .. } => Wire::Bare,
            Sessions::StopClaude { .. } => Wire::Key("stopped"),
            Sessions::CopilotResumable { .. } => Wire::Key("resumable"),
            Sessions::Migrate { .. } => Wire::Key("migrated"),
            Sessions::ShellDefault => Wire::Key("shell"),
            Sessions::ShellAvailable { .. } => Wire::Key("shells"),
            Sessions::CommandExists { .. } => Wire::Key("found"),
            Sessions::FastpickList { .. } => Wire::Key("json"),
            Sessions::FastpickVersion => Wire::Key("version"),
            Sessions::CodexSwitcherList => Wire::Key("json"),
            Sessions::CodexSwitcherSave => Wire::Key("json"),
            Sessions::CodexSwitcherActivate { .. } => Wire::Key("json"),
            Sessions::CodexSwitcherVersion => Wire::Key("version"),
            Sessions::FastMcpSshVersion => Wire::Key("version"),
            Sessions::KebaccSwitcherList { .. } => Wire::Key("json"),
            Sessions::KebaccSwitcherAdd { .. } => Wire::Key("json"),
            Sessions::KebaccSwitcherSwitch { .. } => Wire::Key("json"),
            Sessions::KebaccSwitcherVersion => Wire::Key("version"),
            Sessions::Transcript { .. } => Wire::Key("text"),
            Sessions::CliCatalog { .. } => Wire::Key("clis"),
            Sessions::CliLatest => Wire::Key("latest"),
            Sessions::CliJobs => Wire::Key("jobs"),
            Sessions::CliDataPaths { .. } => Wire::Key("paths"),
            Sessions::CliInstall { .. } => Wire::Key("job"),
            Sessions::CliUninstall { .. } => Wire::Key("job"),
            Sessions::CliCancel { .. } => Wire::Key("cancelled"),
            Sessions::CliDismiss { .. } => Wire::Key("dismissed"),
            Sessions::McpCatalog => Wire::Key("servers"),
        }
    }

    /// What a caller needs to hold to ask for this.
    pub fn capability(&self) -> (r: Capability)
        ensures
            r == sessions_capability(*self),
    {
        match self {
            Sessions::Find { .. } => Capability::ReadProject,
            Sessions::LiveClaude => Capability::ReadProject,
            Sessions::AgentTurns { .. } => Capability::ReadProject,
            Sessions::Usage { .. } => Capability::ReadProject,
            Sessions::StopClaude { .. } => Capability::MutateProject,
            Sessions::CopilotResumable { .. } => Capability::ReadProject,
            Sessions::Migrate { .. } => Capability::MutateProject,
            Sessions::ShellDefault => Capability::ReadProject,
            Sessions::ShellAvailable { .. } => Capability::ReadProject,
            Sessions::CommandExists { .. } => Capability::ReadProject,
            Sessions::FastpickList { .. } => Capability::ReadProject,
            Sessions::FastpickVersion => Capability::ReadProject,
            Sessions::CodexSwitcherList => Capability::ReadProject,
            Sessions::CodexSwitcherSave => Capability::MutateProject,
            Sessions::CodexSwitcherActivate { .. } => Capability::MutateProject,
            Sessions::CodexSwitcherVersion => Capability::ReadProject,
            Sessions::FastMcpSshVersion => Capability::ReadProject,
            Sessions::KebaccSwitcherList { .. } => Capability::ReadProject,
            Sessions::KebaccSwitcherAdd { .. } => Capability::MutateProject,
            Sessions::KebaccSwitcherSwitch { .. } => Capability::MutateProject,
            Sessions::KebaccSwitcherVersion => Capability::ReadProject,
            Sessions::Transcript { .. } => Capability::ReadProject,
            Sessions::CliCatalog { .. } => Capability::ReadProject,
            Sessions::CliLatest => Capability::ReadProject,
            Sessions::CliJobs => Capability::ReadProject,
            Sessions::CliDataPaths { .. } => Capability::ReadProject,
            Sessions::CliInstall { .. } => Capability::MutateAcross,
            Sessions::CliUninstall { .. } => Capability::MutateAcross,
            Sessions::CliCancel { .. } => Capability::MutateProject,
            Sessions::CliDismiss { .. } => Capability::MutateProject,
            Sessions::McpCatalog => Capability::ReadProject,
        }
    }
}

/// Every sessions command names a method the bus serves, and the name-only table
/// answers for it exactly what the command itself declares.
pub proof fn lemma_sessions_declares_what_it_needs(x: Sessions)
    ensures
        all_methods().contains(sessions_name(x)),
        capability_in(sessions_name(x)) == Some(sessions_capability(x)),
{
    match x {
        Sessions::Find { .. } => {
            assert(all_methods()[37] == "session.find"@);
            lemma_capability_by_name(37);
        },
        Sessions::LiveClaude => {
            assert(all_methods()[38] == "session.liveClaude"@);
            lemma_capability_by_name(38);
        },
        Sessions::AgentTurns { .. } => {
            assert(all_methods()[39] == "session.agentTurns"@);
            lemma_capability_by_name(39);
        },
        Sessions::Usage { .. } => {
            assert(all_methods()[40] == "session.usage"@);
            lemma_capability_by_name(40);
        },
        Sessions::StopClaude { .. } => {
            assert(all_methods()[41] == "session.stopClaude"@);
            lemma_capability_by_name(41);
        },
        Sessions::CopilotResumable { .. } => {
            assert(all_methods()[42] == "session.copilotResumable"@);
            lemma_capability_by_name(42);
        },
        Sessions::Migrate { .. } => {
            assert(all_methods()[43] == "session.migrate"@);
            lemma_capability_by_name(43);
        },
        Sessions::ShellDefault => {
            assert(all_methods()[44] == "shell.default"@);
            lemma_capability_by_name(44);
        },
        Sessions::ShellAvailable { .. } => {
            assert(all_methods()[45] == "shell.available"@);
            lemma_capability_by_name(45);
        },
        Sessions::CommandExists { .. } => {
            assert(all_methods()[46] == "shell.commandExists"@);
            lemma_capability_by_name(46);
        },
        Sessions::FastpickList { .. } => {
            assert(all_methods()[47] == "fastpick.list"@);
            lemma_capability_by_name(47);
        },
        Sessions::FastpickVersion => {
            assert(all_methods()[48] == "fastpick.version"@);
            lemma_capability_by_name(48);
        },
        Sessions::CodexSwitcherList => {
            assert(all_methods()[49] == "codexSwitcher.list"@);
            lemma_capability_by_name(49);
        },
        Sessions::CodexSwitcherSave => {
            assert(all_methods()[50] == "codexSwitcher.save"@);
            lemma_capability_by_name(50);
        },
        Sessions::CodexSwitcherActivate { .. } => {
            assert(all_methods()[51] == "codexSwitcher.activate"@);
            lemma_capability_by_name(51);
        },
        Sessions::CodexSwitcherVersion => {
            assert(all_methods()[52] == "codexSwitcher.version"@);
            lemma_capability_by_name(52);
        },
        Sessions::FastMcpSshVersion => {
            assert(all_methods()[53] == "fastMcpSsh.version"@);
            lemma_capability_by_name(53);
        },
        Sessions::KebaccSwitcherList { .. } => {
            assert(all_methods()[54] == "kebaccSwitcher.list"@);
            lemma_capability_by_name(54);
        },
        Sessions::KebaccSwitcherAdd { .. } => {
            assert(all_methods()[55] == "kebaccSwitcher.add"@);
            lemma_capability_by_name(55);
        },
        Sessions::KebaccSwitcherSwitch { .. } => {
            assert(all_methods()[56] == "kebaccSwitcher.switch"@);
            lemma_capability_by_name(56);
        },
        Sessions::KebaccSwitcherVersion => {
            assert(all_methods()[57] == "kebaccSwitcher.version"@);
            lemma_capability_by_name(57);
        },
        Sessions::Transcript { .. } => {
            assert(all_methods()[58] == "session.transcript"@);
            lemma_capability_by_name(58);
        },
        Sessions::CliCatalog { .. } => {
            assert(all_methods()[59] == "cli.catalog"@);
            lemma_capability_by_name(59);
        },
        Sessions::CliLatest => {
            assert(all_methods()[60] == "cli.latest"@);
            lemma_capability_by_name(60);
        },
        Sessions::CliJobs => {
            assert(all_methods()[61] == "cli.jobs"@);
            lemma_capability_by_name(61);
        },
        Sessions::CliDataPaths { .. } => {
            assert(all_methods()[62] == "cli.dataPaths"@);
            lemma_capability_by_name(62);
        },
        Sessions::CliInstall { .. } => {
            assert(all_methods()[63] == "cli.install"@);
            lemma_capability_by_name(63);
        },
        Sessions::CliUninstall { .. } => {
            assert(all_methods()[64] == "cli.uninstall"@);
            lemma_capability_by_name(64);
        },
        Sessions::CliCancel { .. } => {
            assert(all_methods()[65] == "cli.cancel"@);
            lemma_capability_by_name(65);
        },
        Sessions::CliDismiss { .. } => {
            assert(all_methods()[66] == "cli.dismiss"@);
            lemma_capability_by_name(66);
        },
        Sessions::McpCatalog => {
            assert(all_methods()[67] == "mcp.catalog"@);
            lemma_capability_by_name(67);
        },
    }
}
} // verus!

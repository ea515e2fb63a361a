//! The table of every method the bus serves, and what each one needs.
//!
//! The domains list their methods in this order: git, files, sessions,
//! records, checkpoints, conduct, sync, telemetry, logs, pilot. The table is
//! read in that order, so a name claimed twice would quietly decode into the
//! first domain that lists it; `lemma_no_method_claimed_twice` rules that out.

use vstd::prelude::*;

use crate::command::Capability;

verus! {

/// Every method name, domain by domain.
pub open spec fn method_literals() -> Seq<&'static str> {
    seq![
        "git.repoInfo",
        "git.findRepos",
        "git.branches",
        "git.switchBranch",
        "git.status",
        "git.changedPaths",
        "git.log",
        "git.commitState",
        "git.pullRequest",
        "git.stage",
        "git.unstage",
        "git.discard",
        "git.commit",
        "git.fetch",
        "git.push",
        "git.pull",
        "git.init",
        "git.fileVersions",
        "worktree.open",
        "worktree.warm",
        "worktree.migrate",
        "worktree.adopt",
        "worktree.recognize",
        "worktree.list",
        "worktree.claim",
        "worktree.reserve",
        "worktree.hold",
        "worktree.remove",
        "worktree.sizes",
        "fs.readDir",
        "fs.search",
        "file.read",
        "file.write",
        "file.readBase64",
        "project.inspect",
        "project.folderState",
        "project.createFolder",
        "session.find",
        "session.liveClaude",
        "session.agentTurns",
        "session.usage",
        "session.stopClaude",
        "session.copilotResumable",
        "session.migrate",
        "shell.default",
        "shell.available",
        "shell.commandExists",
        "fastpick.list",
        "fastpick.version",
        "codexSwitcher.list",
        "codexSwitcher.save",
        "codexSwitcher.activate",
        "codexSwitcher.version",
        "fastMcpSsh.version",
        "kebaccSwitcher.list",
        "kebaccSwitcher.add",
        "kebaccSwitcher.switch",
        "kebaccSwitcher.version",
        "session.transcript",
        "cli.catalog",
        "cli.latest",
        "cli.jobs",
        "cli.dataPaths",
        "cli.install",
        "cli.uninstall",
        "cli.cancel",
        "cli.dismiss",
        "mcp.catalog",
        "project.list",
        "project.create",
        "project.archive",
        "project.delete",
        "thread.list",
        "thread.create",
        "thread.update",
        "thread.started",
        "thread.settle",
        "thread.delete",
        "todo.list",
        "todo.save",
        "todo.delete",
        "settings.get",
        "settings.set",
        "workspace.info",
        "workspace.setInfo",
        "search.query",
        "checkpoint.capture",
        "checkpoint.list",
        "checkpoint.diff",
        "checkpoint.fileVersions",
        "checkpoint.restore",
        "checkpoint.forget",
        "conduct.pulse",
        "conduct.record",
        "orchestrator.post",
        "orchestrator.say",
        "orchestrator.messages",
        "orchestrator.start",
        "orchestrator.status",
        "orchestrator.actions",
        "orchestrator.undo",
        "thread.dispatch",
        "thread.acceptDispatch",
        "dispatch.drain",
        "dispatch.settle",
        "voice.transcribe",
        "sync.sources",
        "sync.status",
        "sync.probe",
        "sync.pull",
        "sync.conflicts",
        "sync.resolve",
        "sync.skip",
        "sync.push",
        "sync.cancel",
        "sync.dismiss",
        "sync.repair",
        "telemetry.state",
        "telemetry.setModeA",
        "telemetry.setModeB",
        "telemetry.completeOnboarding",
        "telemetry.export",
        "telemetry.retryForget",
        "telemetry.trackUpdate",
        "telemetry.trackPane",
        "telemetry.trackSettingsSnapshot",
        "logs.tail",
        "logs.query",
        "logs.level",
        "logs.write",
        "logs.subscribe",
        "pilot.catalog",
        "pilot.thread.open",
        "pilot.turn.start",
        "pilot.turn.interrupt",
        "pilot.request.respond",
        "pilot.model.set",
        "pilot.mode.set",
        "pilot.session.stop",
        "pilot.items",
        "pilot.events",
        "pilot.subscribe",
        "pilot.unsubscribe",
    ]
}

/// Every method name as text.
pub open spec fn all_methods() -> Seq<Seq<char>> {
    method_literals().map_values(|s: &'static str| s@)
}

/// What each method needs, position by position with [`all_methods`].
pub open spec fn all_capabilities() -> Seq<Capability> {
    seq![
        Capability::ReadProject,
        Capability::ReadProject,
        Capability::ReadProject,
        Capability::MutateProject,
        Capability::ReadProject,
        Capability::ReadProject,
        Capability::ReadProject,
        Capability::ReadProject,
        Capability::ReadProject,
        Capability::MutateProject,
        Capability::MutateProject,
        Capability::MutateProject,
        Capability::MutateProject,
        Capability::MutateProject,
        Capability::MutateProject,
        Capability::MutateProject,
        Capability::MutateProject,
        Capability::ReadProject,
        Capability::MutateProject,
        Capability::MutateProject,
        Capability::MutateProject,
        Capability::MutateProject,
        Capability::MutateProject,
        Capability::ReadProject,
        Capability::MutateProject,
        Capability::MutateProject,
        Capability::ReadProject,
        Capability::MutateProject,
        Capability::ReadProject,
        Capability::ReadProject,
        Capability::ReadProject,
        Capability::ReadProject,
        Capability::MutateProject,
        Capability::ReadProject,
        Capability::ReadProject,
        Capability::ReadProject,
        Capability::MutateProject,
        Capability::ReadProject,
        Capability::ReadProject,
        Capability::ReadProject,
        Capability::ReadProject,
        Capability::MutateProject,
        Capability::ReadProject,
        Capability::MutateProject,
        Capability::ReadProject,
        Capability::ReadProject,
        Capability::ReadProject,
        Capability::ReadProject,
        Capability::ReadProject,
        Capability::ReadProject,
        Capability::MutateProject,
        Capability::MutateProject,
        Capability::ReadProject,
        Capability::ReadProject,
        Capability::ReadProject,
        Capability::MutateProject,
        Capability::MutateProject,
        Capability::ReadProject,
        Capability::ReadProject,
        Capability::ReadProject,
        Capability::ReadProject,
        Capability::ReadProject,
        Capability::ReadProject,
        Capability::MutateAcross,
        Capability::MutateAcross,
        Capability::MutateProject,
        Capability::MutateProject,
        Capability::ReadProject,
        Capability::ReadProject,
        Capability::MutateAcross,
        Capability::MutateProject,
        Capability::MutateAcross,
        Capability::ReadProject,
        Capability::MutateProject,
        Capability::MutateProject,
        Capability::MutateProject,
        Capability::MutateProject,
        Capability::MutateAcross,
        Capability::ReadProject,
        Capability::MutateProject,
        Capability::MutateProject,
        Capability::ReadProject,
        Capability::MutateProject,
        Capability::ReadProject,
        Capability::MutateProject,
        Capability::ReadProject,
        Capability::MutateProject,
        Capability::ReadProject,
        Capability::ReadProject,
        Capability::ReadProject,
        Capability::MutateProject,
        Capability::MutateProject,
        Capability::ReadProject,
        Capability::MutateProject,
        Capability::MutateProject,
        Capability::MutateProject,
        Capability::ReadProject,
        Capability::MutateProject,
        Capability::ReadProject,
        Capability::ReadProject,
        Capability::MutateProject,
        Capability::MutateProject,
        Capability::MutateProject,
        Capability::MutateProject,
        Capability::MutateProject,
        Capability::ReadProject,
        Capability::ReadProject,
        Capability::ReadProject,
        Capability::ReadProject,
        Capability::MutateAcross,
        Capability::ReadProject,
        Capability::MutateAcross,
        Capability::MutateProject,
        Capability::MutateAcross,
        Capability::MutateProject,
        Capability::MutateProject,
        Capability::MutateAcross,
        Capability::ReadProject,
        Capability::MutateProject,
        Capability::MutateProject,
        Capability::MutateProject,
        Capability::ReadProject,
        Capability::MutateProject,
        Capability::MutateProject,
        Capability::MutateProject,
        Capability::MutateProject,
        Capability::ReadProject,
        Capability::ReadProject,
        Capability::MutateProject,
        Capability::MutateProject,
        Capability::ReadProject,
        Capability::ReadProject,
        Capability::MutateProject,
        Capability::MutateProject,
        Capability::MutateProject,
        Capability::MutateProject,
        Capability::MutateProject,
        Capability::MutateProject,
        Capability::MutateProject,
        Capability::ReadProject,
        Capability::ReadProject,
        Capability::ReadProject,
        Capability::ReadProject,
    ]
}

/// Where a method stands in the table, or -1.
pub open spec fn method_index(m: Seq<char>) -> int {
    if m == "git.repoInfo"@ {
        0
    } else if m == "git.findRepos"@ {
        1
    } else if m == "git.branches"@ {
        2
    } else if m == "git.switchBranch"@ {
        3
    } else if m == "git.status"@ {
        4
    } else if m == "git.changedPaths"@ {
        5
    } else if m == "git.log"@ {
        6
    } else if m == "git.commitState"@ {
        7
    } else if m == "git.pullRequest"@ {
        8
    } else if m == "git.stage"@ {
        9
    } else if m == "git.unstage"@ {
        10
    } else if m == "git.discard"@ {
        11
    } else if m == "git.commit"@ {
        12
    } else if m == "git.fetch"@ {
        13
    } else if m == "git.push"@ {
        14
    } else if m == "git.pull"@ {
        15
    } else if m == "git.init"@ {
        16
    } else if m == "git.fileVersions"@ {
        17
    } else if m == "worktree.open"@ {
        18
    } else if m == "worktree.warm"@ {
        19
    } else if m == "worktree.migrate"@ {
        20
    } else if m == "worktree.adopt"@ {
        21
    } else if m == "worktree.recognize"@ {
        22
    } else if m == "worktree.list"@ {
        23
    } else if m == "worktree.claim"@ {
        24
    } else if m == "worktree.reserve"@ {
        25
    } else if m == "worktree.hold"@ {
        26
    } else if m == "worktree.remove"@ {
        27
    } else if m == "worktree.sizes"@ {
        28
    } else if m == "fs.readDir"@ {
        29
    } else if m == "fs.search"@ {
        30
    } else if m == "file.read"@ {
        31
    } else if m == "file.write"@ {
        32
    } else if m == "file.readBase64"@ {
        33
    } else if m == "project.inspect"@ {
        34
    } else if m == "project.folderState"@ {
        35
    } else if m == "project.createFolder"@ {
        36
    } else if m == "session.find"@ {
        37
    } else if m == "session.liveClaude"@ {
        38
    } else if m == "session.agentTurns"@ {
        39
    } else if m == "session.usage"@ {
        40
    } else if m == "session.stopClaude"@ {
        41
    } else if m == "session.copilotResumable"@ {
        42
    } else if m == "session.migrate"@ {
        43
    } else if m == "shell.default"@ {
        44
    } else if m == "shell.available"@ {
        45
    } else if m == "shell.commandExists"@ {
        46
    } else if m == "fastpick.list"@ {
        47
    } else if m == "fastpick.version"@ {
        48
    } else if m == "codexSwitcher.list"@ {
        49
    } else if m == "codexSwitcher.save"@ {
        50
    } else if m == "codexSwitcher.activate"@ {
        51
    } else if m == "codexSwitcher.version"@ {
        52
    } else if m == "fastMcpSsh.version"@ {
        53
    } else if m == "kebaccSwitcher.list"@ {
        54
    } else if m == "kebaccSwitcher.add"@ {
        55
    } else if m == "kebaccSwitcher.switch"@ {
        56
    } else if m == "kebaccSwitcher.version"@ {
        57
    } else if m == "session.transcript"@ {
        58
    } else if m == "cli.catalog"@ {
        59
    } else if m == "cli.latest"@ {
        60
    } else if m == "cli.jobs"@ {
        61
    } else if m == "cli.dataPaths"@ {
        62
    } else if m == "cli.install"@ {
        63
    } else if m == "cli.uninstall"@ {
        64
    } else if m == "cli.cancel"@ {
        65
    } else if m == "cli.dismiss"@ {
        66
    } else if m == "mcp.catalog"@ {
        67
    } else if m == "project.list"@ {
        68
    } else if m == "project.create"@ {
        69
    } else if m == "project.archive"@ {
        70
    } else if m == "project.delete"@ {
        71
    } else if m == "thread.list"@ {
        72
    } else if m == "thread.create"@ {
        73
    } else if m == "thread.update"@ {
        74
    } else if m == "thread.started"@ {
        75
    } else if m == "thread.settle"@ {
        76
    } else if m == "thread.delete"@ {
        77
    } else if m == "todo.list"@ {
        78
    } else if m == "todo.save"@ {
        79
    } else if m == "todo.delete"@ {
        80
    } else if m == "settings.get"@ {
        81
    } else if m == "settings.set"@ {
        82
    } else if m == "workspace.info"@ {
        83
    } else if m == "workspace.setInfo"@ {
        84
    } else if m == "search.query"@ {
        85
    } else if m == "checkpoint.capture"@ {
        86
    } else if m == "checkpoint.list"@ {
        87
    } else if m == "checkpoint.diff"@ {
        88
    } else if m == "checkpoint.fileVersions"@ {
        89
    } else if m == "checkpoint.restore"@ {
        90
    } else if m == "checkpoint.forget"@ {
        91
    } else if m == "conduct.pulse"@ {
        92
    } else if m == "conduct.record"@ {
        93
    } else if m == "orchestrator.post"@ {
        94
    } else if m == "orchestrator.say"@ {
        95
    } else if m == "orchestrator.messages"@ {
        96
    } else if m == "orchestrator.start"@ {
        97
    } else if m == "orchestrator.status"@ {
        98
    } else if m == "orchestrator.actions"@ {
        99
    } else if m == "orchestrator.undo"@ {
        100
    } else if m == "thread.dispatch"@ {
        101
    } else if m == "thread.acceptDispatch"@ {
        102
    } else if m == "dispatch.drain"@ {
        103
    } else if m == "dispatch.settle"@ {
        104
    } else if m == "voice.transcribe"@ {
        105
    } else if m == "sync.sources"@ {
        106
    } else if m == "sync.status"@ {
        107
    } else if m == "sync.probe"@ {
        108
    } else if m == "sync.pull"@ {
        109
    } else if m == "sync.conflicts"@ {
        110
    } else if m == "sync.resolve"@ {
        111
    } else if m == "sync.skip"@ {
        112
    } else if m == "sync.push"@ {
        113
    } else if m == "sync.cancel"@ {
        114
    } else if m == "sync.dismiss"@ {
        115
    } else if m == "sync.repair"@ {
        116
    } else if m == "telemetry.state"@ {
        117
    } else if m == "telemetry.setModeA"@ {
        118
    } else if m == "telemetry.setModeB"@ {
        119
    } else if m == "telemetry.completeOnboarding"@ {
        120
    } else if m == "telemetry.export"@ {
        121
    } else if m == "telemetry.retryForget"@ {
        122
    } else if m == "telemetry.trackUpdate"@ {
        123
    } else if m == "telemetry.trackPane"@ {
        124
    } else if m == "telemetry.trackSettingsSnapshot"@ {
        125
    } else if m == "logs.tail"@ {
        126
    } else if m == "logs.query"@ {
        127
    } else if m == "logs.level"@ {
        128
    } else if m == "logs.write"@ {
        129
    } else if m == "logs.subscribe"@ {
        130
    } else if m == "pilot.catalog"@ {
        131
    } else if m == "pilot.thread.open"@ {
        132
    } else if m == "pilot.turn.start"@ {
        133
    } else if m == "pilot.turn.interrupt"@ {
        134
    } else if m == "pilot.request.respond"@ {
        135
    } else if m == "pilot.model.set"@ {
        136
    } else if m == "pilot.mode.set"@ {
        137
    } else if m == "pilot.session.stop"@ {
        138
    } else if m == "pilot.items"@ {
        139
    } else if m == "pilot.events"@ {
        140
    } else if m == "pilot.subscribe"@ {
        141
    } else if m == "pilot.unsubscribe"@ {
        142
    } else {
        -1
    }
}

proof fn lemma_method_index()
    ensures
        all_methods().len() == 143,
        forall|k: int| 0 <= k < 143 ==> method_index(#[trigger] all_methods()[k]) == k,
{
    reveal_strlit("git.repoInfo");
    reveal_strlit("git.findRepos");
    reveal_strlit("git.branches");
    reveal_strlit("git.switchBranch");
    reveal_strlit("git.status");
    reveal_strlit("git.changedPaths");
    reveal_strlit("git.log");
    reveal_strlit("git.commitState");
    reveal_strlit("git.pullRequest");
    reveal_strlit("git.stage");
    reveal_strlit("git.unstage");
    reveal_strlit("git.discard");
    reveal_strlit("git.commit");
    reveal_strlit("git.fetch");
    reveal_strlit("git.push");
    reveal_strlit("git.pull");
    reveal_strlit("git.init");
    reveal_strlit("git.fileVersions");
    reveal_strlit("worktree.open");
    reveal_strlit("worktree.warm");
    reveal_strlit("worktree.migrate");
    reveal_strlit("worktree.adopt");
    reveal_strlit("worktree.recognize");
    reveal_strlit("worktree.list");
    reveal_strlit("worktree.claim");
    reveal_strlit("worktree.reserve");
    reveal_strlit("worktree.hold");
    reveal_strlit("worktree.remove");
    reveal_strlit("worktree.sizes");
    reveal_strlit("fs.readDir");
    reveal_strlit("fs.search");
    reveal_strlit("file.read");
    reveal_strlit("file.write");
    reveal_strlit("file.readBase64");
    reveal_strlit("project.inspect");
    reveal_strlit("project.folderState");
    reveal_strlit("project.createFolder");
    reveal_strlit("session.find");
    reveal_strlit("session.liveClaude");
    reveal_strlit("session.agentTurns");
    reveal_strlit("session.usage");
    reveal_strlit("session.stopClaude");
    reveal_strlit("session.copilotResumable");
    reveal_strlit("session.migrate");
    reveal_strlit("shell.default");
    reveal_strlit("shell.available");
    reveal_strlit("shell.commandExists");
    reveal_strlit("fastpick.list");
    reveal_strlit("fastpick.version");
    reveal_strlit("codexSwitcher.list");
    reveal_strlit("codexSwitcher.save");
    reveal_strlit("codexSwitcher.activate");
    reveal_strlit("codexSwitcher.version");
    reveal_strlit("fastMcpSsh.version");
    reveal_strlit("kebaccSwitcher.list");
    reveal_strlit("kebaccSwitcher.add");
    reveal_strlit("kebaccSwitcher.switch");
    reveal_strlit("kebaccSwitcher.version");
    reveal_strlit("session.transcript");
    reveal_strlit("cli.catalog");
    reveal_strlit("cli.latest");
    reveal_strlit("cli.jobs");
    reveal_strlit("cli.dataPaths");
    reveal_strlit("cli.install");
    reveal_strlit("cli.uninstall");
    reveal_strlit("cli.cancel");
    reveal_strlit("cli.dismiss");
    reveal_strlit("mcp.catalog");
    reveal_strlit("project.list");
    reveal_strlit("project.create");
    reveal_strlit("project.archive");
    reveal_strlit("project.delete");
    reveal_strlit("thread.list");
    reveal_strlit("thread.create");
    reveal_strlit("thread.update");
    reveal_strlit("thread.started");
    reveal_strlit("thread.settle");
    reveal_strlit("thread.delete");
    reveal_strlit("todo.list");
    reveal_strlit("todo.save");
    reveal_strlit("todo.delete");
    reveal_strlit("settings.get");
    reveal_strlit("settings.set");
    reveal_strlit("workspace.info");
    reveal_strlit("workspace.setInfo");
    reveal_strlit("search.query");
    reveal_strlit("checkpoint.capture");
    reveal_strlit("checkpoint.list");
    reveal_strlit("checkpoint.diff");
    reveal_strlit("checkpoint.fileVersions");
    reveal_strlit("checkpoint.restore");
    reveal_strlit("checkpoint.forget");
    reveal_strlit("conduct.pulse");
    reveal_strlit("conduct.record");
    reveal_strlit("orchestrator.post");
    reveal_strlit("orchestrator.say");
    reveal_strlit("orchestrator.messages");
    reveal_strlit("orchestrator.start");
    reveal_strlit("orchestrator.status");
    reveal_strlit("orchestrator.actions");
    reveal_strlit("orchestrator.undo");
    reveal_strlit("thread.dispatch");
    reveal_strlit("thread.acceptDispatch");
    reveal_strlit("dispatch.drain");
    reveal_strlit("dispatch.settle");
    reveal_strlit("voice.transcribe");
    reveal_strlit("sync.sources");
    reveal_strlit("sync.status");
    reveal_strlit("sync.probe");
    reveal_strlit("sync.pull");
    reveal_strlit("sync.conflicts");
    reveal_strlit("sync.resolve");
    reveal_strlit("sync.skip");
    reveal_strlit("sync.push");
    reveal_strlit("sync.cancel");
    reveal_strlit("sync.dismiss");
    reveal_strlit("sync.repair");
    reveal_strlit("telemetry.state");
    reveal_strlit("telemetry.setModeA");
    reveal_strlit("telemetry.setModeB");
    reveal_strlit("telemetry.completeOnboarding");
    reveal_strlit("telemetry.export");
    reveal_strlit("telemetry.retryForget");
    reveal_strlit("telemetry.trackUpdate");
    reveal_strlit("telemetry.trackPane");
    reveal_strlit("telemetry.trackSettingsSnapshot");
    reveal_strlit("logs.tail");
    reveal_strlit("logs.query");
    reveal_strlit("logs.level");
    reveal_strlit("logs.write");
    reveal_strlit("logs.subscribe");
    reveal_strlit("pilot.catalog");
    reveal_strlit("pilot.thread.open");
    reveal_strlit("pilot.turn.start");
    reveal_strlit("pilot.turn.interrupt");
    reveal_strlit("pilot.request.respond");
    reveal_strlit("pilot.model.set");
    reveal_strlit("pilot.mode.set");
    reveal_strlit("pilot.session.stop");
    reveal_strlit("pilot.items");
    reveal_strlit("pilot.events");
    reveal_strlit("pilot.subscribe");
    reveal_strlit("pilot.unsubscribe");
    assert("git.repoInfo"@.len() == 12);
    assert("git.findRepos"@.len() == 13);
    assert("git.branches"@.len() == 12);
    assert("git.switchBranch"@.len() == 16);
    assert("git.status"@.len() == 10);
    assert("git.changedPaths"@.len() == 16);
    assert("git.log"@.len() == 7);
    assert("git.commitState"@.len() == 15);
    assert("git.pullRequest"@.len() == 15);
    assert("git.stage"@.len() == 9);
    assert("git.unstage"@.len() == 11);
    assert("git.discard"@.len() == 11);
    assert("git.commit"@.len() == 10);
    assert("git.fetch"@.len() == 9);
    assert("git.push"@.len() == 8);
    assert("git.pull"@.len() == 8);
    assert("git.init"@.len() == 8);
    assert("git.fileVersions"@.len() == 16);
    assert("worktree.open"@.len() == 13);
    assert("worktree.warm"@.len() == 13);
    assert("worktree.migrate"@.len() == 16);
    assert("worktree.adopt"@.len() == 14);
    assert("worktree.recognize"@.len() == 18);
    assert("worktree.list"@.len() == 13);
    assert("worktree.claim"@.len() == 14);
    assert("worktree.reserve"@.len() == 16);
    assert("worktree.hold"@.len() == 13);
    assert("worktree.remove"@.len() == 15);
    assert("worktree.sizes"@.len() == 14);
    assert("fs.readDir"@.len() == 10);
    assert("fs.search"@.len() == 9);
    assert("file.read"@.len() == 9);
    assert("file.write"@.len() == 10);
    assert("file.readBase64"@.len() == 15);
    assert("project.inspect"@.len() == 15);
    assert("project.folderState"@.len() == 19);
    assert("project.createFolder"@.len() == 20);
    assert("session.find"@.len() == 12);
    assert("session.liveClaude"@.len() == 18);
    assert("session.agentTurns"@.len() == 18);
    assert("session.usage"@.len() == 13);
    assert("session.stopClaude"@.len() == 18);
    assert("session.copilotResumable"@.len() == 24);
    assert("session.migrate"@.len() == 15);
    assert("shell.default"@.len() == 13);
    assert("shell.available"@.len() == 15);
    assert("shell.commandExists"@.len() == 19);
    assert("fastpick.list"@.len() == 13);
    assert("fastpick.version"@.len() == 16);
    assert("codexSwitcher.list"@.len() == 18);
    assert("codexSwitcher.save"@.len() == 18);
    assert("codexSwitcher.activate"@.len() == 22);
    assert("codexSwitcher.version"@.len() == 21);
    assert("fastMcpSsh.version"@.len() == 18);
    assert("kebaccSwitcher.list"@.len() == 19);
    assert("kebaccSwitcher.add"@.len() == 18);
    assert("kebaccSwitcher.switch"@.len() == 21);
    assert("kebaccSwitcher.version"@.len() == 22);
    assert("session.transcript"@.len() == 18);
    assert("cli.catalog"@.len() == 11);
    assert("cli.latest"@.len() == 10);
    assert("cli.jobs"@.len() == 8);
    assert("cli.dataPaths"@.len() == 13);
    assert("cli.install"@.len() == 11);
    assert("cli.uninstall"@.len() == 13);
    assert("cli.cancel"@.len() == 10);
    assert("cli.dismiss"@.len() == 11);
    assert("mcp.catalog"@.len() == 11);
    assert("project.list"@.len() == 12);
    assert("project.create"@.len() == 14);
    assert("project.archive"@.len() == 15);
    assert("project.delete"@.len() == 14);
    assert("thread.list"@.len() == 11);
    assert("thread.create"@.len() == 13);
    assert("thread.update"@.len() == 13);
    assert("thread.started"@.len() == 14);
    assert("thread.settle"@.len() == 13);
    assert("thread.delete"@.len() == 13);
    assert("todo.list"@.len() == 9);
    assert("todo.save"@.len() == 9);
    assert("todo.delete"@.len() == 11);
    assert("settings.get"@.len() == 12);
    assert("settings.set"@.len() == 12);
    assert("workspace.info"@.len() == 14);
    assert("workspace.setInfo"@.len() == 17);
    assert("search.query"@.len() == 12);
    assert("checkpoint.capture"@.len() == 18);
    assert("checkpoint.list"@.len() == 15);
    assert("checkpoint.diff"@.len() == 15);
    assert("checkpoint.fileVersions"@.len() == 23);
    assert("checkpoint.restore"@.len() == 18);
    assert("checkpoint.forget"@.len() == 17);
    assert("conduct.pulse"@.len() == 13);
    assert("conduct.record"@.len() == 14);
    assert("orchestrator.post"@.len() == 17);
    assert("orchestrator.say"@.len() == 16);
    assert("orchestrator.messages"@.len() == 21);
    assert("orchestrator.start"@.len() == 18);
    assert("orchestrator.status"@.len() == 19);
    assert("orchestrator.actions"@.len() == 20);
    assert("orchestrator.undo"@.len() == 17);
    assert("thread.dispatch"@.len() == 15);
    assert("thread.acceptDispatch"@.len() == 21);
    assert("dispatch.drain"@.len() == 14);
    assert("dispatch.settle"@.len() == 15);
    assert("voice.transcribe"@.len() == 16);
    assert("sync.sources"@.len() == 12);
    assert("sync.status"@.len() == 11);
    assert("sync.probe"@.len() == 10);
    assert("sync.pull"@.len() == 9);
    assert("sync.conflicts"@.len() == 14);
    assert("sync.resolve"@.len() == 12);
    assert("sync.skip"@.len() == 9);
    assert("sync.push"@.len() == 9);
    assert("sync.cancel"@.len() == 11);
    assert("sync.dismiss"@.len() == 12);
    assert("sync.repair"@.len() == 11);
    assert("telemetry.state"@.len() == 15);
    assert("telemetry.setModeA"@.len() == 18);
    assert("telemetry.setModeB"@.len() == 18);
    assert("telemetry.completeOnboarding"@.len() == 28);
    assert("telemetry.export"@.len() == 16);
    assert("telemetry.retryForget"@.len() == 21);
    assert("telemetry.trackUpdate"@.len() == 21);
    assert("telemetry.trackPane"@.len() == 19);
    assert("telemetry.trackSettingsSnapshot"@.len() == 31);
    assert("logs.tail"@.len() == 9);
    assert("logs.query"@.len() == 10);
    assert("logs.level"@.len() == 10);
    assert("logs.write"@.len() == 10);
    assert("logs.subscribe"@.len() == 14);
    assert("pilot.catalog"@.len() == 13);
    assert("pilot.thread.open"@.len() == 17);
    assert("pilot.turn.start"@.len() == 16);
    assert("pilot.turn.interrupt"@.len() == 20);
    assert("pilot.request.respond"@.len() == 21);
    assert("pilot.model.set"@.len() == 15);
    assert("pilot.mode.set"@.len() == 14);
    assert("pilot.session.stop"@.len() == 18);
    assert("pilot.items"@.len() == 11);
    assert("pilot.events"@.len() == 12);
    assert("pilot.subscribe"@.len() == 15);
    assert("pilot.unsubscribe"@.len() == 17);
    assert forall|k: int| 0 <= k < 143 implies method_index(#[trigger] all_methods()[k]) == k by {
        if k == 0 {
            assert(all_methods()[0] == "git.repoInfo"@);
            assert(method_index("git.repoInfo"@) == 0);
        } else if k == 1 {
            assert(all_methods()[1] == "git.findRepos"@);
            assert(method_index("git.findRepos"@) == 1);
        } else if k == 2 {
            assert(all_methods()[2] == "git.branches"@);
            assert("git.branches"@[4] != "git.repoInfo"@[4]);
            assert(method_index("git.branches"@) == 2);
        } else if k == 3 {
            assert(all_methods()[3] == "git.switchBranch"@);
            assert(method_index("git.switchBranch"@) == 3);
        } else if k == 4 {
            assert(all_methods()[4] == "git.status"@);
            assert(method_index("git.status"@) == 4);
        } else if k == 5 {
            assert(all_methods()[5] == "git.changedPaths"@);
            assert("git.changedPaths"@[4] != "git.switchBranch"@[4]);
            assert(method_index("git.changedPaths"@) == 5);
        } else if k == 6 {
            assert(all_methods()[6] == "git.log"@);
            assert(method_index("git.log"@) == 6);
        } else if k == 7 {
            assert(all_methods()[7] == "git.commitState"@);
            assert(method_index("git.commitState"@) == 7);
        } else if k == 8 {
            assert(all_methods()[8] == "git.pullRequest"@);
            assert("git.pullRequest"@[4] != "git.commitState"@[4]);
            assert(method_index("git.pullRequest"@) == 8);
        } else if k == 9 {
            assert(all_methods()[9] == "git.stage"@);
            assert(method_index("git.stage"@) == 9);
        } else if k == 10 {
            assert(all_methods()[10] == "git.unstage"@);
            assert(method_index("git.unstage"@) == 10);
        } else if k == 11 {
            assert(all_methods()[11] == "git.discard"@);
            assert("git.discard"@[4] != "git.unstage"@[4]);
            assert(method_index("git.discard"@) == 11);
        } else if k == 12 {
            assert(all_methods()[12] == "git.commit"@);
            assert("git.commit"@[4] != "git.status"@[4]);
            assert(method_index("git.commit"@) == 12);
        } else if k == 13 {
            assert(all_methods()[13] == "git.fetch"@);
            assert("git.fetch"@[4] != "git.stage"@[4]);
            assert(method_index("git.fetch"@) == 13);
        } else if k == 14 {
            assert(all_methods()[14] == "git.push"@);
            assert(method_index("git.push"@) == 14);
        } else if k == 15 {
            assert(all_methods()[15] == "git.pull"@);
            assert("git.pull"@[6] != "git.push"@[6]);
            assert(method_index("git.pull"@) == 15);
        } else if k == 16 {
            assert(all_methods()[16] == "git.init"@);
            assert("git.init"@[4] != "git.push"@[4]);
            assert("git.init"@[4] != "git.pull"@[4]);
            assert(method_index("git.init"@) == 16);
        } else if k == 17 {
            assert(all_methods()[17] == "git.fileVersions"@);
            assert("git.fileVersions"@[4] != "git.switchBranch"@[4]);
            assert("git.fileVersions"@[4] != "git.changedPaths"@[4]);
            assert(method_index("git.fileVersions"@) == 17);
        } else if k == 18 {
            assert(all_methods()[18] == "worktree.open"@);
            assert("worktree.open"@[0] != "git.findRepos"@[0]);
            assert(method_index("worktree.open"@) == 18);
        } else if k == 19 {
            assert(all_methods()[19] == "worktree.warm"@);
            assert("worktree.warm"@[0] != "git.findRepos"@[0]);
            assert("worktree.warm"@[9] != "worktree.open"@[9]);
            assert(method_index("worktree.warm"@) == 19);
        } else if k == 20 {
            assert(all_methods()[20] == "worktree.migrate"@);
            assert("worktree.migrate"@[0] != "git.switchBranch"@[0]);
            assert("worktree.migrate"@[0] != "git.changedPaths"@[0]);
            assert("worktree.migrate"@[0] != "git.fileVersions"@[0]);
            assert(method_index("worktree.migrate"@) == 20);
        } else if k == 21 {
            assert(all_methods()[21] == "worktree.adopt"@);
            assert(method_index("worktree.adopt"@) == 21);
        } else if k == 22 {
            assert(all_methods()[22] == "worktree.recognize"@);
            assert(method_index("worktree.recognize"@) == 22);
        } else if k == 23 {
            assert(all_methods()[23] == "worktree.list"@);
            assert("worktree.list"@[0] != "git.findRepos"@[0]);
            assert("worktree.list"@[9] != "worktree.open"@[9]);
            assert("worktree.list"@[9] != "worktree.warm"@[9]);
            assert(method_index("worktree.list"@) == 23);
        } else if k == 24 {
            assert(all_methods()[24] == "worktree.claim"@);
            assert("worktree.claim"@[9] != "worktree.adopt"@[9]);
            assert(method_index("worktree.claim"@) == 24);
        } else if k == 25 {
            assert(all_methods()[25] == "worktree.reserve"@);
            assert("worktree.reserve"@[0] != "git.switchBranch"@[0]);
            assert("worktree.reserve"@[0] != "git.changedPaths"@[0]);
            assert("worktree.reserve"@[0] != "git.fileVersions"@[0]);
            assert("worktree.reserve"@[9] != "worktree.migrate"@[9]);
            assert(method_index("worktree.reserve"@) == 25);
        } else if k == 26 {
            assert(all_methods()[26] == "worktree.hold"@);
            assert("worktree.hold"@[0] != "git.findRepos"@[0]);
            assert("worktree.hold"@[9] != "worktree.open"@[9]);
            assert("worktree.hold"@[9] != "worktree.warm"@[9]);
            assert("worktree.hold"@[9] != "worktree.list"@[9]);
            assert(method_index("worktree.hold"@) == 26);
        } else if k == 27 {
            assert(all_methods()[27] == "worktree.remove"@);
            assert("worktree.remove"@[0] != "git.commitState"@[0]);
            assert("worktree.remove"@[0] != "git.pullRequest"@[0]);
            assert(method_index("worktree.remove"@) == 27);
        } else if k == 28 {
            assert(all_methods()[28] == "worktree.sizes"@);
            assert("worktree.sizes"@[9] != "worktree.adopt"@[9]);
            assert("worktree.sizes"@[9] != "worktree.claim"@[9]);
            assert(method_index("worktree.sizes"@) == 28);
        } else if k == 29 {
            assert(all_methods()[29] == "fs.readDir"@);
            assert("fs.readDir"@[0] != "git.status"@[0]);
            assert("fs.readDir"@[0] != "git.commit"@[0]);
            assert(method_index("fs.readDir"@) == 29);
        } else if k == 30 {
            assert(all_methods()[30] == "fs.search"@);
            assert("fs.search"@[0] != "git.stage"@[0]);
            assert("fs.search"@[0] != "git.fetch"@[0]);
            assert(method_index("fs.search"@) == 30);
        } else if k == 31 {
            assert(all_methods()[31] == "file.read"@);
            assert("file.read"@[0] != "git.stage"@[0]);
            assert("file.read"@[0] != "git.fetch"@[0]);
            assert("file.read"@[1] != "fs.search"@[1]);
            assert(method_index("file.read"@) == 31);
        } else if k == 32 {
            assert(all_methods()[32] == "file.write"@);
            assert("file.write"@[0] != "git.status"@[0]);
            assert("file.write"@[0] != "git.commit"@[0]);
            assert("file.write"@[1] != "fs.readDir"@[1]);
            assert(method_index("file.write"@) == 32);
        } else if k == 33 {
            assert(all_methods()[33] == "file.readBase64"@);
            assert("file.readBase64"@[0] != "git.commitState"@[0]);
            assert("file.readBase64"@[0] != "git.pullRequest"@[0]);
            assert("file.readBase64"@[0] != "worktree.remove"@[0]);
            assert(method_index("file.readBase64"@) == 33);
        } else if k == 34 {
            assert(all_methods()[34] == "project.inspect"@);
            assert("project.inspect"@[0] != "git.commitState"@[0]);
            assert("project.inspect"@[0] != "git.pullRequest"@[0]);
            assert("project.inspect"@[0] != "worktree.remove"@[0]);
            assert("project.inspect"@[0] != "file.readBase64"@[0]);
            assert(method_index("project.inspect"@) == 34);
        } else if k == 35 {
            assert(all_methods()[35] == "project.folderState"@);
            assert(method_index("project.folderState"@) == 35);
        } else if k == 36 {
            assert(all_methods()[36] == "project.createFolder"@);
            assert(method_index("project.createFolder"@) == 36);
        } else if k == 37 {
            assert(all_methods()[37] == "session.find"@);
            assert("session.find"@[0] != "git.repoInfo"@[0]);
            assert("session.find"@[0] != "git.branches"@[0]);
            assert(method_index("session.find"@) == 37);
        } else if k == 38 {
            assert(all_methods()[38] == "session.liveClaude"@);
            assert("session.liveClaude"@[0] != "worktree.recognize"@[0]);
            assert(method_index("session.liveClaude"@) == 38);
        } else if k == 39 {
            assert(all_methods()[39] == "session.agentTurns"@);
            assert("session.agentTurns"@[0] != "worktree.recognize"@[0]);
            assert("session.agentTurns"@[8] != "session.liveClaude"@[8]);
            assert(method_index("session.agentTurns"@) == 39);
        } else if k == 40 {
            assert(all_methods()[40] == "session.usage"@);
            assert("session.usage"@[0] != "git.findRepos"@[0]);
            assert("session.usage"@[0] != "worktree.open"@[0]);
            assert("session.usage"@[0] != "worktree.warm"@[0]);
            assert("session.usage"@[0] != "worktree.list"@[0]);
            assert("session.usage"@[0] != "worktree.hold"@[0]);
            assert(method_index("session.usage"@) == 40);
        } else if k == 41 {
            assert(all_methods()[41] == "session.stopClaude"@);
            assert("session.stopClaude"@[0] != "worktree.recognize"@[0]);
            assert("session.stopClaude"@[8] != "session.liveClaude"@[8]);
            assert("session.stopClaude"@[8] != "session.agentTurns"@[8]);
            assert(method_index("session.stopClaude"@) == 41);
        } else if k == 42 {
            assert(all_methods()[42] == "session.copilotResumable"@);
            assert(method_index("session.copilotResumable"@) == 42);
        } else if k == 43 {
            assert(all_methods()[43] == "session.migrate"@);
            assert("session.migrate"@[0] != "git.commitState"@[0]);
            assert("session.migrate"@[0] != "git.pullRequest"@[0]);
            assert("session.migrate"@[0] != "worktree.remove"@[0]);
            assert("session.migrate"@[0] != "file.readBase64"@[0]);
            assert("session.migrate"@[0] != "project.inspect"@[0]);
            assert(method_index("session.migrate"@) == 43);
        } else if k == 44 {
            assert(all_methods()[44] == "shell.default"@);
            assert("shell.default"@[0] != "git.findRepos"@[0]);
            assert("shell.default"@[0] != "worktree.open"@[0]);
            assert("shell.default"@[0] != "worktree.warm"@[0]);
            assert("shell.default"@[0] != "worktree.list"@[0]);
            assert("shell.default"@[0] != "worktree.hold"@[0]);
            assert("shell.default"@[1] != "session.usage"@[1]);
            assert(method_index("shell.default"@) == 44);
        } else if k == 45 {
            assert(all_methods()[45] == "shell.available"@);
            assert("shell.available"@[0] != "git.commitState"@[0]);
            assert("shell.available"@[0] != "git.pullRequest"@[0]);
            assert("shell.available"@[0] != "worktree.remove"@[0]);
            assert("shell.available"@[0] != "file.readBase64"@[0]);
            assert("shell.available"@[0] != "project.inspect"@[0]);
            assert("shell.available"@[1] != "session.migrate"@[1]);
            assert(method_index("shell.available"@) == 45);
        } else if k == 46 {
            assert(all_methods()[46] == "shell.commandExists"@);
            assert("shell.commandExists"@[0] != "project.folderState"@[0]);
            assert(method_index("shell.commandExists"@) == 46);
        } else if k == 47 {
            assert(all_methods()[47] == "fastpick.list"@);
            assert("fastpick.list"@[0] != "git.findRepos"@[0]);
            assert("fastpick.list"@[0] != "worktree.open"@[0]);
            assert("fastpick.list"@[0] != "worktree.warm"@[0]);
            assert("fastpick.list"@[0] != "worktree.list"@[0]);
            assert("fastpick.list"@[0] != "worktree.hold"@[0]);
            assert("fastpick.list"@[0] != "session.usage"@[0]);
            assert("fastpick.list"@[0] != "shell.default"@[0]);
            assert(method_index("fastpick.list"@) == 47);
        } else if k == 48 {
            assert(all_methods()[48] == "fastpick.version"@);
            assert("fastpick.version"@[0] != "git.switchBranch"@[0]);
            assert("fastpick.version"@[0] != "git.changedPaths"@[0]);
            assert("fastpick.version"@[0] != "git.fileVersions"@[0]);
            assert("fastpick.version"@[0] != "worktree.migrate"@[0]);
            assert("fastpick.version"@[0] != "worktree.reserve"@[0]);
            assert(method_index("fastpick.version"@) == 48);
        } else if k == 49 {
            assert(all_methods()[49] == "codexSwitcher.list"@);
            assert("codexSwitcher.list"@[0] != "worktree.recognize"@[0]);
            assert("codexSwitcher.list"@[0] != "session.liveClaude"@[0]);
            assert("codexSwitcher.list"@[0] != "session.agentTurns"@[0]);
            assert("codexSwitcher.list"@[0] != "session.stopClaude"@[0]);
            assert(method_index("codexSwitcher.list"@) == 49);
        } else if k == 50 {
            assert(all_methods()[50] == "codexSwitcher.save"@);
            assert("codexSwitcher.save"@[0] != "worktree.recognize"@[0]);
            assert("codexSwitcher.save"@[0] != "session.liveClaude"@[0]);
            assert("codexSwitcher.save"@[0] != "session.agentTurns"@[0]);
            assert("codexSwitcher.save"@[0] != "session.stopClaude"@[0]);
            assert("codexSwitcher.save"@[14] != "codexSwitcher.list"@[14]);
            assert(method_index("codexSwitcher.save"@) == 50);
        } else if k == 51 {
            assert(all_methods()[51] == "codexSwitcher.activate"@);
            assert(method_index("codexSwitcher.activate"@) == 51);
        } else if k == 52 {
            assert(all_methods()[52] == "codexSwitcher.version"@);
            assert(method_index("codexSwitcher.version"@) == 52);
        } else if k == 53 {
            assert(all_methods()[53] == "fastMcpSsh.version"@);
            assert("fastMcpSsh.version"@[0] != "worktree.recognize"@[0]);
            assert("fastMcpSsh.version"@[0] != "session.liveClaude"@[0]);
            assert("fastMcpSsh.version"@[0] != "session.agentTurns"@[0]);
            assert("fastMcpSsh.version"@[0] != "session.stopClaude"@[0]);
            assert("fastMcpSsh.version"@[0] != "codexSwitcher.list"@[0]);
            assert("fastMcpSsh.version"@[0] != "codexSwitcher.save"@[0]);
            assert(method_index("fastMcpSsh.version"@) == 53);
        } else if k == 54 {
            assert(all_methods()[54] == "kebaccSwitcher.list"@);
            assert("kebaccSwitcher.list"@[0] != "project.folderState"@[0]);
            assert("kebaccSwitcher.list"@[0] != "shell.commandExists"@[0]);
            assert(method_index("kebaccSwitcher.list"@) == 54);
        } else if k == 55 {
            assert(all_methods()[55] == "kebaccSwitcher.add"@);
            assert("kebaccSwitcher.add"@[0] != "worktree.recognize"@[0]);
            assert("kebaccSwitcher.add"@[0] != "session.liveClaude"@[0]);
            assert("kebaccSwitcher.add"@[0] != "session.agentTurns"@[0]);
            assert("kebaccSwitcher.add"@[0] != "session.stopClaude"@[0]);
            assert("kebaccSwitcher.add"@[0] != "codexSwitcher.list"@[0]);
            assert("kebaccSwitcher.add"@[0] != "codexSwitcher.save"@[0]);
            assert("kebaccSwitcher.add"@[0] != "fastMcpSsh.version"@[0]);
            assert(method_index("kebaccSwitcher.add"@) == 55);
        } else if k == 56 {
            assert(all_methods()[56] == "kebaccSwitcher.switch"@);
            assert("kebaccSwitcher.switch"@[0] != "codexSwitcher.version"@[0]);
            assert(method_index("kebaccSwitcher.switch"@) == 56);
        } else if k == 57 {
            assert(all_methods()[57] == "kebaccSwitcher.version"@);
            assert("kebaccSwitcher.version"@[0] != "codexSwitcher.activate"@[0]);
            assert(method_index("kebaccSwitcher.version"@) == 57);
        } else if k == 58 {
            assert(all_methods()[58] == "session.transcript"@);
            assert("session.transcript"@[0] != "worktree.recognize"@[0]);
            assert("session.transcript"@[8] != "session.liveClaude"@[8]);
            assert("session.transcript"@[8] != "session.agentTurns"@[8]);
            assert("session.transcript"@[8] != "session.stopClaude"@[8]);
            assert("session.transcript"@[0] != "codexSwitcher.list"@[0]);
            assert("session.transcript"@[0] != "codexSwitcher.save"@[0]);
            assert("session.transcript"@[0] != "fastMcpSsh.version"@[0]);
            assert("session.transcript"@[0] != "kebaccSwitcher.add"@[0]);
            assert(method_index("session.transcript"@) == 58);
        } else if k == 59 {
            assert(all_methods()[59] == "cli.catalog"@);
            assert("cli.catalog"@[0] != "git.unstage"@[0]);
            assert("cli.catalog"@[0] != "git.discard"@[0]);
            assert(method_index("cli.catalog"@) == 59);
        } else if k == 60 {
            assert(all_methods()[60] == "cli.latest"@);
            assert("cli.latest"@[0] != "git.status"@[0]);
            assert("cli.latest"@[0] != "git.commit"@[0]);
            assert("cli.latest"@[0] != "fs.readDir"@[0]);
            assert("cli.latest"@[0] != "file.write"@[0]);
            assert(method_index("cli.latest"@) == 60);
        } else if k == 61 {
            assert(all_methods()[61] == "cli.jobs"@);
            assert("cli.jobs"@[0] != "git.push"@[0]);
            assert("cli.jobs"@[0] != "git.pull"@[0]);
            assert("cli.jobs"@[0] != "git.init"@[0]);
            assert(method_index("cli.jobs"@) == 61);
        } else if k == 62 {
            assert(all_methods()[62] == "cli.dataPaths"@);
            assert("cli.dataPaths"@[0] != "git.findRepos"@[0]);
            assert("cli.dataPaths"@[0] != "worktree.open"@[0]);
            assert("cli.dataPaths"@[0] != "worktree.warm"@[0]);
            assert("cli.dataPaths"@[0] != "worktree.list"@[0]);
            assert("cli.dataPaths"@[0] != "worktree.hold"@[0]);
            assert("cli.dataPaths"@[0] != "session.usage"@[0]);
            assert("cli.dataPaths"@[0] != "shell.default"@[0]);
            assert("cli.dataPaths"@[0] != "fastpick.list"@[0]);
            assert(method_index("cli.dataPaths"@) == 62);
        } else if k == 63 {
            assert(all_methods()[63] == "cli.install"@);
            assert("cli.install"@[0] != "git.unstage"@[0]);
            assert("cli.install"@[0] != "git.discard"@[0]);
            assert("cli.install"@[4] != "cli.catalog"@[4]);
            assert(method_index("cli.install"@) == 63);
        } else if k == 64 {
            assert(all_methods()[64] == "cli.uninstall"@);
            assert("cli.uninstall"@[0] != "git.findRepos"@[0]);
            assert("cli.uninstall"@[0] != "worktree.open"@[0]);
            assert("cli.uninstall"@[0] != "worktree.warm"@[0]);
            assert("cli.uninstall"@[0] != "worktree.list"@[0]);
            assert("cli.uninstall"@[0] != "worktree.hold"@[0]);
            assert("cli.uninstall"@[0] != "session.usage"@[0]);
            assert("cli.uninstall"@[0] != "shell.default"@[0]);
            assert("cli.uninstall"@[0] != "fastpick.list"@[0]);
            assert("cli.uninstall"@[4] != "cli.dataPaths"@[4]);
            assert(method_index("cli.uninstall"@) == 64);
        } else if k == 65 {
            assert(all_methods()[65] == "cli.cancel"@);
            assert("cli.cancel"@[0] != "git.status"@[0]);
            assert("cli.cancel"@[0] != "git.commit"@[0]);
            assert("cli.cancel"@[0] != "fs.readDir"@[0]);
            assert("cli.cancel"@[0] != "file.write"@[0]);
            assert("cli.cancel"@[4] != "cli.latest"@[4]);
            assert(method_index("cli.cancel"@) == 65);
        } else if k == 66 {
            assert(all_methods()[66] == "cli.dismiss"@);
            assert("cli.dismiss"@[0] != "git.unstage"@[0]);
            assert("cli.dismiss"@[0] != "git.discard"@[0]);
            assert("cli.dismiss"@[4] != "cli.catalog"@[4]);
            assert("cli.dismiss"@[4] != "cli.install"@[4]);
            assert(method_index("cli.dismiss"@) == 66);
        } else if k == 67 {
            assert(all_methods()[67] == "mcp.catalog"@);
            assert("mcp.catalog"@[0] != "git.unstage"@[0]);
            assert("mcp.catalog"@[0] != "git.discard"@[0]);
            assert("mcp.catalog"@[0] != "cli.catalog"@[0]);
            assert("mcp.catalog"@[0] != "cli.install"@[0]);
            assert("mcp.catalog"@[0] != "cli.dismiss"@[0]);
            assert(method_index("mcp.catalog"@) == 67);
        } else if k == 68 {
            assert(all_methods()[68] == "project.list"@);
            assert("project.list"@[0] != "git.repoInfo"@[0]);
            assert("project.list"@[0] != "git.branches"@[0]);
            assert("project.list"@[0] != "session.find"@[0]);
            assert(method_index("project.list"@) == 68);
        } else if k == 69 {
            assert(all_methods()[69] == "project.create"@);
            assert("project.create"@[0] != "worktree.adopt"@[0]);
            assert("project.create"@[0] != "worktree.claim"@[0]);
            assert("project.create"@[0] != "worktree.sizes"@[0]);
            assert(method_index("project.create"@) == 69);
        } else if k == 70 {
            assert(all_methods()[70] == "project.archive"@);
            assert("project.archive"@[0] != "git.commitState"@[0]);
            assert("project.archive"@[0] != "git.pullRequest"@[0]);
            assert("project.archive"@[0] != "worktree.remove"@[0]);
            assert("project.archive"@[0] != "file.readBase64"@[0]);
            assert("project.archive"@[8] != "project.inspect"@[8]);
            assert("project.archive"@[0] != "session.migrate"@[0]);
            assert("project.archive"@[0] != "shell.available"@[0]);
            assert(method_index("project.archive"@) == 70);
        } else if k == 71 {
            assert(all_methods()[71] == "project.delete"@);
            assert("project.delete"@[0] != "worktree.adopt"@[0]);
            assert("project.delete"@[0] != "worktree.claim"@[0]);
            assert("project.delete"@[0] != "worktree.sizes"@[0]);
            assert("project.delete"@[8] != "project.create"@[8]);
            assert(method_index("project.delete"@) == 71);
        } else if k == 72 {
            assert(all_methods()[72] == "thread.list"@);
            assert("thread.list"@[0] != "git.unstage"@[0]);
            assert("thread.list"@[0] != "git.discard"@[0]);
            assert("thread.list"@[0] != "cli.catalog"@[0]);
            assert("thread.list"@[0] != "cli.install"@[0]);
            assert("thread.list"@[0] != "cli.dismiss"@[0]);
            assert("thread.list"@[0] != "mcp.catalog"@[0]);
            assert(method_index("thread.list"@) == 72);
        } else if k == 73 {
            assert(all_methods()[73] == "thread.create"@);
            assert("thread.create"@[0] != "git.findRepos"@[0]);
            assert("thread.create"@[0] != "worktree.open"@[0]);
            assert("thread.create"@[0] != "worktree.warm"@[0]);
            assert("thread.create"@[0] != "worktree.list"@[0]);
            assert("thread.create"@[0] != "worktree.hold"@[0]);
            assert("thread.create"@[0] != "session.usage"@[0]);
            assert("thread.create"@[0] != "shell.default"@[0]);
            assert("thread.create"@[0] != "fastpick.list"@[0]);
            assert("thread.create"@[0] != "cli.dataPaths"@[0]);
            assert("thread.create"@[0] != "cli.uninstall"@[0]);
            assert(method_index("thread.create"@) == 73);
        } else if k == 74 {
            assert(all_methods()[74] == "thread.update"@);
            assert("thread.update"@[0] != "git.findRepos"@[0]);
            assert("thread.update"@[0] != "worktree.open"@[0]);
            assert("thread.update"@[0] != "worktree.warm"@[0]);
            assert("thread.update"@[0] != "worktree.list"@[0]);
            assert("thread.update"@[0] != "worktree.hold"@[0]);
            assert("thread.update"@[0] != "session.usage"@[0]);
            assert("thread.update"@[0] != "shell.default"@[0]);
            assert("thread.update"@[0] != "fastpick.list"@[0]);
            assert("thread.update"@[0] != "cli.dataPaths"@[0]);
            assert("thread.update"@[0] != "cli.uninstall"@[0]);
            assert("thread.update"@[7] != "thread.create"@[7]);
            assert(method_index("thread.update"@) == 74);
        } else if k == 75 {
            assert(all_methods()[75] == "thread.started"@);
            assert("thread.started"@[0] != "worktree.adopt"@[0]);
            assert("thread.started"@[0] != "worktree.claim"@[0]);
            assert("thread.started"@[0] != "worktree.sizes"@[0]);
            assert("thread.started"@[0] != "project.create"@[0]);
            assert("thread.started"@[0] != "project.delete"@[0]);
            assert(method_index("thread.started"@) == 75);
        } else if k == 76 {
            assert(all_methods()[76] == "thread.settle"@);
            assert("thread.settle"@[0] != "git.findRepos"@[0]);
            assert("thread.settle"@[0] != "worktree.open"@[0]);
            assert("thread.settle"@[0] != "worktree.warm"@[0]);
            assert("thread.settle"@[0] != "worktree.list"@[0]);
            assert("thread.settle"@[0] != "worktree.hold"@[0]);
            assert("thread.settle"@[0] != "session.usage"@[0]);
            assert("thread.settle"@[0] != "shell.default"@[0]);
            assert("thread.settle"@[0] != "fastpick.list"@[0]);
            assert("thread.settle"@[0] != "cli.dataPaths"@[0]);
            assert("thread.settle"@[0] != "cli.uninstall"@[0]);
            assert("thread.settle"@[7] != "thread.create"@[7]);
            assert("thread.settle"@[7] != "thread.update"@[7]);
            assert(method_index("thread.settle"@) == 76);
        } else if k == 77 {
            assert(all_methods()[77] == "thread.delete"@);
            assert("thread.delete"@[0] != "git.findRepos"@[0]);
            assert("thread.delete"@[0] != "worktree.open"@[0]);
            assert("thread.delete"@[0] != "worktree.warm"@[0]);
            assert("thread.delete"@[0] != "worktree.list"@[0]);
            assert("thread.delete"@[0] != "worktree.hold"@[0]);
            assert("thread.delete"@[0] != "session.usage"@[0]);
            assert("thread.delete"@[0] != "shell.default"@[0]);
            assert("thread.delete"@[0] != "fastpick.list"@[0]);
            assert("thread.delete"@[0] != "cli.dataPaths"@[0]);
            assert("thread.delete"@[0] != "cli.uninstall"@[0]);
            assert("thread.delete"@[7] != "thread.create"@[7]);
            assert("thread.delete"@[7] != "thread.update"@[7]);
            assert("thread.delete"@[7] != "thread.settle"@[7]);
            assert(method_index("thread.delete"@) == 77);
        } else if k == 78 {
            assert(all_methods()[78] == "todo.list"@);
            assert("todo.list"@[0] != "git.stage"@[0]);
            assert("todo.list"@[0] != "git.fetch"@[0]);
            assert("todo.list"@[0] != "fs.search"@[0]);
            assert("todo.list"@[0] != "file.read"@[0]);
            assert(method_index("todo.list"@) == 78);
        } else if k == 79 {
            assert(all_methods()[79] == "todo.save"@);
            assert("todo.save"@[0] != "git.stage"@[0]);
            assert("todo.save"@[0] != "git.fetch"@[0]);
            assert("todo.save"@[0] != "fs.search"@[0]);
            assert("todo.save"@[0] != "file.read"@[0]);
            assert("todo.save"@[5] != "todo.list"@[5]);
            assert(method_index("todo.save"@) == 79);
        } else if k == 80 {
            assert(all_methods()[80] == "todo.delete"@);
            assert("todo.delete"@[0] != "git.unstage"@[0]);
            assert("todo.delete"@[0] != "git.discard"@[0]);
            assert("todo.delete"@[0] != "cli.catalog"@[0]);
            assert("todo.delete"@[0] != "cli.install"@[0]);
            assert("todo.delete"@[0] != "cli.dismiss"@[0]);
            assert("todo.delete"@[0] != "mcp.catalog"@[0]);
            assert("todo.delete"@[1] != "thread.list"@[1]);
            assert(method_index("todo.delete"@) == 80);
        } else if k == 81 {
            assert(all_methods()[81] == "settings.get"@);
            assert("settings.get"@[0] != "git.repoInfo"@[0]);
            assert("settings.get"@[0] != "git.branches"@[0]);
            assert("settings.get"@[2] != "session.find"@[2]);
            assert("settings.get"@[0] != "project.list"@[0]);
            assert(method_index("settings.get"@) == 81);
        } else if k == 82 {
            assert(all_methods()[82] == "settings.set"@);
            assert("settings.set"@[0] != "git.repoInfo"@[0]);
            assert("settings.set"@[0] != "git.branches"@[0]);
            assert("settings.set"@[2] != "session.find"@[2]);
            assert("settings.set"@[0] != "project.list"@[0]);
            assert("settings.set"@[9] != "settings.get"@[9]);
            assert(method_index("settings.set"@) == 82);
        } else if k == 83 {
            assert(all_methods()[83] == "workspace.info"@);
            assert("workspace.info"@[4] != "worktree.adopt"@[4]);
            assert("workspace.info"@[4] != "worktree.claim"@[4]);
            assert("workspace.info"@[4] != "worktree.sizes"@[4]);
            assert("workspace.info"@[0] != "project.create"@[0]);
            assert("workspace.info"@[0] != "project.delete"@[0]);
            assert("workspace.info"@[0] != "thread.started"@[0]);
            assert(method_index("workspace.info"@) == 83);
        } else if k == 84 {
            assert(all_methods()[84] == "workspace.setInfo"@);
            assert(method_index("workspace.setInfo"@) == 84);
        } else if k == 85 {
            assert(all_methods()[85] == "search.query"@);
            assert("search.query"@[0] != "git.repoInfo"@[0]);
            assert("search.query"@[0] != "git.branches"@[0]);
            assert("search.query"@[2] != "session.find"@[2]);
            assert("search.query"@[0] != "project.list"@[0]);
            assert("search.query"@[2] != "settings.get"@[2]);
            assert("search.query"@[2] != "settings.set"@[2]);
            assert(method_index("search.query"@) == 85);
        } else if k == 86 {
            assert(all_methods()[86] == "checkpoint.capture"@);
            assert("checkpoint.capture"@[0] != "worktree.recognize"@[0]);
            assert("checkpoint.capture"@[0] != "session.liveClaude"@[0]);
            assert("checkpoint.capture"@[0] != "session.agentTurns"@[0]);
            assert("checkpoint.capture"@[0] != "session.stopClaude"@[0]);
            assert("checkpoint.capture"@[1] != "codexSwitcher.list"@[1]);
            assert("checkpoint.capture"@[1] != "codexSwitcher.save"@[1]);
            assert("checkpoint.capture"@[0] != "fastMcpSsh.version"@[0]);
            assert("checkpoint.capture"@[0] != "kebaccSwitcher.add"@[0]);
            assert("checkpoint.capture"@[0] != "session.transcript"@[0]);
            assert(method_index("checkpoint.capture"@) == 86);
        } else if k == 87 {
            assert(all_methods()[87] == "checkpoint.list"@);
            assert("checkpoint.list"@[0] != "git.commitState"@[0]);
            assert("checkpoint.list"@[0] != "git.pullRequest"@[0]);
            assert("checkpoint.list"@[0] != "worktree.remove"@[0]);
            assert("checkpoint.list"@[0] != "file.readBase64"@[0]);
            assert("checkpoint.list"@[0] != "project.inspect"@[0]);
            assert("checkpoint.list"@[0] != "session.migrate"@[0]);
            assert("checkpoint.list"@[0] != "shell.available"@[0]);
            assert("checkpoint.list"@[0] != "project.archive"@[0]);
            assert(method_index("checkpoint.list"@) == 87);
        } else if k == 88 {
            assert(all_methods()[88] == "checkpoint.diff"@);
            assert("checkpoint.diff"@[0] != "git.commitState"@[0]);
            assert("checkpoint.diff"@[0] != "git.pullRequest"@[0]);
            assert("checkpoint.diff"@[0] != "worktree.remove"@[0]);
            assert("checkpoint.diff"@[0] != "file.readBase64"@[0]);
            assert("checkpoint.diff"@[0] != "project.inspect"@[0]);
            assert("checkpoint.diff"@[0] != "session.migrate"@[0]);
            assert("checkpoint.diff"@[0] != "shell.available"@[0]);
            assert("checkpoint.diff"@[0] != "project.archive"@[0]);
            assert("checkpoint.diff"@[11] != "checkpoint.list"@[11]);
            assert(method_index("checkpoint.diff"@) == 88);
        } else if k == 89 {
            assert(all_methods()[89] == "checkpoint.fileVersions"@);
            assert(method_index("checkpoint.fileVersions"@) == 89);
        } else if k == 90 {
            assert(all_methods()[90] == "checkpoint.restore"@);
            assert("checkpoint.restore"@[0] != "worktree.recognize"@[0]);
            assert("checkpoint.restore"@[0] != "session.liveClaude"@[0]);
            assert("checkpoint.restore"@[0] != "session.agentTurns"@[0]);
            assert("checkpoint.restore"@[0] != "session.stopClaude"@[0]);
            assert("checkpoint.restore"@[1] != "codexSwitcher.list"@[1]);
            assert("checkpoint.restore"@[1] != "codexSwitcher.save"@[1]);
            assert("checkpoint.restore"@[0] != "fastMcpSsh.version"@[0]);
            assert("checkpoint.restore"@[0] != "kebaccSwitcher.add"@[0]);
            assert("checkpoint.restore"@[0] != "session.transcript"@[0]);
            assert("checkpoint.restore"@[11] != "checkpoint.capture"@[11]);
            assert(method_index("checkpoint.restore"@) == 90);
        } else if k == 91 {
            assert(all_methods()[91] == "checkpoint.forget"@);
            assert("checkpoint.forget"@[0] != "workspace.setInfo"@[0]);
            assert(method_index("checkpoint.forget"@) == 91);
        } else if k == 92 {
            assert(all_methods()[92] == "conduct.pulse"@);
            assert("conduct.pulse"@[0] != "git.findRepos"@[0]);
            assert("conduct.pulse"@[0] != "worktree.open"@[0]);
            assert("conduct.pulse"@[0] != "worktree.warm"@[0]);
            assert("conduct.pulse"@[0] != "worktree.list"@[0]);
            assert("conduct.pulse"@[0] != "worktree.hold"@[0]);
            assert("conduct.pulse"@[0] != "session.usage"@[0]);
            assert("conduct.pulse"@[0] != "shell.default"@[0]);
            assert("conduct.pulse"@[0] != "fastpick.list"@[0]);
            assert("conduct.pulse"@[1] != "cli.dataPaths"@[1]);
            assert("conduct.pulse"@[1] != "cli.uninstall"@[1]);
            assert("conduct.pulse"@[0] != "thread.create"@[0]);
            assert("conduct.pulse"@[0] != "thread.update"@[0]);
            assert("conduct.pulse"@[0] != "thread.settle"@[0]);
            assert("conduct.pulse"@[0] != "thread.delete"@[0]);
            assert(method_index("conduct.pulse"@) == 92);
        } else if k == 93 {
            assert(all_methods()[93] == "conduct.record"@);
            assert("conduct.record"@[0] != "worktree.adopt"@[0]);
            assert("conduct.record"@[0] != "worktree.claim"@[0]);
            assert("conduct.record"@[0] != "worktree.sizes"@[0]);
            assert("conduct.record"@[0] != "project.create"@[0]);
            assert("conduct.record"@[0] != "project.delete"@[0]);
            assert("conduct.record"@[0] != "thread.started"@[0]);
            assert("conduct.record"@[0] != "workspace.info"@[0]);
            assert(method_index("conduct.record"@) == 93);
        } else if k == 94 {
            assert(all_methods()[94] == "orchestrator.post"@);
            assert("orchestrator.post"@[0] != "workspace.setInfo"@[0]);
            assert("orchestrator.post"@[0] != "checkpoint.forget"@[0]);
            assert(method_index("orchestrator.post"@) == 94);
        } else if k == 95 {
            assert(all_methods()[95] == "orchestrator.say"@);
            assert("orchestrator.say"@[0] != "git.switchBranch"@[0]);
            assert("orchestrator.say"@[0] != "git.changedPaths"@[0]);
            assert("orchestrator.say"@[0] != "git.fileVersions"@[0]);
            assert("orchestrator.say"@[0] != "worktree.migrate"@[0]);
            assert("orchestrator.say"@[0] != "worktree.reserve"@[0]);
            assert("orchestrator.say"@[0] != "fastpick.version"@[0]);
            assert(method_index("orchestrator.say"@) == 95);
        } else if k == 96 {
            assert(all_methods()[96] == "orchestrator.messages"@);
            assert("orchestrator.messages"@[0] != "codexSwitcher.version"@[0]);
            assert("orchestrator.messages"@[0] != "kebaccSwitcher.switch"@[0]);
            assert(method_index("orchestrator.messages"@) == 96);
        } else if k == 97 {
            assert(all_methods()[97] == "orchestrator.start"@);
            assert("orchestrator.start"@[0] != "worktree.recognize"@[0]);
            assert("orchestrator.start"@[0] != "session.liveClaude"@[0]);
            assert("orchestrator.start"@[0] != "session.agentTurns"@[0]);
            assert("orchestrator.start"@[0] != "session.stopClaude"@[0]);
            assert("orchestrator.start"@[0] != "codexSwitcher.list"@[0]);
            assert("orchestrator.start"@[0] != "codexSwitcher.save"@[0]);
            assert("orchestrator.start"@[0] != "fastMcpSsh.version"@[0]);
            assert("orchestrator.start"@[0] != "kebaccSwitcher.add"@[0]);
            assert("orchestrator.start"@[0] != "session.transcript"@[0]);
            assert("orchestrator.start"@[0] != "checkpoint.capture"@[0]);
            assert("orchestrator.start"@[0] != "checkpoint.restore"@[0]);
            assert(method_index("orchestrator.start"@) == 97);
        } else if k == 98 {
            assert(all_methods()[98] == "orchestrator.status"@);
            assert("orchestrator.status"@[0] != "project.folderState"@[0]);
            assert("orchestrator.status"@[0] != "shell.commandExists"@[0]);
            assert("orchestrator.status"@[0] != "kebaccSwitcher.list"@[0]);
            assert(method_index("orchestrator.status"@) == 98);
        } else if k == 99 {
            assert(all_methods()[99] == "orchestrator.actions"@);
            assert("orchestrator.actions"@[0] != "project.createFolder"@[0]);
            assert(method_index("orchestrator.actions"@) == 99);
        } else if k == 100 {
            assert(all_methods()[100] == "orchestrator.undo"@);
            assert("orchestrator.undo"@[0] != "workspace.setInfo"@[0]);
            assert("orchestrator.undo"@[0] != "checkpoint.forget"@[0]);
            assert("orchestrator.undo"@[13] != "orchestrator.post"@[13]);
            assert(method_index("orchestrator.undo"@) == 100);
        } else if k == 101 {
            assert(all_methods()[101] == "thread.dispatch"@);
            assert("thread.dispatch"@[0] != "git.commitState"@[0]);
            assert("thread.dispatch"@[0] != "git.pullRequest"@[0]);
            assert("thread.dispatch"@[0] != "worktree.remove"@[0]);
            assert("thread.dispatch"@[0] != "file.readBase64"@[0]);
            assert("thread.dispatch"@[0] != "project.inspect"@[0]);
            assert("thread.dispatch"@[0] != "session.migrate"@[0]);
            assert("thread.dispatch"@[0] != "shell.available"@[0]);
            assert("thread.dispatch"@[0] != "project.archive"@[0]);
            assert("thread.dispatch"@[0] != "checkpoint.list"@[0]);
            assert("thread.dispatch"@[0] != "checkpoint.diff"@[0]);
            assert(method_index("thread.dispatch"@) == 101);
        } else if k == 102 {
            assert(all_methods()[102] == "thread.acceptDispatch"@);
            assert("thread.acceptDispatch"@[0] != "codexSwitcher.version"@[0]);
            assert("thread.acceptDispatch"@[0] != "kebaccSwitcher.switch"@[0]);
            assert("thread.acceptDispatch"@[0] != "orchestrator.messages"@[0]);
            assert(method_index("thread.acceptDispatch"@) == 102);
        } else if k == 103 {
            assert(all_methods()[103] == "dispatch.drain"@);
            assert("dispatch.drain"@[0] != "worktree.adopt"@[0]);
            assert("dispatch.drain"@[0] != "worktree.claim"@[0]);
            assert("dispatch.drain"@[0] != "worktree.sizes"@[0]);
            assert("dispatch.drain"@[0] != "project.create"@[0]);
            assert("dispatch.drain"@[0] != "project.delete"@[0]);
            assert("dispatch.drain"@[0] != "thread.started"@[0]);
            assert("dispatch.drain"@[0] != "workspace.info"@[0]);
            assert("dispatch.drain"@[0] != "conduct.record"@[0]);
            assert(method_index("dispatch.drain"@) == 103);
        } else if k == 104 {
            assert(all_methods()[104] == "dispatch.settle"@);
            assert("dispatch.settle"@[0] != "git.commitState"@[0]);
            assert("dispatch.settle"@[0] != "git.pullRequest"@[0]);
            assert("dispatch.settle"@[0] != "worktree.remove"@[0]);
            assert("dispatch.settle"@[0] != "file.readBase64"@[0]);
            assert("dispatch.settle"@[0] != "project.inspect"@[0]);
            assert("dispatch.settle"@[0] != "session.migrate"@[0]);
            assert("dispatch.settle"@[0] != "shell.available"@[0]);
            assert("dispatch.settle"@[0] != "project.archive"@[0]);
            assert("dispatch.settle"@[0] != "checkpoint.list"@[0]);
            assert("dispatch.settle"@[0] != "checkpoint.diff"@[0]);
            assert("dispatch.settle"@[0] != "thread.dispatch"@[0]);
            assert(method_index("dispatch.settle"@) == 104);
        } else if k == 105 {
            assert(all_methods()[105] == "voice.transcribe"@);
            assert("voice.transcribe"@[0] != "git.switchBranch"@[0]);
            assert("voice.transcribe"@[0] != "git.changedPaths"@[0]);
            assert("voice.transcribe"@[0] != "git.fileVersions"@[0]);
            assert("voice.transcribe"@[0] != "worktree.migrate"@[0]);
            assert("voice.transcribe"@[0] != "worktree.reserve"@[0]);
            assert("voice.transcribe"@[0] != "fastpick.version"@[0]);
            assert("voice.transcribe"@[0] != "orchestrator.say"@[0]);
            assert(method_index("voice.transcribe"@) == 105);
        } else if k == 106 {
            assert(all_methods()[106] == "sync.sources"@);
            assert("sync.sources"@[0] != "git.repoInfo"@[0]);
            assert("sync.sources"@[0] != "git.branches"@[0]);
            assert("sync.sources"@[1] != "session.find"@[1]);
            assert("sync.sources"@[0] != "project.list"@[0]);
            assert("sync.sources"@[1] != "settings.get"@[1]);
            assert("sync.sources"@[1] != "settings.set"@[1]);
            assert("sync.sources"@[1] != "search.query"@[1]);
            assert(method_index("sync.sources"@) == 106);
        } else if k == 107 {
            assert(all_methods()[107] == "sync.status"@);
            assert("sync.status"@[0] != "git.unstage"@[0]);
            assert("sync.status"@[0] != "git.discard"@[0]);
            assert("sync.status"@[0] != "cli.catalog"@[0]);
            assert("sync.status"@[0] != "cli.install"@[0]);
            assert("sync.status"@[0] != "cli.dismiss"@[0]);
            assert("sync.status"@[0] != "mcp.catalog"@[0]);
            assert("sync.status"@[0] != "thread.list"@[0]);
            assert("sync.status"@[0] != "todo.delete"@[0]);
            assert(method_index("sync.status"@) == 107);
        } else if k == 108 {
            assert(all_methods()[108] == "sync.probe"@);
            assert("sync.probe"@[0] != "git.status"@[0]);
            assert("sync.probe"@[0] != "git.commit"@[0]);
            assert("sync.probe"@[0] != "fs.readDir"@[0]);
            assert("sync.probe"@[0] != "file.write"@[0]);
            assert("sync.probe"@[0] != "cli.latest"@[0]);
            assert("sync.probe"@[0] != "cli.cancel"@[0]);
            assert(method_index("sync.probe"@) == 108);
        } else if k == 109 {
            assert(all_methods()[109] == "sync.pull"@);
            assert("sync.pull"@[0] != "git.stage"@[0]);
            assert("sync.pull"@[0] != "git.fetch"@[0]);
            assert("sync.pull"@[0] != "fs.search"@[0]);
            assert("sync.pull"@[0] != "file.read"@[0]);
            assert("sync.pull"@[0] != "todo.list"@[0]);
            assert("sync.pull"@[0] != "todo.save"@[0]);
            assert(method_index("sync.pull"@) == 109);
        } else if k == 110 {
            assert(all_methods()[110] == "sync.conflicts"@);
            assert("sync.conflicts"@[0] != "worktree.adopt"@[0]);
            assert("sync.conflicts"@[0] != "worktree.claim"@[0]);
            assert("sync.conflicts"@[0] != "worktree.sizes"@[0]);
            assert("sync.conflicts"@[0] != "project.create"@[0]);
            assert("sync.conflicts"@[0] != "project.delete"@[0]);
            assert("sync.conflicts"@[0] != "thread.started"@[0]);
            assert("sync.conflicts"@[0] != "workspace.info"@[0]);
            assert("sync.conflicts"@[0] != "conduct.record"@[0]);
            assert("sync.conflicts"@[0] != "dispatch.drain"@[0]);
            assert(method_index("sync.conflicts"@) == 110);
        } else if k == 111 {
            assert(all_methods()[111] == "sync.resolve"@);
            assert("sync.resolve"@[0] != "git.repoInfo"@[0]);
            assert("sync.resolve"@[0] != "git.branches"@[0]);
            assert("sync.resolve"@[1] != "session.find"@[1]);
            assert("sync.resolve"@[0] != "project.list"@[0]);
            assert("sync.resolve"@[1] != "settings.get"@[1]);
            assert("sync.resolve"@[1] != "settings.set"@[1]);
            assert("sync.resolve"@[1] != "search.query"@[1]);
            assert("sync.resolve"@[5] != "sync.sources"@[5]);
            assert(method_index("sync.resolve"@) == 111);
        } else if k == 112 {
            assert(all_methods()[112] == "sync.skip"@);
            assert("sync.skip"@[0] != "git.stage"@[0]);
            assert("sync.skip"@[0] != "git.fetch"@[0]);
            assert("sync.skip"@[0] != "fs.search"@[0]);
            assert("sync.skip"@[0] != "file.read"@[0]);
            assert("sync.skip"@[0] != "todo.list"@[0]);
            assert("sync.skip"@[0] != "todo.save"@[0]);
            assert("sync.skip"@[5] != "sync.pull"@[5]);
            assert(method_index("sync.skip"@) == 112);
        } else if k == 113 {
            assert(all_methods()[113] == "sync.push"@);
            assert("sync.push"@[0] != "git.stage"@[0]);
            assert("sync.push"@[0] != "git.fetch"@[0]);
            assert("sync.push"@[0] != "fs.search"@[0]);
            assert("sync.push"@[0] != "file.read"@[0]);
            assert("sync.push"@[0] != "todo.list"@[0]);
            assert("sync.push"@[0] != "todo.save"@[0]);
            assert("sync.push"@[7] != "sync.pull"@[7]);
            assert("sync.push"@[5] != "sync.skip"@[5]);
            assert(method_index("sync.push"@) == 113);
        } else if k == 114 {
            assert(all_methods()[114] == "sync.cancel"@);
            assert("sync.cancel"@[0] != "git.unstage"@[0]);
            assert("sync.cancel"@[0] != "git.discard"@[0]);
            assert("sync.cancel"@[0] != "cli.catalog"@[0]);
            assert("sync.cancel"@[0] != "cli.install"@[0]);
            assert("sync.cancel"@[0] != "cli.dismiss"@[0]);
            assert("sync.cancel"@[0] != "mcp.catalog"@[0]);
            assert("sync.cancel"@[0] != "thread.list"@[0]);
            assert("sync.cancel"@[0] != "todo.delete"@[0]);
            assert("sync.cancel"@[5] != "sync.status"@[5]);
            assert(method_index("sync.cancel"@) == 114);
        } else if k == 115 {
            assert(all_methods()[115] == "sync.dismiss"@);
            assert("sync.dismiss"@[0] != "git.repoInfo"@[0]);
            assert("sync.dismiss"@[0] != "git.branches"@[0]);
            assert("sync.dismiss"@[1] != "session.find"@[1]);
            assert("sync.dismiss"@[0] != "project.list"@[0]);
            assert("sync.dismiss"@[1] != "settings.get"@[1]);
            assert("sync.dismiss"@[1] != "settings.set"@[1]);
            assert("sync.dismiss"@[1] != "search.query"@[1]);
            assert("sync.dismiss"@[5] != "sync.sources"@[5]);
            assert("sync.dismiss"@[5] != "sync.resolve"@[5]);
            assert(method_index("sync.dismiss"@) == 115);
        } else if k == 116 {
            assert(all_methods()[116] == "sync.repair"@);
            assert("sync.repair"@[0] != "git.unstage"@[0]);
            assert("sync.repair"@[0] != "git.discard"@[0]);
            assert("sync.repair"@[0] != "cli.catalog"@[0]);
            assert("sync.repair"@[0] != "cli.install"@[0]);
            assert("sync.repair"@[0] != "cli.dismiss"@[0]);
            assert("sync.repair"@[0] != "mcp.catalog"@[0]);
            assert("sync.repair"@[0] != "thread.list"@[0]);
            assert("sync.repair"@[0] != "todo.delete"@[0]);
            assert("sync.repair"@[5] != "sync.status"@[5]);
            assert("sync.repair"@[5] != "sync.cancel"@[5]);
            assert(method_index("sync.repair"@) == 116);
        } else if k == 117 {
            assert(all_methods()[117] == "telemetry.state"@);
            assert("telemetry.state"@[0] != "git.commitState"@[0]);
            assert("telemetry.state"@[0] != "git.pullRequest"@[0]);
            assert("telemetry.state"@[0] != "worktree.remove"@[0]);
            assert("telemetry.state"@[0] != "file.readBase64"@[0]);
            assert("telemetry.state"@[0] != "project.inspect"@[0]);
            assert("telemetry.state"@[0] != "session.migrate"@[0]);
            assert("telemetry.state"@[0] != "shell.available"@[0]);
            assert("telemetry.state"@[0] != "project.archive"@[0]);
            assert("telemetry.state"@[0] != "checkpoint.list"@[0]);
            assert("telemetry.state"@[0] != "checkpoint.diff"@[0]);
            assert("telemetry.state"@[1] != "thread.dispatch"@[1]);
            assert("telemetry.state"@[0] != "dispatch.settle"@[0]);
            assert(method_index("telemetry.state"@) == 117);
        } else if k == 118 {
            assert(all_methods()[118] == "telemetry.setModeA"@);
            assert("telemetry.setModeA"@[0] != "worktree.recognize"@[0]);
            assert("telemetry.setModeA"@[0] != "session.liveClaude"@[0]);
            assert("telemetry.setModeA"@[0] != "session.agentTurns"@[0]);
            assert("telemetry.setModeA"@[0] != "session.stopClaude"@[0]);
            assert("telemetry.setModeA"@[0] != "codexSwitcher.list"@[0]);
            assert("telemetry.setModeA"@[0] != "codexSwitcher.save"@[0]);
            assert("telemetry.setModeA"@[0] != "fastMcpSsh.version"@[0]);
            assert("telemetry.setModeA"@[0] != "kebaccSwitcher.add"@[0]);
            assert("telemetry.setModeA"@[0] != "session.transcript"@[0]);
            assert("telemetry.setModeA"@[0] != "checkpoint.capture"@[0]);
            assert("telemetry.setModeA"@[0] != "checkpoint.restore"@[0]);
            assert("telemetry.setModeA"@[0] != "orchestrator.start"@[0]);
            assert(method_index("telemetry.setModeA"@) == 118);
        } else if k == 119 {
            assert(all_methods()[119] == "telemetry.setModeB"@);
            assert("telemetry.setModeB"@[0] != "worktree.recognize"@[0]);
            assert("telemetry.setModeB"@[0] != "session.liveClaude"@[0]);
            assert("telemetry.setModeB"@[0] != "session.agentTurns"@[0]);
            assert("telemetry.setModeB"@[0] != "session.stopClaude"@[0]);
            assert("telemetry.setModeB"@[0] != "codexSwitcher.list"@[0]);
            assert("telemetry.setModeB"@[0] != "codexSwitcher.save"@[0]);
            assert("telemetry.setModeB"@[0] != "fastMcpSsh.version"@[0]);
            assert("telemetry.setModeB"@[0] != "kebaccSwitcher.add"@[0]);
            assert("telemetry.setModeB"@[0] != "session.transcript"@[0]);
            assert("telemetry.setModeB"@[0] != "checkpoint.capture"@[0]);
            assert("telemetry.setModeB"@[0] != "checkpoint.restore"@[0]);
            assert("telemetry.setModeB"@[0] != "orchestrator.start"@[0]);
            assert("telemetry.setModeB"@[17] != "telemetry.setModeA"@[17]);
            assert(method_index("telemetry.setModeB"@) == 119);
        } else if k == 120 {
            assert(all_methods()[120] == "telemetry.completeOnboarding"@);
            assert(method_index("telemetry.completeOnboarding"@) == 120);
        } else if k == 121 {
            assert(all_methods()[121] == "telemetry.export"@);
            assert("telemetry.export"@[0] != "git.switchBranch"@[0]);
            assert("telemetry.export"@[0] != "git.changedPaths"@[0]);
            assert("telemetry.export"@[0] != "git.fileVersions"@[0]);
            assert("telemetry.export"@[0] != "worktree.migrate"@[0]);
            assert("telemetry.export"@[0] != "worktree.reserve"@[0]);
            assert("telemetry.export"@[0] != "fastpick.version"@[0]);
            assert("telemetry.export"@[0] != "orchestrator.say"@[0]);
            assert("telemetry.export"@[0] != "voice.transcribe"@[0]);
            assert(method_index("telemetry.export"@) == 121);
        } else if k == 122 {
            assert(all_methods()[122] == "telemetry.retryForget"@);
            assert("telemetry.retryForget"@[0] != "codexSwitcher.version"@[0]);
            assert("telemetry.retryForget"@[0] != "kebaccSwitcher.switch"@[0]);
            assert("telemetry.retryForget"@[0] != "orchestrator.messages"@[0]);
            assert("telemetry.retryForget"@[1] != "thread.acceptDispatch"@[1]);
            assert(method_index("telemetry.retryForget"@) == 122);
        } else if k == 123 {
            assert(all_methods()[123] == "telemetry.trackUpdate"@);
            assert("telemetry.trackUpdate"@[0] != "codexSwitcher.version"@[0]);
            assert("telemetry.trackUpdate"@[0] != "kebaccSwitcher.switch"@[0]);
            assert("telemetry.trackUpdate"@[0] != "orchestrator.messages"@[0]);
            assert("telemetry.trackUpdate"@[1] != "thread.acceptDispatch"@[1]);
            assert("telemetry.trackUpdate"@[10] != "telemetry.retryForget"@[10]);
            assert(method_index("telemetry.trackUpdate"@) == 123);
        } else if k == 124 {
            assert(all_methods()[124] == "telemetry.trackPane"@);
            assert("telemetry.trackPane"@[0] != "project.folderState"@[0]);
            assert("telemetry.trackPane"@[0] != "shell.commandExists"@[0]);
            assert("telemetry.trackPane"@[0] != "kebaccSwitcher.list"@[0]);
            assert("telemetry.trackPane"@[0] != "orchestrator.status"@[0]);
            assert(method_index("telemetry.trackPane"@) == 124);
        } else if k == 125 {
            assert(all_methods()[125] == "telemetry.trackSettingsSnapshot"@);
            assert(method_index("telemetry.trackSettingsSnapshot"@) == 125);
        } else if k == 126 {
            assert(all_methods()[126] == "logs.tail"@);
            assert("logs.tail"@[0] != "git.stage"@[0]);
            assert("logs.tail"@[0] != "git.fetch"@[0]);
            assert("logs.tail"@[0] != "fs.search"@[0]);
            assert("logs.tail"@[0] != "file.read"@[0]);
            assert("logs.tail"@[0] != "todo.list"@[0]);
            assert("logs.tail"@[0] != "todo.save"@[0]);
            assert("logs.tail"@[0] != "sync.pull"@[0]);
            assert("logs.tail"@[0] != "sync.skip"@[0]);
            assert("logs.tail"@[0] != "sync.push"@[0]);
            assert(method_index("logs.tail"@) == 126);
        } else if k == 127 {
            assert(all_methods()[127] == "logs.query"@);
            assert("logs.query"@[0] != "git.status"@[0]);
            assert("logs.query"@[0] != "git.commit"@[0]);
            assert("logs.query"@[0] != "fs.readDir"@[0]);
            assert("logs.query"@[0] != "file.write"@[0]);
            assert("logs.query"@[0] != "cli.latest"@[0]);
            assert("logs.query"@[0] != "cli.cancel"@[0]);
            assert("logs.query"@[0] != "sync.probe"@[0]);
            assert(method_index("logs.query"@) == 127);
        } else if k == 128 {
            assert(all_methods()[128] == "logs.level"@);
            assert("logs.level"@[0] != "git.status"@[0]);
            assert("logs.level"@[0] != "git.commit"@[0]);
            assert("logs.level"@[0] != "fs.readDir"@[0]);
            assert("logs.level"@[0] != "file.write"@[0]);
            assert("logs.level"@[0] != "cli.latest"@[0]);
            assert("logs.level"@[0] != "cli.cancel"@[0]);
            assert("logs.level"@[0] != "sync.probe"@[0]);
            assert("logs.level"@[5] != "logs.query"@[5]);
            assert(method_index("logs.level"@) == 128);
        } else if k == 129 {
            assert(all_methods()[129] == "logs.write"@);
            assert("logs.write"@[0] != "git.status"@[0]);
            assert("logs.write"@[0] != "git.commit"@[0]);
            assert("logs.write"@[0] != "fs.readDir"@[0]);
            assert("logs.write"@[0] != "file.write"@[0]);
            assert("logs.write"@[0] != "cli.latest"@[0]);
            assert("logs.write"@[0] != "cli.cancel"@[0]);
            assert("logs.write"@[0] != "sync.probe"@[0]);
            assert("logs.write"@[5] != "logs.query"@[5]);
            assert("logs.write"@[5] != "logs.level"@[5]);
            assert(method_index("logs.write"@) == 129);
        } else if k == 130 {
            assert(all_methods()[130] == "logs.subscribe"@);
            assert("logs.subscribe"@[0] != "worktree.adopt"@[0]);
            assert("logs.subscribe"@[0] != "worktree.claim"@[0]);
            assert("logs.subscribe"@[0] != "worktree.sizes"@[0]);
            assert("logs.subscribe"@[0] != "project.create"@[0]);
            assert("logs.subscribe"@[0] != "project.delete"@[0]);
            assert("logs.subscribe"@[0] != "thread.started"@[0]);
            assert("logs.subscribe"@[0] != "workspace.info"@[0]);
            assert("logs.subscribe"@[0] != "conduct.record"@[0]);
            assert("logs.subscribe"@[0] != "dispatch.drain"@[0]);
            assert("logs.subscribe"@[0] != "sync.conflicts"@[0]);
            assert(method_index("logs.subscribe"@) == 130);
        } else if k == 131 {
            assert(all_methods()[131] == "pilot.catalog"@);
            assert("pilot.catalog"@[0] != "git.findRepos"@[0]);
            assert("pilot.catalog"@[0] != "worktree.open"@[0]);
            assert("pilot.catalog"@[0] != "worktree.warm"@[0]);
            assert("pilot.catalog"@[0] != "worktree.list"@[0]);
            assert("pilot.catalog"@[0] != "worktree.hold"@[0]);
            assert("pilot.catalog"@[0] != "session.usage"@[0]);
            assert("pilot.catalog"@[0] != "shell.default"@[0]);
            assert("pilot.catalog"@[0] != "fastpick.list"@[0]);
            assert("pilot.catalog"@[0] != "cli.dataPaths"@[0]);
            assert("pilot.catalog"@[0] != "cli.uninstall"@[0]);
            assert("pilot.catalog"@[0] != "thread.create"@[0]);
            assert("pilot.catalog"@[0] != "thread.update"@[0]);
            assert("pilot.catalog"@[0] != "thread.settle"@[0]);
            assert("pilot.catalog"@[0] != "thread.delete"@[0]);
            assert("pilot.catalog"@[0] != "conduct.pulse"@[0]);
            assert(method_index("pilot.catalog"@) == 131);
        } else if k == 132 {
            assert(all_methods()[132] == "pilot.thread.open"@);
            assert("pilot.thread.open"@[0] != "workspace.setInfo"@[0]);
            assert("pilot.thread.open"@[0] != "checkpoint.forget"@[0]);
            assert("pilot.thread.open"@[0] != "orchestrator.post"@[0]);
            assert("pilot.thread.open"@[0] != "orchestrator.undo"@[0]);
            assert(method_index("pilot.thread.open"@) == 132);
        } else if k == 133 {
            assert(all_methods()[133] == "pilot.turn.start"@);
            assert("pilot.turn.start"@[0] != "git.switchBranch"@[0]);
            assert("pilot.turn.start"@[0] != "git.changedPaths"@[0]);
            assert("pilot.turn.start"@[0] != "git.fileVersions"@[0]);
            assert("pilot.turn.start"@[0] != "worktree.migrate"@[0]);
            assert("pilot.turn.start"@[0] != "worktree.reserve"@[0]);
            assert("pilot.turn.start"@[0] != "fastpick.version"@[0]);
            assert("pilot.turn.start"@[0] != "orchestrator.say"@[0]);
            assert("pilot.turn.start"@[0] != "voice.transcribe"@[0]);
            assert("pilot.turn.start"@[0] != "telemetry.export"@[0]);
            assert(method_index("pilot.turn.start"@) == 133);
        } else if k == 134 {
            assert(all_methods()[134] == "pilot.turn.interrupt"@);
            assert("pilot.turn.interrupt"@[1] != "project.createFolder"@[1]);
            assert("pilot.turn.interrupt"@[0] != "orchestrator.actions"@[0]);
            assert(method_index("pilot.turn.interrupt"@) == 134);
        } else if k == 135 {
            assert(all_methods()[135] == "pilot.request.respond"@);
            assert("pilot.request.respond"@[0] != "codexSwitcher.version"@[0]);
            assert("pilot.request.respond"@[0] != "kebaccSwitcher.switch"@[0]);
            assert("pilot.request.respond"@[0] != "orchestrator.messages"@[0]);
            assert("pilot.request.respond"@[0] != "thread.acceptDispatch"@[0]);
            assert("pilot.request.respond"@[0] != "telemetry.retryForget"@[0]);
            assert("pilot.request.respond"@[0] != "telemetry.trackUpdate"@[0]);
            assert(method_index("pilot.request.respond"@) == 135);
        } else if k == 136 {
            assert(all_methods()[136] == "pilot.model.set"@);
            assert("pilot.model.set"@[0] != "git.commitState"@[0]);
            assert("pilot.model.set"@[0] != "git.pullRequest"@[0]);
            assert("pilot.model.set"@[0] != "worktree.remove"@[0]);
            assert("pilot.model.set"@[0] != "file.readBase64"@[0]);
            assert("pilot.model.set"@[1] != "project.inspect"@[1]);
            assert("pilot.model.set"@[0] != "session.migrate"@[0]);
            assert("pilot.model.set"@[0] != "shell.available"@[0]);
            assert("pilot.model.set"@[1] != "project.archive"@[1]);
            assert("pilot.model.set"@[0] != "checkpoint.list"@[0]);
            assert("pilot.model.set"@[0] != "checkpoint.diff"@[0]);
            assert("pilot.model.set"@[0] != "thread.dispatch"@[0]);
            assert("pilot.model.set"@[0] != "dispatch.settle"@[0]);
            assert("pilot.model.set"@[0] != "telemetry.state"@[0]);
            assert(method_index("pilot.model.set"@) == 136);
        } else if k == 137 {
            assert(all_methods()[137] == "pilot.mode.set"@);
            assert("pilot.mode.set"@[0] != "worktree.adopt"@[0]);
            assert("pilot.mode.set"@[0] != "worktree.claim"@[0]);
            assert("pilot.mode.set"@[0] != "worktree.sizes"@[0]);
            assert("pilot.mode.set"@[1] != "project.create"@[1]);
            assert("pilot.mode.set"@[1] != "project.delete"@[1]);
            assert("pilot.mode.set"@[0] != "thread.started"@[0]);
            assert("pilot.mode.set"@[0] != "workspace.info"@[0]);
            assert("pilot.mode.set"@[0] != "conduct.record"@[0]);
            assert("pilot.mode.set"@[0] != "dispatch.drain"@[0]);
            assert("pilot.mode.set"@[0] != "sync.conflicts"@[0]);
            assert("pilot.mode.set"@[0] != "logs.subscribe"@[0]);
            assert(method_index("pilot.mode.set"@) == 137);
        } else if k == 138 {
            assert(all_methods()[138] == "pilot.session.stop"@);
            assert("pilot.session.stop"@[0] != "worktree.recognize"@[0]);
            assert("pilot.session.stop"@[0] != "session.liveClaude"@[0]);
            assert("pilot.session.stop"@[0] != "session.agentTurns"@[0]);
            assert("pilot.session.stop"@[0] != "session.stopClaude"@[0]);
            assert("pilot.session.stop"@[0] != "codexSwitcher.list"@[0]);
            assert("pilot.session.stop"@[0] != "codexSwitcher.save"@[0]);
            assert("pilot.session.stop"@[0] != "fastMcpSsh.version"@[0]);
            assert("pilot.session.stop"@[0] != "kebaccSwitcher.add"@[0]);
            assert("pilot.session.stop"@[0] != "session.transcript"@[0]);
            assert("pilot.session.stop"@[0] != "checkpoint.capture"@[0]);
            assert("pilot.session.stop"@[0] != "checkpoint.restore"@[0]);
            assert("pilot.session.stop"@[0] != "orchestrator.start"@[0]);
            assert("pilot.session.stop"@[0] != "telemetry.setModeA"@[0]);
            assert("pilot.session.stop"@[0] != "telemetry.setModeB"@[0]);
            assert(method_index("pilot.session.stop"@) == 138);
        } else if k == 139 {
            assert(all_methods()[139] == "pilot.items"@);
            assert("pilot.items"@[0] != "git.unstage"@[0]);
            assert("pilot.items"@[0] != "git.discard"@[0]);
            assert("pilot.items"@[0] != "cli.catalog"@[0]);
            assert("pilot.items"@[0] != "cli.install"@[0]);
            assert("pilot.items"@[0] != "cli.dismiss"@[0]);
            assert("pilot.items"@[0] != "mcp.catalog"@[0]);
            assert("pilot.items"@[0] != "thread.list"@[0]);
            assert("pilot.items"@[0] != "todo.delete"@[0]);
            assert("pilot.items"@[0] != "sync.status"@[0]);
            assert("pilot.items"@[0] != "sync.cancel"@[0]);
            assert("pilot.items"@[0] != "sync.repair"@[0]);
            assert(method_index("pilot.items"@) == 139);
        } else if k == 140 {
            assert(all_methods()[140] == "pilot.events"@);
            assert("pilot.events"@[0] != "git.repoInfo"@[0]);
            assert("pilot.events"@[0] != "git.branches"@[0]);
            assert("pilot.events"@[0] != "session.find"@[0]);
            assert("pilot.events"@[1] != "project.list"@[1]);
            assert("pilot.events"@[0] != "settings.get"@[0]);
            assert("pilot.events"@[0] != "settings.set"@[0]);
            assert("pilot.events"@[0] != "search.query"@[0]);
            assert("pilot.events"@[0] != "sync.sources"@[0]);
            assert("pilot.events"@[0] != "sync.resolve"@[0]);
            assert("pilot.events"@[0] != "sync.dismiss"@[0]);
            assert(method_index("pilot.events"@) == 140);
        } else if k == 141 {
            assert(all_methods()[141] == "pilot.subscribe"@);
            assert("pilot.subscribe"@[0] != "git.commitState"@[0]);
            assert("pilot.subscribe"@[0] != "git.pullRequest"@[0]);
            assert("pilot.subscribe"@[0] != "worktree.remove"@[0]);
            assert("pilot.subscribe"@[0] != "file.readBase64"@[0]);
            assert("pilot.subscribe"@[1] != "project.inspect"@[1]);
            assert("pilot.subscribe"@[0] != "session.migrate"@[0]);
            assert("pilot.subscribe"@[0] != "shell.available"@[0]);
            assert("pilot.subscribe"@[1] != "project.archive"@[1]);
            assert("pilot.subscribe"@[0] != "checkpoint.list"@[0]);
            assert("pilot.subscribe"@[0] != "checkpoint.diff"@[0]);
            assert("pilot.subscribe"@[0] != "thread.dispatch"@[0]);
            assert("pilot.subscribe"@[0] != "dispatch.settle"@[0]);
            assert("pilot.subscribe"@[0] != "telemetry.state"@[0]);
            assert("pilot.subscribe"@[6] != "pilot.model.set"@[6]);
            assert(method_index("pilot.subscribe"@) == 141);
        } else if k == 142 {
            assert(all_methods()[142] == "pilot.unsubscribe"@);
            assert("pilot.unsubscribe"@[0] != "workspace.setInfo"@[0]);
            assert("pilot.unsubscribe"@[0] != "checkpoint.forget"@[0]);
            assert("pilot.unsubscribe"@[0] != "orchestrator.post"@[0]);
            assert("pilot.unsubscribe"@[0] != "orchestrator.undo"@[0]);
            assert("pilot.unsubscribe"@[6] != "pilot.thread.open"@[6]);
            assert(method_index("pilot.unsubscribe"@) == 142);
        }
    }
}

/// No method is claimed twice, within a domain or across two.
pub proof fn lemma_no_method_claimed_twice()
    ensures
        forall|i: int, j: int| 0 <= i < j < all_methods().len() ==> all_methods()[i] != all_methods()[j],
{
    lemma_method_index();
    assert forall|i: int, j: int| 0 <= i < j < all_methods().len() implies all_methods()[i] != all_methods()[j] by {
        assert(method_index(all_methods()[i]) == i);
        assert(method_index(all_methods()[j]) == j);
    }
}

/// Every method name, domain by domain.
pub fn method_list() -> (v: Vec<&'static str>)
    ensures
        v@ == method_literals(),
{
    let v = vec![
        "git.repoInfo",
        "git.findRepos",
        "git.branches",
        "git.switchBranch",
        "git.status",
        "git.changedPaths",
        "git.log",
        "git.commitState",
        "git.pullRequest",
        "git.stage",
        "git.unstage",
        "git.discard",
        "git.commit",
        "git.fetch",
        "git.push",
        "git.pull",
        "git.init",
        "git.fileVersions",
        "worktree.open",
        "worktree.warm",
        "worktree.migrate",
        "worktree.adopt",
        "worktree.recognize",
        "worktree.list",
        "worktree.claim",
        "worktree.reserve",
        "worktree.hold",
        "worktree.remove",
        "worktree.sizes",
        "fs.readDir",
        "fs.search",
        "file.read",
        "file.write",
        "file.readBase64",
        "project.inspect",
        "project.folderState",
        "project.createFolder",
        "session.find",
        "session.liveClaude",
        "session.agentTurns",
        "session.usage",
        "session.stopClaude",
        "session.copilotResumable",
        "session.migrate",
        "shell.default",
        "shell.available",
        "shell.commandExists",
        "fastpick.list",
        "fastpick.version",
        "codexSwitcher.list",
        "codexSwitcher.save",
        "codexSwitcher.activate",
        "codexSwitcher.version",
        "fastMcpSsh.version",
        "kebaccSwitcher.list",
        "kebaccSwitcher.add",
        "kebaccSwitcher.switch",
        "kebaccSwitcher.version",
        "session.transcript",
        "cli.catalog",
        "cli.latest",
        "cli.jobs",
        "cli.dataPaths",
        "cli.install",
        "cli.uninstall",
        "cli.cancel",
        "cli.dismiss",
        "mcp.catalog",
        "project.list",
        "project.create",
        "project.archive",
        "project.delete",
        "thread.list",
        "thread.create",
        "thread.update",
        "thread.started",
        "thread.settle",
        "thread.delete",
        "todo.list",
        "todo.save",
        "todo.delete",
        "settings.get",
        "settings.set",
        "workspace.info",
        "workspace.setInfo",
        "search.query",
        "checkpoint.capture",
        "checkpoint.list",
        "checkpoint.diff",
        "checkpoint.fileVersions",
        "checkpoint.restore",
        "checkpoint.forget",
        "conduct.pulse",
        "conduct.record",
        "orchestrator.post",
        "orchestrator.say",
        "orchestrator.messages",
        "orchestrator.start",
        "orchestrator.status",
        "orchestrator.actions",
        "orchestrator.undo",
        "thread.dispatch",
        "thread.acceptDispatch",
        "dispatch.drain",
        "dispatch.settle",
        "voice.transcribe",
        "sync.sources",
        "sync.status",
        "sync.probe",
        "sync.pull",
        "sync.conflicts",
        "sync.resolve",
        "sync.skip",
        "sync.push",
        "sync.cancel",
        "sync.dismiss",
        "sync.repair",
        "telemetry.state",
        "telemetry.setModeA",
        "telemetry.setModeB",
        "telemetry.completeOnboarding",
        "telemetry.export",
        "telemetry.retryForget",
        "telemetry.trackUpdate",
        "telemetry.trackPane",
        "telemetry.trackSettingsSnapshot",
        "logs.tail",
        "logs.query",
        "logs.level",
        "logs.write",
        "logs.subscribe",
        "pilot.catalog",
        "pilot.thread.open",
        "pilot.turn.start",
        "pilot.turn.interrupt",
        "pilot.request.respond",
        "pilot.model.set",
        "pilot.mode.set",
        "pilot.session.stop",
        "pilot.items",
        "pilot.events",
        "pilot.subscribe",
        "pilot.unsubscribe",
    ];
    assert(v@ =~= method_literals());
    v
}

/// What each method needs, in table order.
pub fn capability_list() -> (v: Vec<Capability>)
    ensures
        v@ == all_capabilities(),
{
    let v = vec![
        Capability::ReadProject,
        Capability::ReadProject,
        Capability::ReadProject,
        Capability::MutateProject,
        Capability::ReadProject,
        Capability::ReadProject,
        Capability::ReadProject,
        Capability::ReadProject,
        Capability::ReadProject,
        Capability::MutateProject,
        Capability::MutateProject,
        Capability::MutateProject,
        Capability::MutateProject,
        Capability::MutateProject,
        Capability::MutateProject,
        Capability::MutateProject,
        Capability::MutateProject,
        Capability::ReadProject,
        Capability::MutateProject,
        Capability::MutateProject,
        Capability::MutateProject,
        Capability::MutateProject,
        Capability::MutateProject,
        Capability::ReadProject,
        Capability::MutateProject,
        Capability::MutateProject,
        Capability::ReadProject,
        Capability::MutateProject,
        Capability::ReadProject,
        Capability::ReadProject,
        Capability::ReadProject,
        Capability::ReadProject,
        Capability::MutateProject,
        Capability::ReadProject,
        Capability::ReadProject,
        Capability::ReadProject,
        Capability::MutateProject,
        Capability::ReadProject,
        Capability::ReadProject,
        Capability::ReadProject,
        Capability::ReadProject,
        Capability::MutateProject,
        Capability::ReadProject,
        Capability::MutateProject,
        Capability::ReadProject,
        Capability::ReadProject,
        Capability::ReadProject,
        Capability::ReadProject,
        Capability::ReadProject,
        Capability::ReadProject,
        Capability::MutateProject,
        Capability::MutateProject,
        Capability::ReadProject,
        Capability::ReadProject,
        Capability::ReadProject,
        Capability::MutateProject,
        Capability::MutateProject,
        Capability::ReadProject,
        Capability::ReadProject,
        Capability::ReadProject,
        Capability::ReadProject,
        Capability::ReadProject,
        Capability::ReadProject,
        Capability::MutateAcross,
        Capability::MutateAcross,
        Capability::MutateProject,
        Capability::MutateProject,
        Capability::ReadProject,
        Capability::ReadProject,
        Capability::MutateAcross,
        Capability::MutateProject,
        Capability::MutateAcross,
        Capability::ReadProject,
        Capability::MutateProject,
        Capability::MutateProject,
        Capability::MutateProject,
        Capability::MutateProject,
        Capability::MutateAcross,
        Capability::ReadProject,
        Capability::MutateProject,
        Capability::MutateProject,
        Capability::ReadProject,
        Capability::MutateProject,
        Capability::ReadProject,
        Capability::MutateProject,
        Capability::ReadProject,
        Capability::MutateProject,
        Capability::ReadProject,
        Capability::ReadProject,
        Capability::ReadProject,
        Capability::MutateProject,
        Capability::MutateProject,
        Capability::ReadProject,
        Capability::MutateProject,
        Capability::MutateProject,
        Capability::MutateProject,
        Capability::ReadProject,
        Capability::MutateProject,
        Capability::ReadProject,
        Capability::ReadProject,
        Capability::MutateProject,
        Capability::MutateProject,
        Capability::MutateProject,
        Capability::MutateProject,
        Capability::MutateProject,
        Capability::ReadProject,
        Capability::ReadProject,
        Capability::ReadProject,
        Capability::ReadProject,
        Capability::MutateAcross,
        Capability::ReadProject,
        Capability::MutateAcross,
        Capability::MutateProject,
        Capability::MutateAcross,
        Capability::MutateProject,
        Capability::MutateProject,
        Capability::MutateAcross,
        Capability::ReadProject,
        Capability::MutateProject,
        Capability::MutateProject,
        Capability::MutateProject,
        Capability::ReadProject,
        Capability::MutateProject,
        Capability::MutateProject,
        Capability::MutateProject,
        Capability::MutateProject,
        Capability::ReadProject,
        Capability::ReadProject,
        Capability::MutateProject,
        Capability::MutateProject,
        Capability::ReadProject,
        Capability::ReadProject,
        Capability::MutateProject,
        Capability::MutateProject,
        Capability::MutateProject,
        Capability::MutateProject,
        Capability::MutateProject,
        Capability::MutateProject,
        Capability::MutateProject,
        Capability::ReadProject,
        Capability::ReadProject,
        Capability::ReadProject,
        Capability::ReadProject,
    ];
    assert(v@ =~= all_capabilities());
    v
}

} // verus!

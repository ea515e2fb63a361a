use boite_core::command::pilot::{cursor, limit, mode_of, ExecMode};
use boite_core::command::sessions::{Own, Sessions};
use boite_core::command::conduct::{
    accept_switch, as_pilot_turn, dismiss, pulse_after_wait, read_pulse, conducted_target, dispatch_target, pilot_orchestrator, pilot_thread, say_scope,
    scope_handover, settle_line, settle_report, settle_state, start_holder, status_answer, undo, undo_step, ActionRow,
    Conduct, DispatchFacts, DispatchLine, Orchestration, PulseAnswer, PulseNext, PulseRead, PulseWoke, SettleReport, StatusAnswer, UndoRows, UndoStep,
};
use boite_core::command::pilot::Pilot;
use boite_core::command::git::Git;
use boite_core::command::params::{Param, Params};
use boite_core::command::records::{
    check_runtime, is_hex_color, may_settle, workspace_answer, WorkspaceAnswer, set_info_param, set_workspace_info, started_columns, thread_for_save, ColVal, SettleWrite,
    ThreadCol, ThreadPatch, ThreadRow, WorkspaceMeta,
};
use boite_core::command::{capabilities, capability_of, handles, methods, parents_or_home, Capability, Scoped, Wire};
use boite_core::command::Capability::{MutateAcross, MutateProject, ReadProject};

fn params(fields: Vec<(&str, Param)>) -> Params {
    Params { fields: fields.into_iter().map(|(k, v)| (k.to_string(), v)).collect() }
}

fn text(s: &str) -> Param {
    Param::Str(s.to_string())
}

/// Everything any git command reads, so one object decodes all of them.
fn every_param(path: &str) -> Params {
    params(vec![
        ("path", text(path)),
        ("repo", text(path)),
        ("from", text(path)),
        ("threadId", text("thread-1")),
        ("name", text("a-branch")),
        ("sha", text("0123456789abcdef")),
        ("branch", text("a-branch")),
        ("message", text("a message")),
        ("file", text("a.txt")),
        ("headFile", text("b.txt")),
        ("files", Param::List(vec![text("a.txt")])),
        ("untracked", Param::List(vec![text("b.txt")])),
        ("paths", Param::List(vec![text(path)])),
        ("limit", Param::Number(10)),
        ("skip", Param::Number(0)),
        ("create", Param::Bool(false)),
        ("stash", Param::Bool(false)),
        ("force", Param::Bool(false)),
    ])
}

const GIT_METHODS: &[&str] = &[
    "git.repoInfo", "git.findRepos", "git.branches", "git.switchBranch", "git.status",
    "git.changedPaths", "git.log", "git.commitState", "git.pullRequest", "git.stage",
    "git.unstage", "git.discard", "git.commit", "git.fetch", "git.push", "git.pull", "git.init",
    "git.fileVersions", "worktree.open", "worktree.warm", "worktree.migrate", "worktree.adopt",
    "worktree.recognize", "worktree.list", "worktree.claim", "worktree.reserve", "worktree.hold",
    "worktree.remove", "worktree.sizes",
];

#[test]
fn no_two_domains_claim_the_same_method() {
    let mut seen = std::collections::BTreeSet::new();
    for method in methods() {
        assert!(seen.insert(method), "{method} is declared by two domains");
    }
}

#[test]
fn what_each_method_needs_is_what_was_decided() {
    const EXPECTED: &[(&str, Capability)] = &[
        ("git.repoInfo", ReadProject),
        ("git.findRepos", ReadProject),
        ("git.branches", ReadProject),
        ("git.switchBranch", MutateProject),
        ("git.status", ReadProject),
        ("git.changedPaths", ReadProject),
        ("git.log", ReadProject),
        ("git.commitState", ReadProject),
        ("git.pullRequest", ReadProject),
        ("git.stage", MutateProject),
        ("git.unstage", MutateProject),
        ("git.discard", MutateProject),
        ("git.commit", MutateProject),
        ("git.fetch", MutateProject),
        ("git.push", MutateProject),
        ("git.pull", MutateProject),
        ("git.init", MutateProject),
        ("git.fileVersions", ReadProject),
        ("worktree.open", MutateProject),
        ("worktree.warm", MutateProject),
        ("worktree.migrate", MutateProject),
        ("worktree.adopt", MutateProject),
        ("worktree.recognize", MutateProject),
        ("worktree.list", ReadProject),
        ("worktree.claim", MutateProject),
        ("worktree.reserve", MutateProject),
        ("worktree.hold", ReadProject),
        ("worktree.remove", MutateProject),
        ("worktree.sizes", ReadProject),
        ("fs.readDir", ReadProject),
        ("fs.search", ReadProject),
        ("file.read", ReadProject),
        ("file.write", MutateProject),
        ("file.readBase64", ReadProject),
        ("project.inspect", ReadProject),
        ("project.folderState", ReadProject),
        ("project.createFolder", MutateProject),
        ("session.find", ReadProject),
        ("session.liveClaude", ReadProject),
        ("session.agentTurns", ReadProject),
        ("session.usage", ReadProject),
        ("session.stopClaude", MutateProject),
        ("session.copilotResumable", ReadProject),
        ("session.migrate", MutateProject),
        ("shell.default", ReadProject),
        ("shell.available", ReadProject),
        ("shell.commandExists", ReadProject),
        ("fastpick.list", ReadProject),
        ("fastpick.version", ReadProject),
        ("codexSwitcher.list", ReadProject),
        ("codexSwitcher.save", MutateProject),
        ("codexSwitcher.activate", MutateProject),
        ("codexSwitcher.version", ReadProject),
        ("fastMcpSsh.version", ReadProject),
        ("kebaccSwitcher.list", ReadProject),
        ("kebaccSwitcher.add", MutateProject),
        ("kebaccSwitcher.switch", MutateProject),
        ("kebaccSwitcher.version", ReadProject),
        ("session.transcript", ReadProject),
        ("cli.catalog", ReadProject),
        ("cli.latest", ReadProject),
        ("cli.jobs", ReadProject),
        ("cli.dataPaths", ReadProject),
        ("cli.install", MutateAcross),
        ("cli.uninstall", MutateAcross),
        ("cli.cancel", MutateProject),
        ("cli.dismiss", MutateProject),
        ("mcp.catalog", ReadProject),
        ("project.list", ReadProject),
        ("project.create", MutateAcross),
        ("project.archive", MutateProject),
        ("project.delete", MutateAcross),
        ("thread.list", ReadProject),
        ("thread.create", MutateProject),
        ("thread.update", MutateProject),
        ("thread.started", MutateProject),
        ("thread.settle", MutateProject),
        ("thread.delete", MutateAcross),
        ("todo.list", ReadProject),
        ("todo.save", MutateProject),
        ("todo.delete", MutateProject),
        ("settings.get", ReadProject),
        ("settings.set", MutateProject),
        ("workspace.info", ReadProject),
        ("workspace.setInfo", MutateProject),
        ("search.query", ReadProject),
        ("checkpoint.capture", MutateProject),
        ("checkpoint.list", ReadProject),
        ("checkpoint.diff", ReadProject),
        ("checkpoint.fileVersions", ReadProject),
        ("checkpoint.restore", MutateProject),
        ("checkpoint.forget", MutateProject),
        ("conduct.pulse", ReadProject),
        ("conduct.record", MutateProject),
        ("orchestrator.post", MutateProject),
        ("orchestrator.say", MutateProject),
        ("orchestrator.messages", ReadProject),
        ("orchestrator.start", MutateProject),
        ("orchestrator.status", ReadProject),
        ("orchestrator.actions", ReadProject),
        ("orchestrator.undo", MutateProject),
        ("thread.dispatch", MutateProject),
        ("thread.acceptDispatch", MutateProject),
        ("dispatch.drain", MutateProject),
        ("dispatch.settle", MutateProject),
        ("voice.transcribe", ReadProject),
        ("sync.sources", ReadProject),
        ("sync.status", ReadProject),
        ("sync.probe", ReadProject),
        ("sync.pull", MutateAcross),
        ("sync.conflicts", ReadProject),
        ("sync.resolve", MutateAcross),
        ("sync.skip", MutateProject),
        ("sync.push", MutateAcross),
        ("sync.cancel", MutateProject),
        ("sync.dismiss", MutateProject),
        ("sync.repair", MutateAcross),
        ("telemetry.state", ReadProject),
        ("telemetry.setModeA", MutateProject),
        ("telemetry.setModeB", MutateProject),
        ("telemetry.completeOnboarding", MutateProject),
        ("telemetry.export", ReadProject),
        ("telemetry.retryForget", MutateProject),
        ("telemetry.trackUpdate", MutateProject),
        ("telemetry.trackPane", MutateProject),
        ("telemetry.trackSettingsSnapshot", MutateProject),
        ("logs.tail", ReadProject),
        ("logs.query", ReadProject),
        ("logs.level", MutateProject),
        ("logs.write", MutateProject),
        ("logs.subscribe", ReadProject),
        ("pilot.catalog", ReadProject),
        ("pilot.thread.open", MutateProject),
        ("pilot.turn.start", MutateProject),
        ("pilot.turn.interrupt", MutateProject),
        ("pilot.request.respond", MutateProject),
        ("pilot.model.set", MutateProject),
        ("pilot.mode.set", MutateProject),
        ("pilot.session.stop", MutateProject),
        ("pilot.items", ReadProject),
        ("pilot.events", ReadProject),
        ("pilot.subscribe", ReadProject),
        ("pilot.unsubscribe", ReadProject)
    ];
    let actual: Vec<(&str, Capability)> = capabilities();
    assert_eq!(actual, EXPECTED, "a method changed what it needs, or a new one arrived");
}

#[test]
fn nothing_that_changes_the_repository_is_labelled_a_read() {
    for method in [
        "git.switchBranch", "git.stage", "git.unstage", "git.discard", "git.commit",
        "git.fetch", "git.push", "git.pull", "git.init", "file.write",
        "project.createFolder", "session.stopClaude", "session.migrate",
        "project.create", "project.archive", "project.delete",
        "thread.create", "thread.update", "thread.started", "thread.settle",
        "thread.delete",
        "todo.save", "todo.delete", "settings.set", "workspace.setInfo",
        "checkpoint.capture", "checkpoint.restore", "checkpoint.forget",
        "sync.pull", "sync.push", "sync.resolve", "sync.repair",
        "sync.skip", "sync.cancel", "sync.dismiss",
    ] {
        assert_ne!(capability_of(method), Some(Capability::ReadProject), "{method}");
        assert!(capability_of(method).is_some(), "{method}");
    }
}

#[test]
fn only_the_calls_that_change_the_machine_reach_across() {
    const ACROSS: &[&str] = &[
        "project.create", "project.delete", "thread.delete", "sync.pull", "sync.push",
        "sync.resolve", "sync.repair", "cli.install", "cli.uninstall",
    ];
    for method in methods() {
        let across = capability_of(method) == Some(Capability::MutateAcross);
        assert_eq!(across, ACROSS.contains(&method), "{method}");
    }
}

#[test]
fn every_method_declares_what_it_needs() {
    let table = capabilities();
    assert_eq!(table.len(), methods().len());
    let params = every_param("/tmp/whatever");
    for method in GIT_METHODS {
        let command = Git::decode(method, &params).unwrap();
        assert_eq!(capability_of(command.name()), Some(command.capability()), "{method}");
    }
    assert_eq!(capability_of("thread.spawn"), None, "not a bus method");
    assert!(!handles("thread.spawn"));
    assert!(handles("git.status"));
}

#[test]
fn git_every_method_decodes_and_names_itself_back() {
    let params = every_param("/tmp/whatever");
    for method in GIT_METHODS {
        let command = Git::decode(method, &params).unwrap_or_else(|err| panic!("{method} did not decode: {err}"));
        assert_eq!(command.name(), *method);
    }
}

#[test]
fn the_protocol_envelopes_are_what_shipped() {
    let params = every_param("/tmp/whatever");
    let expected: &[(&str, Wire)] = &[
        ("git.repoInfo", Wire::Bare),
        ("git.findRepos", Wire::Key("repos")),
        ("git.branches", Wire::Key("branches")),
        ("git.switchBranch", Wire::Bare),
        ("git.status", Wire::Key("entries")),
        ("git.changedPaths", Wire::Key("paths")),
        ("git.log", Wire::Key("commits")),
        ("git.commitState", Wire::Key("state")),
        ("git.pullRequest", Wire::Key("lookup")),
        ("git.stage", Wire::Ack),
        ("git.unstage", Wire::Ack),
        ("git.discard", Wire::Ack),
        ("git.commit", Wire::Key("sha")),
        ("git.fetch", Wire::Ack),
        ("git.push", Wire::Ack),
        ("git.pull", Wire::Ack),
        ("git.init", Wire::Ack),
        ("git.fileVersions", Wire::Bare),
        ("worktree.open", Wire::Bare),
        ("worktree.warm", Wire::Ack),
        ("worktree.migrate", Wire::Bare),
        ("worktree.adopt", Wire::Key("path")),
        ("worktree.recognize", Wire::Key("path")),
        ("worktree.list", Wire::Key("worktrees")),
        ("worktree.claim", Wire::Ack),
        ("worktree.reserve", Wire::Ack),
        ("worktree.hold", Wire::Bare),
        ("worktree.remove", Wire::Ack),
        ("worktree.sizes", Wire::Key("sizes")),
    ];
    assert_eq!(expected.len(), GIT_METHODS.len());
    for (method, wire) in expected {
        let command = Git::decode(method, &params).unwrap();
        assert_eq!(command.wire(), *wire, "{method}");
    }
}

#[test]
fn a_method_nobody_serves_is_refused_by_name() {
    let err = Git::decode("git.rewriteHistory", &params(vec![("path", text("/tmp"))])).unwrap_err();
    assert_eq!(err, "unknown method: git.rewriteHistory");
    assert_eq!(Git::decode("nonsense", &params(vec![])).unwrap_err(), "unknown method: nonsense");
}

#[test]
fn a_missing_parameter_names_itself() {
    let err = Git::decode("git.commit", &params(vec![("path", text("/tmp"))])).unwrap_err();
    assert_eq!(err, "missing param: message");
}

#[test]
fn decoding_reads_defaults_and_truncates_counts() {
    let p = params(vec![("path", text("/r")), ("limit", Param::Number(4294967296 + 7))]);
    match Git::decode("git.log", &p).unwrap() {
        Git::Log { path, limit, skip } => {
            assert_eq!(path, "/r");
            assert_eq!(limit, 7);
            assert_eq!(skip, 0);
        }
        other => panic!("decoded {other:?}"),
    }
    match Git::decode("git.log", &params(vec![("path", text("/r"))])).unwrap() {
        Git::Log { limit, .. } => assert_eq!(limit, 100),
        other => panic!("decoded {other:?}"),
    }
    let p = params(vec![("repo", text("/r")), ("path", text("/w"))]);
    let remove = Git::decode("worktree.remove", &p).unwrap();
    assert_eq!(remove.caller_paths(), vec!["/r".to_string(), "/w".to_string()]);
    let sizes = Git::decode("worktree.sizes", &params(vec![("paths", Param::List(vec![text("/a"), Param::Null, text("/b")]))])).unwrap();
    assert_eq!(sizes.caller_paths(), vec!["/a".to_string(), "/b".to_string()]);
}

#[test]
fn orchestration_commands_name_themselves_and_stay_in_their_project() {
    let c = Conduct::Drain { ttl_ms: 10 };
    assert_eq!(c.name(), "dispatch.drain");
    assert_eq!(c.wire(), Wire::Key("dispatches"));
    assert_eq!(capability_of(c.name()), Some(c.capability()));
    let t = Conduct::Transcribe { audio: String::new(), mime: String::new(), provider: String::new() };
    assert_eq!(t.capability(), Capability::ReadProject);
}

fn orch(role: Option<&str>, scope: Option<&str>) -> Option<Orchestration> {
    Some(Orchestration { role: role.map(str::to_string), scope: scope.map(str::to_string) })
}

#[test]
fn a_dispatch_target_is_checked_by_role_and_scope() {
    let worker = orch(None, None);
    let boss = orch(Some("orchestrator"), None);
    let scoped = orch(Some("orchestrator"), Some("p"));
    assert!(conducted_target("orchestrator", worker.clone(), worker.clone(), Ok("p".into()), false)
        .unwrap_err()
        .contains("not one"));
    assert!(conducted_target("orchestrator", boss.clone(), orch(Some("orchestrator"), Some("q")), Ok("q".into()), false)
        .unwrap_err()
        .contains("NO_ORCHESTRATOR_TO_ORCHESTRATOR"));
    assert!(conducted_target("orchestrator", boss.clone(), worker.clone(), Ok("q".into()), true)
        .unwrap_err()
        .starts_with("SCOPE_TAKEN: project q"));
    assert_eq!(conducted_target("orchestrator", boss.clone(), worker.clone(), Ok("q".into()), false).unwrap(), "q");
    assert_eq!(
        conducted_target("orchestrator", scoped.clone(), worker.clone(), Ok("q".into()), false).unwrap_err(),
        "OUT_OF_SCOPE: this orchestrator is scoped to p and the target lives in q"
    );
    assert_eq!(conducted_target("orchestrator", scoped, worker.clone(), Ok("p".into()), true).unwrap(), "p");
    assert_eq!(conducted_target("orchestrator", None, worker, Ok("p".into()), false).unwrap_err(), "unknown thread");
    assert_eq!(conducted_target("orchestrator", boss, None, Ok("p".into()), false).unwrap_err(), "unknown target thread");
}

#[test]
fn a_pilot_orchestrator_is_one_driven_by_the_pilot() {
    assert!(pilot_thread(Some("pilot"), "pilot"));
    assert!(!pilot_thread(Some("terminal"), "pilot"));
    assert!(!pilot_thread(None, "pilot"));
    assert_eq!(pilot_orchestrator(Some("t".into()), true).as_deref(), Some("t"));
    assert_eq!(pilot_orchestrator(Some("t".into()), false), None);
    assert_eq!(pilot_orchestrator(None, true), None);
}

#[test]
fn an_absent_field_and_an_explicit_null_are_different_answers() {
    let keep_only = ThreadPatch::read(&params(vec![("threadId", text("t")), ("keepAwake", Param::Bool(true))]));
    assert_eq!(keep_only.columns(), vec![(ThreadCol::KeepAwake, ColVal::Int(1))]);
    let clear = ThreadPatch::read(&params(vec![("threadId", text("t")), ("title", Param::Null)]));
    assert_eq!(clear.columns(), vec![(ThreadCol::Title, ColVal::Null)]);
    let all = ThreadPatch::read(&params(vec![
        ("label", text("l")),
        ("title", text("t")),
        ("iconKey", Param::Null),
        ("sessionId", text("s")),
        ("keepAwake", Param::Bool(false)),
    ]));
    assert_eq!(
        all.columns(),
        vec![
            (ThreadCol::Label, ColVal::Text("l".into())),
            (ThreadCol::Title, ColVal::Text("t".into())),
            (ThreadCol::IconKey, ColVal::Null),
            (ThreadCol::SessionId, ColVal::Text("s".into())),
            (ThreadCol::KeepAwake, ColVal::Int(0)),
        ]
    );
}

#[test]
fn a_workspace_name_is_bounded_and_a_blank_one_clears_it() {
    let long = "x".repeat(64 * 3);
    let p = params(vec![("name", text(&long))]);
    let meta = set_workspace_info(WorkspaceMeta { name: None, color: None }, set_info_param(&p, "name"), set_info_param(&p, "color"));
    assert_eq!(meta.name.as_deref().unwrap().chars().count(), 64);

    let blank = params(vec![("name", text("   "))]);
    let meta = set_workspace_info(meta, set_info_param(&blank, "name"), set_info_param(&blank, "color"));
    assert_eq!(meta.name, None);
}

#[test]
fn a_colour_that_is_not_one_keeps_the_previous_value() {
    assert!(is_hex_color("#abc"));
    assert!(is_hex_color("#A0b1C2"));
    assert!(!is_hex_color("#abcd"));
    assert!(!is_hex_color("abc"));
    assert!(!is_hex_color("#ggg"));
    let start = WorkspaceMeta { name: Some("n".into()), color: Some("#123".into()) };
    let p = params(vec![("color", text("red"))]);
    let meta = set_workspace_info(start, set_info_param(&p, "name"), set_info_param(&p, "color"));
    assert_eq!(meta.color.as_deref(), Some("#123"));
    assert_eq!(meta.name.as_deref(), Some("n"));
    let p = params(vec![("color", text(" #fff "))]);
    let meta = set_workspace_info(meta, None, set_info_param(&p, "color"));
    assert_eq!(meta.color.as_deref(), Some("#fff"));
}

#[test]
fn a_host_that_says_nothing_allows_a_project_under_the_home_folder() {
    let default = Scoped::new(Vec::new()).extra_project_parents();
    assert_eq!(
        default,
        dirs::home_dir()
            .map(|home| vec![home.to_string_lossy().to_string()])
            .unwrap_or_default()
    );
    assert!(Scoped::new(Vec::new())
        .with_extra_project_parents(Vec::new())
        .extra_project_parents()
        .is_empty());
    let s = Scoped::new(vec!["/r".into()]).with_legacy_worktree_base(Some("/old".into()));
    assert_eq!(s.legacy_worktree_base.as_deref(), Some("/old"));
}

#[test]
fn sessions_commands_name_themselves_and_declare_what_they_need() {
    let find = Sessions::Find {
        kind: "codex".into(),
        cwd: "/w".into(),
        after_unix_ms: 0,
        exclude_ids: vec![],
        session_id: None,
        own: Own::Pty(None),
    };
    assert_eq!(find.name(), "session.find");
    assert_eq!(find.wire(), Wire::Key("session"));
    assert_eq!(capability_of(find.name()), Some(find.capability()));
    let install = Sessions::CliInstall { id: "x".into() };
    assert_eq!(install.capability(), Capability::MutateAcross);
    assert_eq!(Sessions::Usage { cwds: vec![], days: 1, orchestrator_sessions: vec![] }.wire(), Wire::Bare);
    assert_eq!(Sessions::McpCatalog.wire(), Wire::Key("servers"));
}

#[test]
fn a_pilot_call_reads_its_mode_cursor_and_page() {
    assert_eq!(mode_of(None), Ok(ExecMode::Ask));
    assert_eq!(mode_of(Some("edit_alone")), Ok(ExecMode::EditAlone));
    assert_eq!(mode_of(Some("editAlone")), Ok(ExecMode::EditAlone));
    assert_eq!(mode_of(Some("yolo")), Ok(ExecMode::Yolo));
    assert_eq!(mode_of(Some("wild")), Err("unknown pilot mode: wild".to_string()));
    assert_eq!(cursor(&params(vec![("afterSeq", Param::Number(12))])), 12);
    assert_eq!(cursor(&params(vec![("afterSeq", Param::Negative(-3))])), 0);
    assert_eq!(cursor(&params(vec![("afterSeq", Param::Fraction("1.5".into()))])), 0);
    assert_eq!(cursor(&params(vec![("afterSeq", Param::Number(u64::MAX))])), 0);
    assert_eq!(limit(&params(vec![])), 200);
    assert_eq!(limit(&params(vec![("limit", Param::Number(0))])), 1);
    assert_eq!(limit(&params(vec![("limit", Param::Number(5000))])), 1000);
}

#[test]
fn say_is_refused_to_a_thread_without_the_role() {
    assert_eq!(say_scope("orchestrator", orch(Some("orchestrator"), Some("p1")), false), Ok(Some("p1".to_string())));
    assert_eq!(say_scope("orchestrator", orch(Some("orchestrator"), None), false), Ok(None));
    assert_eq!(
        say_scope("orchestrator", orch(None, None), false).unwrap_err(),
        "only an orchestrator thread may say something here, and this thread is not one"
    );
    assert!(say_scope("orchestrator", orch(Some("orchestrator"), None), true).unwrap_err().starts_with("PILOT_ORCHESTRATOR:"));
    assert_eq!(say_scope("orchestrator", None, false).unwrap_err(), "unknown thread");
}

#[test]
fn muting_drops_a_dispatch_at_the_target() {
    let boss = orch(Some("orchestrator"), Some("p1"));
    let worker = orch(None, None);
    assert_eq!(dispatch_target("orchestrator", boss.clone(), worker.clone(), Ok("p1".into()), false, true), Ok("p1".to_string()));
    assert_eq!(
        dispatch_target("orchestrator", boss.clone(), worker.clone(), Ok("p1".into()), false, false).unwrap_err(),
        "MUTED: the user muted dispatch into this thread, and only the user rearms it"
    );
    assert!(dispatch_target("orchestrator", boss, worker, Ok("p2".into()), false, false).unwrap_err().starts_with("OUT_OF_SCOPE"));
}

fn action(kind: &str, object: Option<&str>, undoable: bool, undone: bool) -> Option<ActionRow> {
    Some(ActionRow { kind: kind.to_string(), object_id: object.map(str::to_string), undoable, undone })
}

#[test]
fn undo_reverses_what_it_knows_and_refuses_twice() {
    assert_eq!(undo_step(action("thread.spawn", Some("w1"), true, false)), Ok(UndoStep::PutAway("w1".into())));
    assert_eq!(undo_step(action("thread.dismiss", Some("w1"), true, false)), Ok(UndoStep::BringBack("w1".into())));
    assert_eq!(
        undo_step(action("thread.dismiss", Some("w1"), true, true)).unwrap_err(),
        "ALREADY_UNDONE: this action was already undone"
    );
    assert_eq!(
        undo_step(action("dispatch.sent", Some("d1"), false, false)).unwrap_err(),
        "NOT_UNDOABLE: a dispatch.sent is not reversible from here"
    );
    assert_eq!(
        undo_step(action("thread.spawn", None, true, false)).unwrap_err(),
        "the action names no object to act on"
    );
    assert_eq!(
        undo_step(action("thread.rename", Some("t"), true, false)).unwrap_err(),
        "NOT_UNDOABLE: no undo is written for thread.rename"
    );
    assert_eq!(undo_step(None).unwrap_err(), "unknown action");
}

#[test]
fn the_device_half_is_local_only() {
    let drain = Conduct::Drain { ttl_ms: 10 };
    assert!(drain.grant_refusal(false).unwrap().contains("device half"));
    assert_eq!(drain.grant_refusal(true), None);
    let start = Conduct::Start { thread_id: "a".into(), scope: None };
    assert!(start.grant_refusal(false).unwrap().contains("arms an orchestrator"));
    let undo = Conduct::Undo { action_id: "x".into() };
    assert_eq!(
        undo.grant_refusal(false).unwrap(),
        "only Boite's own window undoes an orchestrator action; an agent cannot"
    );
    let dispatch = Conduct::Dispatch {
        thread_id: "boss".into(),
        to_thread_id: "worker".into(),
        text: "hi".into(),
        mode: "queue".into(),
    };
    assert_eq!(dispatch.grant_refusal(false), None);
}

fn facts(pilot: bool, accepts: bool) -> DispatchFacts {
    DispatchFacts {
        target_is_pilot: pilot,
        caller: orch(Some("orchestrator"), None),
        target: orch(None, None),
        target_project: Ok("p1".into()),
        project_taken: false,
        target_accepts: accepts,
    }
}

#[test]
fn a_line_into_a_chat_thread_is_a_turn() {
    let post = Conduct::Post { scope: None, text: "hello".into() };
    let turn = as_pilot_turn("orchestrator", &post, Some("chat-boss".into()), facts(false, true)).unwrap();
    assert!(matches!(turn, Some(Pilot::TurnStart { ref thread_id, ref text, model: None }) if thread_id == "chat-boss" && text == "hello"));
    assert!(as_pilot_turn("orchestrator", &post, None, facts(false, true)).unwrap().is_none());

    let dispatch = Conduct::Dispatch {
        thread_id: "boss".into(),
        to_thread_id: "worker".into(),
        text: "go".into(),
        mode: "queue".into(),
    };
    assert!(as_pilot_turn("orchestrator", &dispatch, None, facts(false, true)).unwrap().is_none());
    let turn = as_pilot_turn("orchestrator", &dispatch, None, facts(true, true)).unwrap();
    assert!(matches!(turn, Some(Pilot::TurnStart { ref thread_id, .. }) if thread_id == "worker"));
    assert!(as_pilot_turn("orchestrator", &dispatch, None, facts(true, false)).unwrap_err().starts_with("MUTED"));
    let drain = Conduct::Drain { ttl_ms: 1 };
    assert!(as_pilot_turn("orchestrator", &drain, Some("x".into()), facts(true, true)).unwrap().is_none());
}

#[test]
fn a_host_with_no_declared_places_offers_the_home_folder() {
    assert_eq!(parents_or_home(&None, Some("/home/me".into())), vec!["/home/me".to_string()]);
    assert!(parents_or_home(&None, None).is_empty());
    assert_eq!(parents_or_home(&Some(vec!["/a".into(), "/b".into()]), Some("/home/me".into())), vec!["/a", "/b"]);
    assert!(parents_or_home(&Some(vec![]), Some("/home/me".into())).is_empty());
}

#[test]
fn a_settle_names_one_of_three_states() {
    assert!(settle_state("delivered").is_ok());
    assert!(settle_state("dropped").is_ok());
    assert!(settle_state("refused").is_ok());
    assert_eq!(
        settle_state("typed"),
        Err("unknown settle state typed; it is one of delivered, dropped, refused".to_string())
    );
    assert!(settle_state("").is_err());
}

#[test]
fn only_the_report_that_settles_a_line_appends_a_moment() {
    assert_eq!(
        settle_report("refused", Some("TARGET_BUSY"), true),
        SettleReport { settled: true, moment: Some("refused:TARGET_BUSY".to_string()) }
    );
    assert_eq!(
        settle_report("delivered", None, true),
        SettleReport { settled: true, moment: Some("delivered".to_string()) }
    );
    // The line was delivered first: a late busy refusal settles nothing and
    // appends nothing, the first writer's word stands.
    assert_eq!(settle_report("refused", Some("TARGET_BUSY"), false), SettleReport { settled: false, moment: None });
}

#[test]
fn a_scope_has_one_live_orchestrator() {
    assert_eq!(start_holder(None, "a"), Ok(()));
    assert_eq!(start_holder(Some("a".to_string()), "a"), Ok(()), "a restart is no conflict");
    assert_eq!(
        start_holder(Some("a".to_string()), "b"),
        Err("ORCHESTRATOR_TAKEN: thread a is already the live orchestrator for this scope".to_string())
    );
}

#[test]
fn a_scoped_start_takes_over_the_queue_and_a_global_one_does_not() {
    let queued = vec!["d1".to_string(), "d2".to_string()];
    assert_eq!(scope_handover(&Some("p".to_string()), queued.clone()), queued);
    assert!(scope_handover(&None, queued).is_empty());
}

#[test]
fn muting_settles_the_whole_backlog_and_rearming_nothing() {
    let queued = vec!["one".to_string(), "two".to_string()];
    let (accept, dropped) = accept_switch(false, queued.clone());
    assert!(!accept);
    assert_eq!(dropped, queued);
    let (accept, dropped) = accept_switch(true, queued);
    assert!(accept);
    assert!(dropped.is_empty());
}

#[test]
fn the_status_answer_shows_a_chat_orchestrators_status_only() {
    assert_eq!(
        status_answer(Some("boss".to_string()), true, Some("idle".to_string())),
        StatusAnswer { thread_id: Some("boss".to_string()), pilot: true, status: Some("idle".to_string()) }
    );
    assert_eq!(
        status_answer(Some("boss".to_string()), false, Some("idle".to_string())),
        StatusAnswer { thread_id: Some("boss".to_string()), pilot: false, status: None }
    );
    assert_eq!(
        status_answer(None, true, Some("idle".to_string())),
        StatusAnswer { thread_id: None, pilot: false, status: None }
    );
}

#[test]
fn an_undo_behind_the_busy_rule_writes_nothing_when_refused() {
    let busy = "BUSY: the thread is still working".to_string();
    let spawned = UndoRows { action: action("thread.spawn", Some("w"), true, false), settled_at: None };
    assert_eq!(undo(spawned.clone(), Some(busy.clone()), 5), Err(busy));
    assert_eq!(
        undo(spawned, None, 5),
        Ok(UndoRows { action: action("thread.spawn", Some("w"), true, true), settled_at: Some(5) })
    );
    let unknown = UndoRows { action: None, settled_at: Some(1) };
    assert_eq!(undo(unknown, None, 5), Err("unknown action".to_string()));
}

#[test]
fn undo_brings_a_dismissed_thread_back_and_refuses_twice() {
    let refusal = Conduct::Undo { action_id: "a1".into() }.grant_refusal(false).unwrap();
    assert!(refusal.contains("undoes"), "{refusal}");
    // The worker was put away at 5, and the dismissal was recorded.
    let rows = UndoRows { action: action("thread.dismiss", Some("worker"), true, false), settled_at: Some(5) };
    assert!(rows.action.as_ref().unwrap().undoable);
    let done = undo(rows, None, 9).unwrap();
    // The thread is back out, and the action stops being offered.
    assert_eq!(done.settled_at, None);
    assert!(done.action.as_ref().unwrap().undone);
    let again = undo(done, None, 10).unwrap_err();
    assert!(again.contains("ALREADY_UNDONE"), "{again}");
}

#[test]
fn start_is_local_only_and_one_holder_per_scope() {
    let refusal = Conduct::Start { thread_id: "a".into(), scope: None }.grant_refusal(false).unwrap();
    assert!(refusal.contains("arms an orchestrator"), "{refusal}");
    assert_eq!(start_holder(None, "a"), Ok(()));
    let taken = start_holder(Some("a".to_string()), "b").unwrap_err();
    assert!(taken.contains("ORCHESTRATOR_TAKEN"), "{taken}");
    // The same thread asking again is a restart, not a conflict.
    assert_eq!(start_holder(Some("a".to_string()), "a"), Ok(()));
    let status = status_answer(Some("a".to_string()), false, None);
    assert_eq!(status.thread_id, Some("a".to_string()));
    // A settled holder releases the scope: the store reports no live holder.
    assert_eq!(start_holder(None, "b"), Ok(()));
}

#[test]
fn a_scoped_start_settles_the_global_backlog_into_its_project() {
    let dispatch_id = "d1".to_string();
    let handed = scope_handover(&Some("q".to_string()), vec![dispatch_id.clone()]);
    assert_eq!(handed, vec![dispatch_id]);
    // The line settled at the takeover, so it never reaches a drain.
    let (line, report) = settle_line(DispatchLine { outcome: None }, "refused", Some("SCOPE_TAKEN")).unwrap();
    assert_eq!(report.moment, Some("refused:SCOPE_TAKEN".to_string()));
    // And the takeover's word stands: first writer wins.
    let (_, again) = settle_line(line, "delivered", None).unwrap();
    assert!(!again.settled);
}

#[test]
fn dispatch_is_refused_by_role_and_static_target_guards() {
    let boss = orch(Some("orchestrator"), None);
    let worker = orch(None, None);
    let peer = orch(None, None);
    let no_role = dispatch_target("orchestrator", worker.clone(), peer, Ok("p".into()), false, true).unwrap_err();
    assert!(no_role.contains("not one"), "{no_role}");
    // Both directions: the boss into another orchestrator is refused too.
    let stamped_peer = orch(Some("orchestrator"), Some("q"));
    let to_peer = dispatch_target("orchestrator", boss.clone(), stamped_peer, Ok("p".into()), false, true).unwrap_err();
    assert!(to_peer.contains("NO_ORCHESTRATOR_TO_ORCHESTRATOR"), "{to_peer}");
    let (accept, _) = accept_switch(false, Vec::new());
    let muted = dispatch_target("orchestrator", boss, worker, Ok("p".into()), false, accept).unwrap_err();
    assert!(muted.contains("MUTED"), "{muted}");
}

#[test]
fn dispatch_scope_is_owned_by_the_nearest_orchestrator() {
    let boss = orch(Some("orchestrator"), None);
    let qboss = orch(Some("orchestrator"), Some("q"));
    let qworker = orch(None, None);
    let worker = orch(None, None);
    // Project q has an orchestrator of its own.
    let taken = dispatch_target("orchestrator", boss, qworker.clone(), Ok("q".into()), true, true).unwrap_err();
    assert!(taken.contains("SCOPE_TAKEN"), "{taken}");
    let out = dispatch_target("orchestrator", qboss.clone(), worker, Ok("p".into()), false, true).unwrap_err();
    assert!(out.contains("OUT_OF_SCOPE"), "{out}");
    // Inside its own project the line queues.
    assert_eq!(dispatch_target("orchestrator", qboss, qworker, Ok("q".into()), true, true), Ok("q".to_string()));
}

#[test]
fn a_dispatch_queues_drains_and_settles_once() {
    let open = DispatchLine { outcome: None };
    let bad = settle_line(open.clone(), "typed", None).unwrap_err();
    assert!(bad.contains("unknown settle state"), "{bad}");
    let (line, first) = settle_line(open, "delivered", None).unwrap();
    assert!(first.settled);
    let (after, again) = settle_line(line.clone(), "refused", Some("TARGET_BUSY")).unwrap();
    assert!(!again.settled, "the first writer's word stands");
    assert_eq!(again.moment, None);
    assert_eq!(after, line);
    assert_eq!(after.outcome, Some(("delivered".to_string(), None)));
}

#[test]
fn muting_drops_the_backlog() {
    let (accept, dropped) = accept_switch(false, vec!["one".to_string(), "two".to_string()]);
    assert!(!accept);
    assert_eq!(dropped.len(), 2);
}

fn row(id: &str, created_at: i64) -> ThreadRow {
    ThreadRow {
        id: id.to_string(),
        created_at,
        pty_id: Some("pty-9".to_string()),
        status: "running".to_string(),
        exit_code: Some(3),
        settled_at: Some(44),
        role: Some("orchestrator".to_string()),
        orchestrator_scope: Some("p".to_string()),
        accept_dispatch: false,
    }
}

#[test]
fn a_resave_keeps_the_stored_run_and_orchestration() {
    let stored = ThreadRow {
        id: "t".to_string(),
        created_at: 1,
        pty_id: None,
        status: "exited".to_string(),
        exit_code: Some(0),
        settled_at: None,
        role: None,
        orchestrator_scope: None,
        accept_dispatch: true,
    };
    let saved = thread_for_save(row("t", 7), Some(stored), 100);
    assert_eq!(
        saved,
        ThreadRow {
            id: "t".to_string(),
            created_at: 7,
            pty_id: None,
            status: "exited".to_string(),
            exit_code: Some(0),
            settled_at: None,
            role: None,
            orchestrator_scope: None,
            accept_dispatch: true,
        }
    );
}

#[test]
fn a_new_row_starts_idle_live_and_accepting() {
    let saved = thread_for_save(row("n", 0), None, 100);
    assert_eq!(
        saved,
        ThreadRow {
            id: "n".to_string(),
            created_at: 100,
            pty_id: None,
            status: "idle".to_string(),
            exit_code: None,
            settled_at: None,
            role: None,
            orchestrator_scope: None,
            accept_dispatch: true,
        }
    );
}

#[test]
fn a_busy_thread_is_not_put_away() {
    let busy = "BUSY: still working".to_string();
    assert_eq!(may_settle(Some(busy.clone()), true, 9), Err(busy.clone()));
    assert_eq!(may_settle(None, true, 9), Ok(SettleWrite { stop_child: true, settled_at: ColVal::Int(9) }));
    assert_eq!(may_settle(Some(busy), false, 9), Ok(SettleWrite { stop_child: false, settled_at: ColVal::Null }));
}

#[test]
fn a_started_thread_is_running_with_no_exit_code() {
    assert_eq!(
        started_columns(),
        vec![(ThreadCol::Status, ColVal::Text("running".to_string())), (ThreadCol::ExitCode, ColVal::Null)]
    );
}

fn snapshot(status: &str, exit_code: Option<i64>) -> ThreadRow {
    ThreadRow {
        id: "t".to_string(),
        created_at: 0,
        pty_id: None,
        status: status.to_string(),
        exit_code,
        settled_at: None,
        role: None,
        orchestrator_scope: None,
        accept_dispatch: true,
    }
}

#[test]
fn a_resave_cannot_hand_a_finished_thread_its_run_back() {
    // A new row starts idle whatever the caller claimed.
    let created = thread_for_save(snapshot("running", None), None, 1);
    assert_eq!(created.status, "idle");
    // The process ends, written through the two columns no patch exposes.
    let mut stored = created;
    stored.status = "exited".to_string();
    stored.exit_code = Some(3);
    // A window whose copy predates that re-saves the row. The ending survives.
    let resaved = thread_for_save(snapshot("running", None), Some(stored), 2);
    assert_eq!(resaved.status, "exited", "a stale snapshot revived a dead thread");
    assert_eq!(resaved.exit_code, Some(3));
}

#[test]
fn the_orchestration_columns_are_not_claimable_through_records() {
    // A create that claims the role lands as a worker.
    let mut claimed = snapshot("idle", None);
    claimed.role = Some("orchestrator".to_string());
    claimed.orchestrator_scope = Some("p".to_string());
    claimed.accept_dispatch = false;
    let created = thread_for_save(claimed, None, 1);
    assert_eq!(
        (created.role.clone(), created.orchestrator_scope.clone(), created.accept_dispatch),
        (None, None, true),
        "a caller stated the stamp and it must not land"
    );
    // An update that names the columns changes nothing: the patch does not
    // carry them.
    let patch = ThreadPatch::read(&params(vec![
        ("threadId", text("t")),
        ("role", text("orchestrator")),
        ("orchestratorScope", text("p")),
        ("acceptDispatch", Param::Bool(false)),
    ]));
    assert!(patch.columns().is_empty());
    // A re-save cannot wash a real stamp away either.
    let mut stamped = created;
    stamped.role = Some("orchestrator".to_string());
    stamped.orchestrator_scope = Some("p".to_string());
    let resaved = thread_for_save(snapshot("idle", None), Some(stamped), 2);
    assert_eq!(
        (resaved.role, resaved.orchestrator_scope, resaved.accept_dispatch),
        (Some("orchestrator".to_string()), Some("p".to_string()), true)
    );
}

#[test]
fn a_new_row_names_a_runtime_this_boite_can_drive() {
    let drivers = vec!["codex".to_string(), "gemini".to_string()];
    assert_eq!(check_runtime("terminal", None, None, None, None), Ok(()));
    assert_eq!(
        check_runtime("docker", None, Some(&drivers), None, None),
        Err("'docker' is not a runtime: a thread is 'terminal' or 'pilot'".to_string())
    );
    assert_eq!(
        check_runtime("pilot", Some("   "), Some(&drivers), None, None),
        Err("a chat thread names the driver that answers on it, and this row names none".to_string())
    );
    assert_eq!(
        check_runtime("pilot", Some("codex"), None, None, None),
        Err("this Boite has no pilot runtime, so it cannot open a chat thread".to_string())
    );
    assert_eq!(
        check_runtime("pilot", Some("x"), Some(&drivers), None, None),
        Err("no pilot driver called 'x' here. This build drives codex, gemini.".to_string())
    );
    assert_eq!(
        check_runtime("pilot", Some(" codex "), Some(&drivers), Some("expected value at line 1 column 1".to_string()), None),
        Err("this chat thread's instance is not one: expected value at line 1 column 1".to_string())
    );
    assert_eq!(
        check_runtime("pilot", Some("gemini"), Some(&drivers), None, Some("missing field".to_string())),
        Err("this chat thread's options are not options: missing field".to_string())
    );
    assert_eq!(check_runtime("pilot", Some("gemini"), Some(&drivers), None, None), Ok(()));
}

#[test]
fn a_pulse_answers_at_once_with_moments_and_waits_only_when_it_can() {
    let found = PulseRead { last_seq: Some(12), truncated: true };
    assert_eq!(
        read_pulse(found, true, 5000, 30000, 40, 3),
        PulseNext::Answer(PulseAnswer { seq: 12, timed_out: false, truncated: true })
    );
    let empty = PulseRead { last_seq: None, truncated: false };
    // The wait is capped.
    assert_eq!(read_pulse(empty, true, 90000, 30000, 40, 3), PulseNext::Wait(30000));
    // No registry on this host: the empty answer now, timed out since a wait was asked for.
    assert_eq!(
        read_pulse(empty, false, 5000, 30000, 40, 3),
        PulseNext::Answer(PulseAnswer { seq: 40, timed_out: true, truncated: false })
    );
    // No wait asked for: not a timeout, and the cursor never goes behind the caller's.
    assert_eq!(
        read_pulse(empty, true, 0, 30000, 2, 9),
        PulseNext::Answer(PulseAnswer { seq: 9, timed_out: false, truncated: false })
    );
}

#[test]
fn a_pulse_after_its_wait_answers_or_is_superseded_by_name() {
    let empty = PulseRead { last_seq: None, truncated: false };
    assert_eq!(
        pulse_after_wait(PulseWoke::Woken(PulseRead { last_seq: Some(41), truncated: false }), empty, 40, 3),
        Ok(PulseAnswer { seq: 41, timed_out: false, truncated: false })
    );
    assert_eq!(
        pulse_after_wait(PulseWoke::TimedOut, empty, 40, 3),
        Ok(PulseAnswer { seq: 40, timed_out: true, truncated: false })
    );
    assert_eq!(
        pulse_after_wait(PulseWoke::Superseded, empty, 40, 3),
        Err("PULSE_SUPERSEDED: a newer pulse from the same caller replaced this one".to_string())
    );
}

#[test]
fn a_dismissal_passes_the_guards_then_the_busy_rule() {
    assert_eq!(dismiss(Err("unknown target thread".to_string()), None, 7), Err("unknown target thread".to_string()));
    let busy = "BUSY: still working".to_string();
    assert_eq!(dismiss(Ok("p".to_string()), Some(busy.clone()), 7), Err(busy));
    assert_eq!(dismiss(Ok("p".to_string()), None, 7), Ok(("p".to_string(), 7)));
}

#[test]
fn a_workspace_answers_its_overrides_and_the_version_it_runs() {
    let blank = WorkspaceMeta { name: None, color: None };
    assert_eq!(
        workspace_answer(blank.clone(), "1.4.2"),
        WorkspaceAnswer { name: None, color: None, version: "1.4.2".to_string() }
    );
    let named = set_workspace_info(blank, Some(Some("x".repeat(192))), Some(Some("#1a2b3c".to_string())));
    let info = workspace_answer(named, "1.4.2");
    assert_eq!(info.name.unwrap().chars().count(), 64);
    assert_eq!(info.color, Some("#1a2b3c".to_string()));
    assert_eq!(info.version, "1.4.2");
}

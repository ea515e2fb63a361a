use boite_core::command::conduct::{Conduct, ConductDefaults};
use boite_core::command::logs::{from_client, records_to_write, Logs, MAX_BATCH};
use boite_core::command::params::{Param, Params};
use boite_core::agent::ProjectRow;
use boite_core::command::pilot::{fastpick_models, fastpick_providers, thread_cwd, ExecMode, Pilot, ThreadPlace};
use boite_core::command::records::{Records, ThreadPatch};
use boite_core::command::sessions::{Own, Sessions};
use boite_core::command::{capability_of, Capability, Wire};
use boite_core::command::Capability::{MutateProject, ReadProject};

fn params(fields: Vec<(&str, Param)>) -> Params {
    Params { fields: fields.into_iter().map(|(k, v)| (k.to_string(), v)).collect() }
}

fn text(s: &str) -> Param {
    Param::Str(s.to_string())
}

fn object(fields: Vec<(&str, Param)>) -> Param {
    Param::Object(params(fields))
}

const SESSIONS: [&str; 31] = [
    "session.find",
    "session.liveClaude",
    "session.agentTurns",
    "session.usage",
    "session.stopClaude",
    "session.copilotResumable",
    "session.migrate",
    "shell.default",
    "shell.available",
    "shell.commandExists",
    "fastpick.list",
    "fastpick.version",
    "codexSwitcher.list",
    "codexSwitcher.save",
    "codexSwitcher.activate",
    "codexSwitcher.version",
    "fastMcpSsh.version",
    "kebaccSwitcher.list",
    "kebaccSwitcher.add",
    "kebaccSwitcher.switch",
    "kebaccSwitcher.version",
    "session.transcript",
    "cli.catalog",
    "cli.latest",
    "cli.jobs",
    "cli.dataPaths",
    "cli.install",
    "cli.uninstall",
    "cli.cancel",
    "cli.dismiss",
    "mcp.catalog",
];

const RECORDS: [&str; 18] = [
    "project.list",
    "project.create",
    "project.archive",
    "project.delete",
    "thread.list",
    "thread.create",
    "thread.update",
    "thread.started",
    "thread.settle",
    "thread.delete",
    "todo.list",
    "todo.save",
    "todo.delete",
    "settings.get",
    "settings.set",
    "workspace.info",
    "workspace.setInfo",
    "search.query",
];

const PILOT: [&str; 12] = [
    "pilot.catalog",
    "pilot.thread.open",
    "pilot.turn.start",
    "pilot.turn.interrupt",
    "pilot.request.respond",
    "pilot.model.set",
    "pilot.mode.set",
    "pilot.session.stop",
    "pilot.items",
    "pilot.events",
    "pilot.subscribe",
    "pilot.unsubscribe",
];

const CONDUCT: [&str; 14] = [
    "conduct.pulse",
    "conduct.record",
    "orchestrator.post",
    "orchestrator.say",
    "orchestrator.messages",
    "orchestrator.start",
    "orchestrator.actions",
    "orchestrator.undo",
    "orchestrator.status",
    "thread.dispatch",
    "thread.acceptDispatch",
    "dispatch.drain",
    "dispatch.settle",
    "voice.transcribe",
];

fn session_params() -> Params {
    params(vec![
        ("kind", text("codex")),
        ("cwd", text("/w")),
        ("sessionId", text("s")),
        ("fromCwd", text("/a")),
        ("toCwd", text("/b")),
        ("cmd", text("codex")),
        ("cwds", Param::List(vec![text("/w")])),
        ("threadId", text("t1")),
        ("provider", text("codex")),
        ("email", text("you@example.com")),
        ("id", text("codex")),
    ])
}

#[test]
fn sessions_every_method_decodes_and_names_itself_back() {
    for method in SESSIONS {
        let command = Sessions::decode(method, session_params())
            .unwrap_or_else(|err| panic!("{method} did not decode: {err}"));
        assert_eq!(command.name(), method);
        assert_eq!(capability_of(method), Some(command.capability()), "{method}");
    }
}

#[test]
fn a_session_call_reads_its_defaults_and_refuses_what_is_missing() {
    let find = Sessions::decode("session.find", session_params()).unwrap();
    let Sessions::Find { kind, cwd, after_unix_ms, exclude_ids, session_id, own } = find else {
        panic!("not a find");
    };
    assert_eq!((kind.as_str(), cwd.as_str(), after_unix_ms), ("codex", "/w", 0));
    assert!(exclude_ids.is_empty());
    assert_eq!(session_id.as_deref(), Some("s"));
    assert!(matches!(own, Own::Pty(None)));

    let before = Sessions::decode(
        "session.find",
        params(vec![("kind", text("k")), ("cwd", text("/w")), ("afterUnixMs", Param::Negative(-5))]),
    )
    .unwrap();
    assert!(matches!(before, Sessions::Find { after_unix_ms: -5, .. }));

    let transcript = Sessions::decode(
        "session.transcript",
        params(vec![("threadId", text("t")), ("bytes", Param::Number(10_000_000))]),
    )
    .unwrap();
    assert!(matches!(transcript, Sessions::Transcript { bytes: 1_048_576, dir: None, .. }));
    let small = Sessions::decode("session.transcript", params(vec![("threadId", text("t"))])).unwrap();
    assert!(matches!(small, Sessions::Transcript { bytes: 16_384, .. }));

    let turns = Sessions::decode("session.agentTurns", params(vec![])).unwrap();
    assert!(matches!(turns, Sessions::AgentTurns { queries: Param::List(ref q) } if q.is_empty()));

    let usage = Sessions::decode("session.usage", params(vec![])).unwrap();
    assert!(matches!(usage, Sessions::Usage { days: 365, .. }));

    let activate = Sessions::decode("codexSwitcher.activate", params(vec![])).unwrap();
    assert!(matches!(activate, Sessions::CodexSwitcherActivate { ref account_id } if account_id.is_empty()));

    assert_eq!(
        Sessions::decode("session.migrate", params(vec![("kind", text("k")), ("sessionId", text("s"))])).unwrap_err(),
        "missing param: fromCwd"
    );
    assert_eq!(Sessions::decode("session.nope", params(vec![])).unwrap_err(), "unknown method: session.nope");
}

fn record_params() -> Params {
    params(vec![
        ("project", object(vec![("id", text("p")), ("name", text("n")), ("cwd", text(".")), ("icon", Param::Null)])),
        ("thread", object(vec![("id", text("t")), ("projectId", text("p")), ("label", text("l")), ("cmd", text("c"))])),
        (
            "todo",
            object(vec![
                ("id", text("d")),
                ("projectId", text("p")),
                ("title", text("t")),
                ("state", text("open")),
                ("createdAt", Param::Number(0)),
                ("updatedAt", Param::Number(0)),
            ]),
        ),
        ("id", text("p")),
        ("threadId", text("t")),
        ("todoId", text("d")),
        ("settings", object(vec![])),
        ("q", text("anything")),
        ("status", text("idle")),
        ("ids", Param::List(vec![])),
        ("settled", Param::Bool(true)),
    ])
}

#[test]
fn records_every_method_decodes_and_names_itself_back() {
    for method in RECORDS {
        let command = Records::decode(method, record_params())
            .unwrap_or_else(|err| panic!("{method} did not decode: {err}"));
        assert_eq!(command.name(), method);
        assert_eq!(capability_of(method), Some(command.capability()), "{method}");
    }
}

#[test]
fn a_query_cannot_ask_for_more_than_the_cap() {
    let read = |limit: Param| match Records::decode("search.query", params(vec![("q", text("x")), ("limit", limit)])) {
        Ok(Records::Search { limit, .. }) => limit,
        other => panic!("search.query did not decode: {other:?}"),
    };
    assert_eq!(read(Param::Number(5)), 5);
    assert_eq!(read(Param::Number(100_000)), 100);
    assert_eq!(read(Param::Number(0)), 1);
    assert_eq!(read(Param::Null), 20);
}

#[test]
fn a_record_call_keeps_what_it_hands_on_and_names_what_is_missing() {
    let create = Records::decode("project.create", record_params()).unwrap();
    let Records::ProjectCreate { project: Param::Object(row) } = create else {
        panic!("not a project row");
    };
    assert_eq!(row.fields.len(), 4);
    assert_eq!(row.fields[0].0, "id");

    assert_eq!(Records::decode("project.create", params(vec![])).unwrap_err(), "missing param: project");
    assert_eq!(
        Records::decode("thread.settle", params(vec![("threadId", text("t")), ("status", text("idle"))])).unwrap_err(),
        "missing param: settled"
    );
    assert_eq!(
        Records::decode(
            "thread.settle",
            params(vec![("threadId", text("t")), ("status", text("idle")), ("settled", text("yes"))])
        )
        .unwrap_err(),
        "missing param: settled"
    );

    let update = Records::decode("thread.update", params(vec![("threadId", text("t")), ("title", Param::Null)])).unwrap();
    let Records::ThreadUpdate { id, patch } = update else {
        panic!("not an update");
    };
    assert_eq!(id, "t");
    assert_eq!(patch, ThreadPatch { title: Some(None), ..ThreadPatch::default() });

    let info = Records::decode("workspace.setInfo", params(vec![("name", text("  box  ")), ("color", text(" "))])).unwrap();
    let Records::WorkspaceSetInfo { name, color } = info else {
        panic!("not a setInfo");
    };
    assert_eq!(name, Some(Some("box".to_string())));
    assert_eq!(color, Some(None));

    assert!(matches!(
        Records::decode("project.archive", params(vec![("id", text("p"))])).unwrap(),
        Records::ProjectArchive { archived: false, .. }
    ));
    assert_eq!(Records::decode("rows.nope", params(vec![])).unwrap_err(), "unknown method: rows.nope");
}

fn pilot_params(mode: bool) -> Params {
    let mut fields = vec![
        ("threadId", text("t1")),
        ("text", text("hi")),
        ("requestId", text("r1")),
        ("option", text("allow")),
    ];
    if mode {
        fields.push(("mode", text("ask")));
    }
    params(fields)
}

#[test]
fn every_method_round_trips_through_its_own_name() {
    for method in PILOT {
        let command = Pilot::decode(method, pilot_params(true)).expect(method);
        assert_eq!(command.name(), method);
    }
}

#[test]
fn pilot_what_each_method_needs_is_what_the_scope_check_reads() {

    for (method, expected) in [
        ("pilot.catalog", ReadProject),
        ("pilot.items", ReadProject),
        ("pilot.events", ReadProject),
        ("pilot.subscribe", ReadProject),
        ("pilot.unsubscribe", ReadProject),
        ("pilot.thread.open", MutateProject),
        ("pilot.turn.start", MutateProject),
        ("pilot.turn.interrupt", MutateProject),
        ("pilot.request.respond", MutateProject),
        ("pilot.model.set", MutateProject),
        ("pilot.mode.set", MutateProject),
        ("pilot.session.stop", MutateProject),
    ] {
        let command = Pilot::decode(method, pilot_params(false)).expect(method);
        assert_eq!(command.capability(), expected, "{method}");
    }
}

#[test]
fn a_read_limit_is_clamped() {
    let command = Pilot::decode("pilot.items", params(vec![("threadId", text("t1")), ("limit", Param::Number(1_000_000))]))
        .unwrap();
    let Pilot::Items { limit, .. } = command else {
        panic!("not an items read");
    };
    assert_eq!(limit, 1000);
}

#[test]
fn a_pilot_call_names_its_thread_mode_and_account() {
    let catalog = Pilot::decode("pilot.catalog", params(vec![])).unwrap();
    assert_eq!(catalog.thread_id(), None);
    assert_eq!(catalog.wire(), Wire::Bare);
    let off = Pilot::decode("pilot.unsubscribe", pilot_params(false)).unwrap();
    assert!(matches!(off, Pilot::Subscribe { on: false, .. }));
    assert_eq!(off.thread_id().map(String::as_str), Some("t1"));
    assert_eq!(off.wire(), Wire::Ack);

    let yolo = Pilot::decode("pilot.mode.set", params(vec![("threadId", text("t")), ("mode", text("yolo"))])).unwrap();
    assert!(matches!(yolo, Pilot::ModeSet { mode: ExecMode::Yolo, .. }));
    assert_eq!(
        Pilot::decode("pilot.mode.set", params(vec![("threadId", text("t")), ("mode", text("wild"))])).unwrap_err(),
        "unknown pilot mode: wild"
    );

    let same = Pilot::decode("pilot.model.set", params(vec![("threadId", text("t")), ("instance", Param::Null)])).unwrap();
    assert!(matches!(same, Pilot::ModelSet { instance: None, .. }));
    let other = Pilot::decode(
        "pilot.model.set",
        params(vec![("threadId", text("t")), ("instance", object(vec![("id", text("work"))]))]),
    )
    .unwrap();
    assert!(matches!(other, Pilot::ModelSet { instance: Some(Param::Object(_)), .. }));

    assert_eq!(Pilot::decode("pilot.turn.start", params(vec![("threadId", text("t"))])).unwrap_err(), "missing param: text");
    assert_eq!(Pilot::decode("pilot.fly", params(vec![])).unwrap_err(), "unknown pilot method: pilot.fly");
}

fn defaults() -> ConductDefaults {
    ConductDefaults { pulse_wait_ms: 25_000, pulse_max_wait_ms: 60_000, voice_provider: "local".to_string() }
}

fn conduct_params() -> Params {
    params(vec![
        ("kind", text("phase")),
        ("text", text("hi")),
        ("threadId", text("t1")),
        ("actionId", text("a1")),
        ("toThreadId", text("t2")),
        ("dispatchId", text("d1")),
        ("state", text("delivered")),
        ("audio", text("AAAA")),
    ])
}

#[test]
fn every_conduct_method_decodes_and_names_itself_back() {
    for method in CONDUCT {
        let command = Conduct::decode(method, conduct_params(), &defaults())
            .unwrap_or_else(|err| panic!("{method} did not decode: {err}"));
        assert_eq!(command.name(), method);
        assert_eq!(capability_of(method), Some(command.capability()), "{method}");
    }
}

#[test]
fn a_conduct_call_fills_its_defaults_and_holds_its_bounds() {
    let pulse = Conduct::decode("conduct.pulse", params(vec![]), &defaults()).unwrap();
    let Conduct::Pulse { since_seq, timeout_ms, project, waiter } = pulse else {
        panic!("not a pulse");
    };
    assert_eq!((since_seq, timeout_ms, project, waiter.as_str()), (0, 25_000, None, "local"));
    let long = Conduct::decode("conduct.pulse", params(vec![("timeoutMs", Param::Number(999_999))]), &defaults()).unwrap();
    assert!(matches!(long, Conduct::Pulse { timeout_ms: 60_000, .. }));

    let record = Conduct::decode("conduct.record", params(vec![("kind", text("k"))]), &defaults()).unwrap();
    let Conduct::Record { detail, source, .. } = record else {
        panic!("not a record");
    };
    assert_eq!((detail.as_str(), source.as_str()), ("", "phase"));

    let messages = Conduct::decode("orchestrator.messages", params(vec![("limit", Param::Number(9_999))]), &defaults()).unwrap();
    assert!(matches!(messages, Conduct::Messages { limit: 500, .. }));
    let actions = Conduct::decode("orchestrator.actions", params(vec![("limit", Param::Number(0))]), &defaults()).unwrap();
    assert!(matches!(actions, Conduct::Actions { limit: 1 }));
    let drain = Conduct::decode("dispatch.drain", params(vec![]), &defaults()).unwrap();
    assert!(matches!(drain, Conduct::Drain { ttl_ms: 3_600_000 }));
    let accept = Conduct::decode("thread.acceptDispatch", params(vec![("threadId", text("t"))]), &defaults()).unwrap();
    assert!(matches!(accept, Conduct::AcceptDispatch { accept: true, .. }));

    let voice = Conduct::decode("voice.transcribe", params(vec![("audio", text("AAAA"))]), &defaults()).unwrap();
    let Conduct::Transcribe { mime, provider, .. } = voice else {
        panic!("not a transcription");
    };
    assert_eq!((mime.as_str(), provider.as_str()), ("audio/wav", "local"));

    assert_eq!(
        Conduct::decode("thread.dispatch", params(vec![("threadId", text("t"))]), &defaults()).unwrap_err(),
        "missing param: toThreadId"
    );
    assert_eq!(Conduct::decode("conduct.nope", params(vec![]), &defaults()).unwrap_err(), "unknown method: conduct.nope");
}

fn decode_logs(method: &str, p: Params) -> Logs {
    Logs::decode(method, p).unwrap()
}

#[test]
fn a_written_record_is_tagged_by_the_transport_not_by_its_body() {
    let logs = decode_logs(
        "logs.write",
        params(vec![
            ("device", text("phone-1")),
            (
                "records",
                Param::List(vec![object(vec![
                    ("host", text("server")),
                    ("device", text("somebody-else")),
                    ("level", text("warn")),
                    ("target", text("ui.frame")),
                    ("msg", text("the pane stalled")),
                    ("thread", text("t-7")),
                    ("ts", Param::Number(1234)),
                    ("fields", object(vec![("paneId", text("p1"))])),
                ])]),
            ),
        ]),
    );
    let Logs::Write { records, device } = logs else {
        panic!("not a write");
    };
    assert_eq!(device.as_deref(), Some("phone-1"));
    let first = records.into_iter().next().unwrap();
    let record = from_client(first, &device);
    assert_eq!(record.host, "webview");
    assert_eq!(record.device.as_deref(), Some("phone-1"));
    assert_eq!(record.level, "warn");
    assert_eq!(record.thread.as_deref(), Some("t-7"));
    assert_eq!(record.ts, Some(1234));
    assert_eq!(record.fields[0].0, "paneId");
    assert!(matches!(&record.fields[0].1, Param::Str(s) if s == "p1"));
}

#[test]
fn a_bare_record_gets_defaults_rather_than_a_refusal() {
    let record = from_client(object(vec![]), &None);
    assert_eq!(record.host, "webview");
    assert_eq!(record.level, "info");
    assert_eq!(record.target, "webview");
    assert_eq!(record.msg, "");
    assert_eq!(record.device, None);
}

#[test]
fn logs_what_each_method_needs_is_what_the_scope_check_reads() {

    for (method, expected) in [
        ("logs.tail", ReadProject),
        ("logs.query", ReadProject),
        ("logs.subscribe", ReadProject),
        ("logs.level", MutateProject),
        ("logs.write", MutateProject),
    ] {
        assert_eq!(decode_logs(method, params(vec![])).capability(), expected, "{method}");
    }
}

#[test]
fn a_query_carries_every_filter_it_was_given() {
    let logs = decode_logs(
        "logs.query",
        params(vec![
            ("since", Param::Number(10)),
            ("until", Param::Number(20)),
            ("level", text("warn")),
            ("host", text("server")),
            ("thread", text("t1")),
            ("turn", text("u1")),
            ("target", text("boite_core")),
            ("text", text("refused")),
            ("limit", Param::Number(5)),
        ]),
    );
    let Logs::Query(query) = logs else {
        panic!("not a query")
    };
    assert_eq!(query.since, Some(10));
    assert_eq!(query.until, Some(20));
    assert_eq!(query.level.as_deref(), Some("warn"));
    assert_eq!(query.host.as_deref(), Some("server"));
    assert_eq!(query.thread.as_deref(), Some("t1"));
    assert_eq!(query.turn.as_deref(), Some("u1"));
    assert_eq!(query.target.as_deref(), Some("boite_core"));
    assert_eq!(query.text.as_deref(), Some("refused"));
    assert_eq!(query.limit, Some(5));
}

#[test]
fn a_log_call_has_its_defaults_and_a_batch_its_ceiling() {
    assert!(matches!(decode_logs("logs.tail", params(vec![])), Logs::Tail { limit: 200, .. }));
    assert!(matches!(decode_logs("logs.subscribe", params(vec![])), Logs::Subscribe { on: true }));
    assert!(matches!(
        decode_logs("logs.subscribe", params(vec![("on", Param::Bool(false))])),
        Logs::Subscribe { on: false }
    ));
    assert_eq!(decode_logs("logs.write", params(vec![])).wire(), Wire::Ack);
    assert_eq!(Logs::decode("logs.erase", params(vec![])).unwrap_err(), "unknown logs method: logs.erase");

    let message_only = from_client(object(vec![("message", text("said")), ("msg", text(""))]), &None);
    assert_eq!(message_only.msg, "said");
    let from_body = from_client(object(vec![("device", text("tablet"))]), &None);
    assert_eq!(from_body.device.as_deref(), Some("tablet"));
    let not_an_object = from_client(text("line"), &Some("phone".to_string()));
    assert_eq!((not_an_object.level.as_str(), not_an_object.device.as_deref()), ("info", Some("phone")));

    let many: Vec<Param> = (0..MAX_BATCH + 7).map(|i| object(vec![("msg", text(&i.to_string()))])).collect();
    let kept = records_to_write(many, &None);
    assert_eq!(kept.len(), MAX_BATCH);
    assert_eq!(kept[0].msg, "0");
    assert_eq!(kept[MAX_BATCH - 1].msg, (MAX_BATCH - 1).to_string());
}

#[test]
fn the_providers_of_a_real_fastpick_listing_are_read_off_it() {
    let provider = |id: &str| object(vec![("id", text(id)), ("label", text(id))]);
    let listing = object(vec![
        ("schema", Param::Number(3)),
        ("providers", Param::List(vec![provider("anthropic"), provider("codex-everywhere"), provider("crof")])),
    ]);
    assert_eq!(fastpick_providers(&listing), vec!["anthropic", "codex-everywhere", "crof"]);
    assert!(fastpick_providers(&object(vec![])).is_empty());
    assert_eq!(
        fastpick_providers(&object(vec![("providers", Param::List(vec![object(vec![]), provider("x")]))])),
        vec!["x"]
    );
}

#[test]
fn a_fastpick_model_becomes_the_instance_the_launcher_would_name() {
    let model = |id: &str| object(vec![("id", text(id)), ("key", text("crof")), ("label", text(id))]);
    let models = object(vec![(
        "models",
        object(vec![(
            "items",
            Param::List(vec![
                model("crof-deepseek-v4-flash"),
                model("crof-deepseek-v4"),
                model("crof-qwen-4"),
                model("crof-kimi-3"),
                model("crof-glm-5"),
            ]),
        )]),
    )]);
    let instances = fastpick_models("crof", &models);
    assert_eq!(instances.len(), 5, "{instances:?}");
    let first = &instances[0];
    assert_eq!(first.name, "fastpick:crof:crof-deepseek-v4-flash");
    assert_eq!(first.provider, "crof");
    assert_eq!(first.model, "crof-deepseek-v4-flash");
    assert_eq!(first.label, "crof-deepseek-v4-flash \u{b7} crof");
}

#[test]
fn a_second_credential_of_one_provider_is_named_in_the_label() {
    let models = object(vec![(
        "models",
        object(vec![(
            "items",
            Param::List(vec![
                object(vec![("id", text("gpt-6")), ("key", text("openai")), ("label", text("GPT 6"))]),
                object(vec![("id", text("grok-5")), ("key", text("xai")), ("label", text("Grok 5"))]),
            ]),
        )]),
    )]);
    let instances = fastpick_models("codex-everywhere", &models);
    assert_eq!(instances[0].label, "gpt-6 \u{b7} codex-everywhere.openai");
    assert_eq!(instances[1].name, "fastpick:codex-everywhere:grok-5");
}

#[test]
fn an_older_listing_keeps_its_models_at_the_root() {
    let models = object(vec![(
        "items",
        Param::List(vec![object(vec![("id", text("m1")), ("key", text(""))]), object(vec![("key", text("k"))])]),
    )]);
    let instances = fastpick_models("p", &models);
    assert_eq!(instances.len(), 1);
    assert_eq!(instances[0].label, "m1 \u{b7} p");
    assert!(fastpick_models("p", &text("not a document")).is_empty());
}

#[test]
fn a_chat_thread_runs_in_its_worktree_or_its_project() {
    let projects = vec![
        ProjectRow { id: "p1".into(), name: "one".into(), cwd: "/w/one".into() },
        ProjectRow { id: "p2".into(), name: "two".into(), cwd: "/w/two".into() },
    ];
    let place = |worktree: Option<&str>, project: &str| {
        Some(ThreadPlace { worktree: worktree.map(str::to_string), project_id: project.to_string() })
    };
    assert_eq!(thread_cwd("t", place(Some("/wt/t"), "p1"), &projects), Ok("/wt/t".to_string()));
    assert_eq!(thread_cwd("t", place(Some(""), "p2"), &projects), Ok("/w/two".to_string()));
    assert_eq!(thread_cwd("t", place(None, "p1"), &projects), Ok("/w/one".to_string()));
    assert_eq!(thread_cwd("t", place(None, "p9"), &projects), Err("thread t names a project that is gone".to_string()));
    assert_eq!(thread_cwd("t", None, &projects), Err("no thread t".to_string()));
}

use boite_core::agent::{
    close_target, pulse_scope, pulse_waiter, settled, spawn_checks, todo_entry, yolo, DeviceReply, SpawnPlan, SpawnRefusal,
};
use boite_core::command::conduct::Orchestration;
use boite_core::command::params::{Param, Params};
use boite_core::agent::{pilot_wait_state, terminal_wait_state, wait_over, wait_timeout};
use boite_core::agent::{actor, confined_to, resolve_project, spawn_runtime, which_pane, Actor, Pane, ProjectRow};

const NOT_YOURS: &str = "the user has taken that pane back, so it is theirs to point now. Open one of your own with pane_open kind=browser.";

fn framed(id: &str, driven_by: Option<&str>) -> Pane {
    Pane { id: id.to_string(), driven_by: driven_by.map(str::to_string) }
}

#[test]
fn a_browser_call_says_which_of_the_three_ways_it_could_not_find_a_pane() {
    let none: Vec<Pane> = Vec::new();
    assert!(which_pane(&none, "t1", None).unwrap_err().contains("no browser pane is open"));

    let one = vec![framed("pane-a", Some("t1"))];
    assert!(which_pane(&one, "t1", Some("pane-z")).unwrap_err().contains("no browser pane called"));
    assert_eq!(which_pane(&one, "t1", None).unwrap(), "pane-a");

    let two = vec![framed("pane-a", Some("t1")), framed("pane-b", Some("t1"))];
    assert!(which_pane(&two, "t1", None).unwrap_err().contains("say which"));
    assert_eq!(which_pane(&two, "t1", Some("pane-b")).unwrap(), "pane-b");
}

#[test]
fn a_pane_the_user_took_back_is_no_longer_the_agents_to_point() {
    let driven = vec![framed("pane-a", Some("t1"))];
    assert!(which_pane(&driven, "t1", None).is_ok());
    let reclaimed = vec![framed("pane-a", None)];
    assert_eq!(which_pane(&reclaimed, "t1", None).unwrap_err(), NOT_YOURS);
    let theirs = vec![framed("pane-a", Some("t2"))];
    assert_eq!(which_pane(&theirs, "t1", None).unwrap_err(), NOT_YOURS);
}

#[test]
fn a_credential_with_no_terminal_drives_no_pane() {
    let user_owned = vec![framed("pane-a", None)];
    assert_eq!(which_pane(&user_owned, "", None).unwrap_err(), NOT_YOURS);
    let marked_empty = vec![framed("pane-a", Some(""))];
    assert_eq!(which_pane(&marked_empty, "", Some("pane-a")).unwrap_err(), NOT_YOURS);
}

#[test]
fn a_pane_stays_the_callers_wherever_the_user_is_looking() {
    let screen = vec![framed("pane-a", Some("t1"))];
    assert_eq!(which_pane(&screen, "t1", None).unwrap(), "pane-a");
}

#[test]
fn the_mark_is_the_only_thing_that_makes_a_pane_the_callers() {
    let mixed = vec![framed("pane-a", None), framed("pane-b", Some("t2")), framed("pane-c", Some("t1"))];
    assert_eq!(which_pane(&mixed, "t1", None).unwrap(), "pane-c");
    assert_eq!(which_pane(&mixed, "t1", Some("pane-b")).unwrap_err(), NOT_YOURS);
    assert_eq!(which_pane(&mixed, "t1", Some("pane-a")).unwrap_err(), NOT_YOURS);
    let theirs = vec![framed("pane-a", Some("t2"))];
    assert_eq!(which_pane(&theirs, "t1", None).unwrap_err(), NOT_YOURS);
    let three = vec![framed("a", Some("t1")), framed("b", Some("t1")), framed("c", Some("t1"))];
    assert_eq!(
        which_pane(&three, "t1", Some("")).unwrap_err(),
        "3 browser panes of yours are open; say which with paneId, from browser_status"
    );
}

fn project(id: &str, name: &str, cwd: &str) -> ProjectRow {
    ProjectRow { id: id.into(), name: name.into(), cwd: cwd.into() }
}

#[test]
fn a_name_two_projects_answer_to_is_refused() {
    let projects = vec![project("p1", "alpha", "/w/one"), project("p2", "beta", "/w/two"), project("p3", "alpha", "/w/three")];
    assert_eq!(resolve_project(&projects, "p2").unwrap(), ("p2".into(), "beta".into()));
    assert_eq!(resolve_project(&projects, "/w/three").unwrap().0, "p3");
    assert_eq!(resolve_project(&projects, "BETA").unwrap().0, "p2");
    assert!(resolve_project(&projects, "alpha").unwrap_err().contains("more than one project"));
    assert!(resolve_project(&projects, "nothing").unwrap_err().contains("projects_list"));
    assert_eq!(resolve_project(&projects, "   ").unwrap_err(), "name the project to move into");
    assert_eq!(resolve_project(&projects, r"\w\two\").unwrap().0, "p2");
}

#[test]
fn who_acts_and_what_a_caller_may_read() {
    assert!(matches!(actor(Some("t1")), Actor::Thread(t) if t == "t1"));
    assert!(matches!(actor(Some("")), Actor::System));
    assert!(matches!(actor(None), Actor::System));
    assert_eq!(confined_to(true, "p1"), None);
    assert_eq!(confined_to(false, "p1").as_deref(), Some("p1"));
}

#[test]
fn a_spawned_thread_gets_a_runtime_that_exists() {
    assert_eq!(spawn_runtime(Some(" pilot "), "t1", None, "terminal").unwrap(), "pilot");
    assert!(spawn_runtime(Some("tmux"), "t1", None, "terminal").unwrap_err().starts_with("BAD_RUNTIME: 'tmux'"));
    assert_eq!(spawn_runtime(None, "", Some("pilot".into()), "terminal").unwrap(), "terminal");
    assert_eq!(spawn_runtime(Some(" "), "t1", Some("pilot".into()), "terminal").unwrap(), "pilot");
    assert_eq!(spawn_runtime(None, "t1", None, "terminal").unwrap(), "terminal");
}

#[test]
fn a_wait_ends_when_the_thread_is_done_or_the_time_is_up() {
    let busy = pilot_wait_state(Some("busy".into()));
    assert!(busy.live && !busy.done);
    let idle = pilot_wait_state(Some("idle".into()));
    assert!(idle.live && idle.done);
    let gone = pilot_wait_state(None);
    assert_eq!(gone.status, "idle");
    assert!(!gone.live && gone.done);
    let running = terminal_wait_state(Some("running".into()), true, false);
    assert!(!running.done, "a live running thread is not done");
    assert!(terminal_wait_state(Some("running".into()), false, false).done);
    assert_eq!(terminal_wait_state(None, true, true).status, "idle");
    assert_eq!(wait_timeout(Some(99_999)), 30_000);
    assert_eq!(wait_timeout(None), 0);
    assert!(wait_over(false, 30_000, 30_000));
    assert!(!wait_over(false, 10, 30_000));
}

fn row(role: Option<&str>, scope: Option<&str>) -> Option<Orchestration> {
    Some(Orchestration { role: role.map(str::to_string), scope: scope.map(str::to_string) })
}

#[test]
fn an_orchestrator_past_the_worker_cap_is_refused_by_name() {
    let boss = row(Some("orchestrator"), None);
    let refused = spawn_checks("orchestrator", "p1", "p1", "boss", boss.clone(), Ok(()), 3).unwrap_err();
    assert_eq!(
        refused,
        SpawnRefusal::Refused(
            "TOO_MANY_WORKERS: 3 of your workers are still live, and the cap is 3. Wait for one to settle, or tell the user."
                .to_string()
        )
    );
    let allowed = spawn_checks("orchestrator", "p1", "p1", "boss", boss, Ok(()), 2).unwrap();
    assert_eq!(allowed, SpawnPlan { elsewhere: false, is_orchestrator: true });
}

#[test]
fn a_scoped_orchestrator_cannot_spawn_across() {
    let out = spawn_checks("orchestrator", "p1", "p2", "qboss", row(Some("orchestrator"), Some("p1")), Ok(()), 0);
    let Err(SpawnRefusal::Refused(reason)) = out else {
        panic!("not refused: {out:?}");
    };
    assert!(reason.starts_with("OUT_OF_SCOPE: this orchestrator is scoped to p1, and spawning into p2"), "{reason}");
}

#[test]
fn a_spawn_elsewhere_needs_a_credential_that_reaches_across() {
    let denied = spawn_checks("orchestrator", "p1", "p2", "t1", row(None, None), Err("MUTATE_ACROSS".to_string()), 0);
    assert_eq!(denied, Err(SpawnRefusal::Denied("MUTATE_ACROSS".to_string())));
    let asked = spawn_checks("orchestrator", "p1", "p2", "t1", row(None, None), Ok(()), 9).unwrap();
    assert_eq!(asked, SpawnPlan { elsewhere: true, is_orchestrator: false });
    let global = spawn_checks("orchestrator", "p1", "p2", "g", row(Some("orchestrator"), None), Ok(()), 1).unwrap();
    assert_eq!(global, SpawnPlan { elsewhere: true, is_orchestrator: true });
    let credential = spawn_checks("orchestrator", "p1", "p1", "", row(Some("orchestrator"), None), Ok(()), 7).unwrap();
    assert!(!credential.is_orchestrator);
}

#[test]
fn a_thread_closes_only_the_worker_it_spawned() {
    let ok = close_target("t1", " w1 ", Some("p1".into()), Some("t1".into()), Ok(())).unwrap();
    assert_eq!(ok, ("w1".to_string(), "p1".to_string()));
    let stranger = close_target("t1", "t2", Some("p1".into()), None, Ok(())).unwrap_err();
    assert!(stranger.contains("NOT_YOURS"), "{stranger}");
    assert_eq!(
        stranger,
        "NOT_YOURS: t2 is not a terminal you spawned. Only the thread that opened a worker may close it."
    );
    let busy = close_target("t1", "w1", Some("p1".into()), Some("t1".into()), Err("w1 is running".into()));
    assert!(busy.unwrap_err().contains("running"));
    assert_eq!(
        close_target("t1", "t1", Some("p1".into()), None, Ok(())).unwrap_err(),
        "CLOSE_SELF: this is your own terminal. Finish your turn instead."
    );
    assert_eq!(close_target("t1", "  ", None, None, Ok(())).unwrap_err(), "thread_close needs a threadId");
    assert_eq!(close_target("t1", "gone", None, None, Ok(())).unwrap_err(), "no thread 'gone' in this workspace");
}

fn answer(fields: Vec<(&str, Param)>) -> Param {
    Param::Object(Params { fields: fields.into_iter().map(|(k, v)| (k.to_string(), v)).collect() })
}

#[test]
fn an_unclaimed_request_is_not_success() {
    let done = settled(DeviceReply::Answered(answer(vec![("threadId", Param::Str("new-1".into()))]))).unwrap();
    assert!(matches!(done, Param::Object(ref o) if o.fields.len() == 1));
    assert_eq!(
        settled(DeviceReply::Answered(answer(vec![("error", Param::Str("no such pane".into()))]))).unwrap_err(),
        "no such pane"
    );
    assert!(settled(DeviceReply::Answered(answer(vec![("error", Param::Str(String::new()))]))).is_ok());
    assert_eq!(settled(DeviceReply::Dropped).unwrap_err(), "the device dropped the request before answering");
    assert_eq!(
        settled(DeviceReply::TimedOut).unwrap_err(),
        "no Boite device carried this out in time. Open Boite and ask again."
    );
}

#[test]
fn yolo_is_on_only_when_the_settings_say_so() {
    assert!(yolo(Some(&answer(vec![("mcpYolo", Param::Bool(true))]))));
    assert!(!yolo(Some(&answer(vec![("mcpYolo", Param::Bool(false))]))));
    assert!(!yolo(Some(&answer(vec![("mcpYolo", Param::Str("true".into()))]))));
    assert!(!yolo(Some(&answer(vec![]))));
    assert!(!yolo(None));
}

#[test]
fn a_credential_reads_the_pulse_of_its_own_project_only() {
    let scoped = row(Some("orchestrator"), Some("p1"));
    assert_eq!(pulse_scope("orchestrator", Some("p2".into()), scoped.clone(), Some("p3".into())), Some("p2".to_string()));
    assert_eq!(pulse_scope("orchestrator", None, scoped, Some("p3".into())), Some("p1".to_string()));
    assert_eq!(pulse_scope("orchestrator", None, row(Some("orchestrator"), None), Some("p3".into())), Some("p3".to_string()));
    assert_eq!(pulse_scope("orchestrator", None, row(None, Some("p1")), None), None);
    assert_eq!(pulse_waiter(Some("t1"), "p1"), "agent-t1");
    assert_eq!(pulse_waiter(None, "p1"), "agent-p1");
}

#[test]
fn a_todo_needs_a_title_and_an_empty_body_is_none() {
    assert_eq!(todo_entry("  fix it ", Some("  ")), Some(("fix it".to_string(), None)));
    assert_eq!(todo_entry("fix it", Some(" why ")), Some(("fix it".to_string(), Some("why".to_string()))));
    assert_eq!(todo_entry("   ", Some("body")), None);
    assert_eq!(todo_entry("t", None), Some(("t".to_string(), None)));
}

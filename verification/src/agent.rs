//! The decisions of the door an agent uses to reach its own workspace: who
//! it is in the log, what it may read, which project it means, what it may
//! spawn, and which browser pane it may drive.

use vstd::prelude::*;

use crate::command::conduct::Orchestration;
use crate::command::params::{find_member, flag_member, flag_param, opt_text, str_member, Param};
use crate::git::branch::{lowercase, to_lower};
use crate::text::{
    chars_eq, chars_of, decimal, decimal_exec, push_chars, push_str, string_of, trim,
    trim_end_of, trim_exec, };

verus! {

/// What changed, for the devices that are drawing it.
#[derive(Debug, Clone, PartialEq, Eq)]
pub enum Change {
    Todos,
    Worktrees,
    /// Something is waiting on the user.
    Approvals,
    /// The orchestrator conversation moved.
    Orchestrator,
    /// A line was queued for a thread's prompt; the device that owns the
    /// target flushes on it.
    DispatchQueued { to_thread_id: String, dispatch_id: String },
    /// An orchestrator put a finished worker away.
    ThreadDismissed { thread_id: String },
}

/// Who the log names for an action.
#[derive(Debug, Clone)]
pub enum Actor {
    /// A thread that proved itself with its own key.
    Thread(String),
    /// The workspace, acting for a caller with no terminal behind it.
    System,
}

/// A thread that proved itself is named; anything else is the system.
pub fn actor(thread_id: Option<&str>) -> (a: Actor)
    ensures
        match thread_id {
            Some(id) if id@.len() > 0 => a matches Actor::Thread(t) && t@ == id@,
            _ => a is System,
        },
{
    match thread_id {
        Some(id) => {
            let c = chars_of(id);
            if c.len() > 0 {
                Actor::Thread(id.to_owned())
            } else {
                Actor::System
            }
        },
        None => Actor::System,
    }
}

/// The project a caller's reads are confined to: none for a grant that
/// reads across the workspace, its own project for any other.
pub fn confined_to(reads_across: bool, project_id: &str) -> (r: Option<String>)
    ensures
        reads_across ==> r is None,
        !reads_across ==> r is Some && r->Some_0@ == project_id@,
{
    if reads_across {
        None
    } else {
        Some(project_id.to_owned())
    }
}

/// A browser pane on the window, and the thread driving it, if any.
#[derive(Debug, Clone)]
pub struct Pane {
    pub id: String,
    pub driven_by: Option<String>,
}

/// What an agent is told when it reaches for a pane it is not driving.
pub open spec fn not_yours() -> Seq<char> {
    "the user has taken that pane back, so it is theirs to point now. Open one of your own with pane_open kind=browser."@
}

pub open spec fn no_pane() -> Seq<char> {
    "no browser pane is open; pane_open kind=browser url=<address> opens one"@
}

pub open spec fn no_pane_called(id: Seq<char>) -> Seq<char> {
    "no browser pane called '"@ + id + "'; browser_status lists them"@
}

pub open spec fn many_panes(n: nat) -> Seq<char> {
    decimal(n) + " browser panes of yours are open; say which with paneId, from browser_status"@
}

/// Whether `mine` drives pane `p`. An empty thread is a credentials file:
/// it opened nothing and drives nothing.
pub open spec fn drives(p: Pane, mine: Seq<char>) -> bool {
    &&& mine.len() > 0
    &&& p.driven_by matches Some(d) && d@ == mine
}

/// The panes `mine` drives, in window order.
pub open spec fn owned_panes(panes: Seq<Pane>, mine: Seq<char>) -> Seq<Pane>
    decreases panes.len(),
{
    if panes.len() == 0 {
        Seq::<Pane>::empty()
    } else {
        let before = owned_panes(panes.drop_last(), mine);
        if drives(panes.last(), mine) {
            before.push(panes.last())
        } else {
            before
        }
    }
}

/// The first pane called `id`.
pub open spec fn pane_called(panes: Seq<Pane>, id: Seq<char>) -> Option<Pane>
    decreases panes.len(),
{
    if panes.len() == 0 {
        None
    } else if panes[0].id@ == id {
        Some(panes[0])
    } else {
        pane_called(panes.drop_first(), id)
    }
}

/// Which pane a call means: the one it names, or, when it names none, the
/// caller's own pane when it has exactly one. Whichever it is, the caller
/// must be driving it.
pub open spec fn pane_verdict(panes: Seq<Pane>, mine: Seq<char>, asked: Option<Seq<char>>) -> Result<Seq<char>, Seq<char>> {
    if panes.len() == 0 {
        Err(no_pane())
    } else {
        let chosen: Result<Pane, Seq<char>> = match asked {
            Some(id) if id.len() > 0 => match pane_called(panes, id) {
                Some(p) => Ok(p),
                None => Err(no_pane_called(id)),
            },
            _ => {
                let owned = owned_panes(panes, mine);
                if owned.len() == 1 {
                    Ok(owned[0])
                } else if owned.len() == 0 {
                    Err(not_yours())
                } else {
                    Err(many_panes(owned.len()))
                }
            },
        };
        match chosen {
            Err(e) => Err(e),
            Ok(p) => if drives(p, mine) {
                Ok(p.id@)
            } else {
                Err(not_yours())
            },
        }
    }
}

fn drives_exec(p: &Pane, mine: &[char]) -> (r: bool)
    ensures
        r == drives(*p, mine@),
{
    if mine.len() == 0 {
        return false;
    }
    match &p.driven_by {
        Some(d) => chars_eq(&chars_of(d.as_str()), mine),
        None => false,
    }
}

/// Which browser pane a call may drive.
pub fn which_pane(panes: &Vec<Pane>, mine: &str, asked: Option<&str>) -> (r: Result<String, String>)
    ensures
        match r {
            Ok(id) => pane_verdict(panes@, mine@, match asked {
                Some(a) => Some(a@),
                None => None,
            }) == Ok::<Seq<char>, Seq<char>>(id@),
            Err(e) => pane_verdict(panes@, mine@, match asked {
                Some(a) => Some(a@),
                None => None,
            }) == Err::<Seq<char>, Seq<char>>(e@),
        },
{
    if panes.len() == 0 {
        return Err("no browser pane is open; pane_open kind=browser url=<address> opens one".to_owned());
    }
    let me = chars_of(mine);
    let asked_id: Option<Vec<char>> = match asked {
        Some(a) => {
            let c = chars_of(a);
            if c.len() > 0 {
                Some(c)
            } else {
                None
            }
        },
        None => None,
    };
    match &asked_id {
        Some(id) => {
            let mut i: usize = 0;
            proof {
                assert(panes@.skip(0) =~= panes@);
            }
            while i < panes.len() && !chars_eq(&chars_of(panes[i].id.as_str()), id)
                invariant
                    i <= panes@.len(),
                    pane_called(panes@, id@) == pane_called(panes@.skip(i as int), id@),
                decreases panes.len() - i,
            {
                proof {
                    assert(panes@.skip(i as int)[0] == panes@[i as int]);
                    assert(panes@.skip(i as int).drop_first() =~= panes@.skip(i + 1));
                }
                i = i + 1;
            }
            if i == panes.len() {
                proof {
                    assert(panes@.skip(i as int).len() == 0);
                }
                let mut msg: Vec<char> = Vec::new();
                push_str(&mut msg, "no browser pane called '");
                push_chars(&mut msg, id);
                push_str(&mut msg, "'; browser_status lists them");
                return Err(string_of(&msg));
            }
            proof {
                assert(panes@.skip(i as int)[0] == panes@[i as int]);
                assert(pane_called(panes@, id@) == Some(panes@[i as int]));
            }
            if !drives_exec(&panes[i], &me) {
                return Err(
                    "the user has taken that pane back, so it is theirs to point now. Open one of your own with pane_open kind=browser.".to_owned(),
                );
            }
            Ok(panes[i].id.clone())
        },
        None => {
            let mut owned: Vec<usize> = Vec::new();
            let mut i: usize = 0;
            let ghost all = panes@;
            proof {
                assert(all.take(0) =~= Seq::<Pane>::empty());
            }
            while i < panes.len()
                invariant
                    i <= panes@.len(),
                    all == panes@,
                    owned@.len() == owned_panes(all.take(i as int), me@).len(),
                    forall|k: int| 0 <= k < owned@.len() ==> #[trigger] owned@[k] < i
                        && all[owned@[k] as int] == owned_panes(all.take(i as int), me@)[k],
                decreases panes.len() - i,
            {
                proof {
                    assert(all.take(i + 1).drop_last() =~= all.take(i as int));
                    assert(all.take(i + 1).last() == all[i as int]);
                }
                if drives_exec(&panes[i], &me) {
                    owned.push(i);
                }
                i = i + 1;
            }
            proof {
                assert(all.take(all.len() as int) =~= all);
            }
            if owned.len() == 1 {
                let k = owned[0];
                proof {
                    assert(all[k as int] == owned_panes(all, me@)[0]);
                }
                if !drives_exec(&panes[k], &me) {
                    return Err(
                        "the user has taken that pane back, so it is theirs to point now. Open one of your own with pane_open kind=browser.".to_owned(),
                    );
                }
                Ok(panes[k].id.clone())
            } else if owned.len() == 0 {
                Err(
                    "the user has taken that pane back, so it is theirs to point now. Open one of your own with pane_open kind=browser.".to_owned(),
                )
            } else {
                let mut msg: Vec<char> = Vec::new();
                push_chars(&mut msg, &decimal_exec(owned.len() as u64));
                push_str(&mut msg, " browser panes of yours are open; say which with paneId, from browser_status");
                Err(string_of(&msg))
            }
        },
    }
}

/// An agent is only ever handed a pane it is driving: whatever the call
/// named, a pane given back is one the caller's own thread drives.
pub proof fn lemma_only_own_panes(panes: Seq<Pane>, mine: Seq<char>, asked: Option<Seq<char>>)
    ensures
        pane_verdict(panes, mine, asked) matches Ok(id) ==> mine.len() > 0 && exists|k: int|
            0 <= k < panes.len() && panes[k].id@ == id && drives(panes[k], mine),
{
    if pane_verdict(panes, mine, asked) is Ok {
        match asked {
            Some(id) if id.len() > 0 => {
                lemma_pane_called_in(panes, id);
            },
            _ => {
                lemma_owned_in(panes, mine);
            },
        }
    }
}

proof fn lemma_pane_called_in(panes: Seq<Pane>, id: Seq<char>)
    ensures
        pane_called(panes, id) matches Some(p) ==> exists|k: int| 0 <= k < panes.len() && panes[k] == p,
    decreases panes.len(),
{
    if panes.len() > 0 && panes[0].id@ != id {
        lemma_pane_called_in(panes.drop_first(), id);
        if pane_called(panes, id) is Some {
            let k = choose|k: int| 0 <= k < panes.drop_first().len() && panes.drop_first()[k] == pane_called(panes, id)->Some_0;
            assert(panes[k + 1] == pane_called(panes, id)->Some_0);
        }
    } else if panes.len() > 0 {
        assert(panes[0] == pane_called(panes, id)->Some_0);
    }
}

proof fn lemma_owned_in(panes: Seq<Pane>, mine: Seq<char>)
    ensures
        forall|j: int| 0 <= j < owned_panes(panes, mine).len() ==> exists|k: int| 0 <= k < panes.len()
            && panes[k] == #[trigger] owned_panes(panes, mine)[j],
    decreases panes.len(),
{
    if panes.len() > 0 {
        lemma_owned_in(panes.drop_last(), mine);
        let o = owned_panes(panes, mine);
        let ob = owned_panes(panes.drop_last(), mine);
        assert forall|j: int| 0 <= j < o.len() implies exists|k: int| 0 <= k < panes.len() && panes[k] == #[trigger] o[j] by {
            if j < ob.len() {
                assert(o[j] == ob[j]);
                let k = choose|k: int| 0 <= k < panes.drop_last().len() && panes.drop_last()[k] == ob[j];
                assert(panes[k] == o[j]);
            } else {
                assert(panes[panes.len() - 1] == o[j]);
            }
        }
    }
}

/// A stored project, as the agent's `move` and `spawn` read it.
#[derive(Debug, Clone)]
pub struct ProjectRow {
    pub id: String,
    pub name: String,
    pub cwd: String,
}

/// A folder or a needle as they are compared: backslashes as slashes,
/// trailing slashes dropped, lower case.
pub open spec fn normalized(s: Seq<char>) -> Seq<char> {
    to_lower(trim_end_of(s.map_values(|c: char| if c == '\\' { '/' } else { c }), seq!['/']))
}

pub open spec fn first_with_id(ps: Seq<ProjectRow>, id: Seq<char>) -> Option<ProjectRow>
    decreases ps.len(),
{
    if ps.len() == 0 {
        None
    } else if ps[0].id@ == id {
        Some(ps[0])
    } else {
        first_with_id(ps.drop_first(), id)
    }
}

pub open spec fn first_with_cwd(ps: Seq<ProjectRow>, target: Seq<char>) -> Option<ProjectRow>
    decreases ps.len(),
{
    if ps.len() == 0 {
        None
    } else if normalized(ps[0].cwd@) == target {
        Some(ps[0])
    } else {
        first_with_cwd(ps.drop_first(), target)
    }
}

/// The projects whose lower-cased name is `target`, in order.
pub open spec fn named(ps: Seq<ProjectRow>, target: Seq<char>) -> Seq<ProjectRow>
    decreases ps.len(),
{
    if ps.len() == 0 {
        Seq::<ProjectRow>::empty()
    } else {
        let before = named(ps.drop_last(), target);
        if to_lower(ps.last().name@) == target {
            before.push(ps.last())
        } else {
            before
        }
    }
}

/// Which project an agent means by `needle`: an id, then a folder, then a
/// name, and a name two projects share is refused rather than guessed.
pub open spec fn project_verdict(ps: Seq<ProjectRow>, needle: Seq<char>) -> Result<(Seq<char>, Seq<char>), Seq<char>> {
    let n = trim(needle);
    let target = normalized(n);
    if n.len() == 0 {
        Err("name the project to move into"@)
    } else if let Some(p) = first_with_id(ps, n) {
        Ok((p.id@, p.name@))
    } else if let Some(p) = first_with_cwd(ps, target) {
        Ok((p.id@, p.name@))
    } else {
        let by_name = named(ps, target);
        if by_name.len() == 1 {
            Ok((by_name[0].id@, by_name[0].name@))
        } else if by_name.len() > 1 {
            Err("more than one project is called '"@ + n + "'; give the id or the path instead"@)
        } else {
            Err("no project called '"@ + n + "'. Call projects_list to see what there is."@)
        }
    }
}

fn normalized_exec(s: &[char]) -> (out: Vec<char>)
    ensures
        out@ == normalized(s@),
{
    let mut slashed: Vec<char> = Vec::new();
    let mut i: usize = 0;
    while i < s.len()
        invariant
            i <= s@.len(),
            slashed@ == s@.take(i as int).map_values(|c: char| if c == '\\' { '/' } else { c }),
        decreases s.len() - i,
    {
        let c = s[i];
        slashed.push(if c == '\\' { '/' } else { c });
        proof {
            assert(s@.take(i + 1).map_values(|c: char| if c == '\\' { '/' } else { c }) =~= s@.take(
                i as int,
            ).map_values(|c: char| if c == '\\' { '/' } else { c }).push(
                if c == '\\' { '/' } else { c },
            ));
        }
        i = i + 1;
    }
    proof {
        assert(s@.take(s@.len() as int) =~= s@);
    }
    let sl: [char; 1] = ['/'];
    proof {
        assert(sl@ =~= seq!['/']);
    }
    let hi = crate::text::trim_end_index(&slashed, 0, &sl);
    let kept = crate::text::copy_range(&slashed, 0, hi);
    proof {
        assert(slashed@.skip(0) =~= slashed@);
        assert(kept@ =~= trim_end_of(slashed@, seq!['/']));
    }
    let ks = string_of(&kept);
    chars_of(lowercase(ks.as_str()).as_str())
}

/// Which project an agent means, from an id, a folder or a name.
pub fn resolve_project(projects: &Vec<ProjectRow>, needle: &str) -> (r: Result<(String, String), String>)
    ensures
        match r {
            Ok((id, name)) => project_verdict(projects@, needle@) == Ok::<(Seq<char>, Seq<char>), Seq<char>>((id@, name@)),
            Err(e) => project_verdict(projects@, needle@) == Err::<(Seq<char>, Seq<char>), Seq<char>>(e@),
        },
{
    let raw = chars_of(needle);
    let n = trim_exec(&raw);
    if n.len() == 0 {
        return Err("name the project to move into".to_owned());
    }
    let target = normalized_exec(&n);
    let ghost ps = projects@;
    // By id.
    let mut i: usize = 0;
    proof {
        assert(ps.skip(0) =~= ps);
    }
    while i < projects.len()
        invariant
            i <= ps.len(),
            ps == projects@,
            n@ == trim(needle@),
            n@.len() > 0,
            target@ == normalized(n@),
            first_with_id(ps, n@) == first_with_id(ps.skip(i as int), n@),
        decreases projects.len() - i,
    {
        proof {
            assert(ps.skip(i as int)[0] == ps[i as int]);
            assert(ps.skip(i as int).drop_first() =~= ps.skip(i + 1));
        }
        if chars_eq(&chars_of(projects[i].id.as_str()), &n) {
            return Ok((projects[i].id.clone(), projects[i].name.clone()));
        }
        i = i + 1;
    }
    proof {
        assert(ps.skip(i as int).len() == 0);
    }
    // By folder.
    let mut i: usize = 0;
    proof {
        assert(ps.skip(0) =~= ps);
    }
    while i < projects.len()
        invariant
            i <= ps.len(),
            ps == projects@,
            n@ == trim(needle@),
            n@.len() > 0,
            target@ == normalized(n@),
            first_with_id(ps, n@) is None,
            first_with_cwd(ps, target@) == first_with_cwd(ps.skip(i as int), target@),
        decreases projects.len() - i,
    {
        proof {
            assert(ps.skip(i as int)[0] == ps[i as int]);
            assert(ps.skip(i as int).drop_first() =~= ps.skip(i + 1));
        }
        let cwd = normalized_exec(&chars_of(projects[i].cwd.as_str()));
        if chars_eq(&cwd, &target) {
            return Ok((projects[i].id.clone(), projects[i].name.clone()));
        }
        i = i + 1;
    }
    proof {
        assert(ps.skip(i as int).len() == 0);
    }
    // By name.
    let mut hits: Vec<usize> = Vec::new();
    let mut i: usize = 0;
    proof {
        assert(ps.take(0) =~= Seq::<ProjectRow>::empty());
    }
    while i < projects.len()
        invariant
            i <= ps.len(),
            ps == projects@,
            n@ == trim(needle@),
            n@.len() > 0,
            target@ == normalized(n@),
            first_with_id(ps, n@) is None,
            first_with_cwd(ps, target@) is None,
            hits@.len() == named(ps.take(i as int), target@).len(),
            forall|k: int| 0 <= k < hits@.len() ==> #[trigger] hits@[k] < i
                && ps[hits@[k] as int] == named(ps.take(i as int), target@)[k],
        decreases projects.len() - i,
    {
        proof {
            assert(ps.take(i + 1).drop_last() =~= ps.take(i as int));
            assert(ps.take(i + 1).last() == ps[i as int]);
        }
        let lower = chars_of(lowercase(projects[i].name.as_str()).as_str());
        if chars_eq(&lower, &target) {
            hits.push(i);
        }
        i = i + 1;
    }
    proof {
        assert(ps.take(ps.len() as int) =~= ps);
    }
    if hits.len() == 1 {
        let k = hits[0];
        return Ok((projects[k].id.clone(), projects[k].name.clone()));
    }
    if hits.len() > 1 {
        let mut msg: Vec<char> = Vec::new();
        push_str(&mut msg, "more than one project is called '");
        push_chars(&mut msg, &n);
        push_str(&mut msg, "'; give the id or the path instead");
        return Err(string_of(&msg));
    }
    let mut msg: Vec<char> = Vec::new();
    push_str(&mut msg, "no project called '");
    push_chars(&mut msg, &n);
    push_str(&mut msg, "'. Call projects_list to see what there is.");
    Err(string_of(&msg))
}

/// The runtime a spawned thread gets: the one asked for, when it is one of
/// the two; otherwise the caller's own, from its row (`row_runtime`), or
/// `fallback` when it has none; a terminal for a caller Boite did not launch.
pub open spec fn runtime_verdict(asked: Option<Seq<char>>, caller_thread: Seq<char>, row_runtime: Option<Seq<char>>, fallback: Seq<char>) -> Result<Seq<char>, Seq<char>> {
    let a = match asked {
        Some(x) => if trim(x).len() > 0 {
            Some(trim(x))
        } else {
            None
        },
        None => None,
    };
    match a {
        Some(x) => if x == "terminal"@ || x == "pilot"@ {
            Ok(x)
        } else {
            Err("BAD_RUNTIME: '"@ + x
                + "' is not a runtime. It is 'terminal' (a shell Boite watches) or 'pilot' (a chat thread Boite drives over the agent's own protocol)."@)
        },
        None => if caller_thread.len() == 0 {
            Ok("terminal"@)
        } else {
            match row_runtime {
                Some(r) => Ok(r),
                None => Ok(fallback),
            }
        },
    }
}

pub fn spawn_runtime(asked: Option<&str>, caller_thread: &str, row_runtime: Option<String>, fallback: &str) -> (r: Result<String, String>)
    ensures
        match r {
            Ok(v) => runtime_verdict(match asked {
                Some(a) => Some(a@),
                None => None,
            }, caller_thread@, match row_runtime {
                Some(x) => Some(x@),
                None => None,
            }, fallback@) == Ok::<Seq<char>, Seq<char>>(v@),
            Err(e) => runtime_verdict(match asked {
                Some(a) => Some(a@),
                None => None,
            }, caller_thread@, match row_runtime {
                Some(x) => Some(x@),
                None => None,
            }, fallback@) == Err::<Seq<char>, Seq<char>>(e@),
        },
{
    let a: Option<Vec<char>> = match asked {
        Some(x) => {
            let t = trim_exec(&chars_of(x));
            if t.len() > 0 {
                Some(t)
            } else {
                None
            }
        },
        None => None,
    };
    match a {
        Some(x) => {
            if crate::text::text_is(&x, "terminal") || crate::text::text_is(&x, "pilot") {
                Ok(string_of(&x))
            } else {
                let mut msg: Vec<char> = Vec::new();
                push_str(&mut msg, "BAD_RUNTIME: '");
                push_chars(&mut msg, &x);
                push_str(&mut msg, "' is not a runtime. It is 'terminal' (a shell Boite watches) or 'pilot' (a chat thread Boite drives over the agent's own protocol).");
                Err(string_of(&msg))
            }
        },
        None => {
            if chars_of(caller_thread).len() == 0 {
                Ok("terminal".to_owned())
            } else {
                match row_runtime {
                    Some(rt) => Ok(rt),
                    None => Ok(fallback.to_owned()),
                }
            }
        },
    }
}


proof fn lemma_first_with_id_in(ps: Seq<ProjectRow>, id: Seq<char>)
    ensures
        first_with_id(ps, id) matches Some(p) ==> exists|k: int| 0 <= k < ps.len() && ps[k] == p,
    decreases ps.len(),
{
    if ps.len() > 0 && ps[0].id@ != id {
        lemma_first_with_id_in(ps.drop_first(), id);
        if first_with_id(ps, id) is Some {
            let k = choose|k: int| 0 <= k < ps.drop_first().len() && ps.drop_first()[k] == first_with_id(ps, id)->Some_0;
            assert(ps[k + 1] == first_with_id(ps, id)->Some_0);
        }
    } else if ps.len() > 0 {
        assert(ps[0] == first_with_id(ps, id)->Some_0);
    }
}

proof fn lemma_first_with_cwd_in(ps: Seq<ProjectRow>, target: Seq<char>)
    ensures
        first_with_cwd(ps, target) matches Some(p) ==> exists|k: int| 0 <= k < ps.len() && ps[k] == p,
    decreases ps.len(),
{
    if ps.len() > 0 && normalized(ps[0].cwd@) != target {
        lemma_first_with_cwd_in(ps.drop_first(), target);
        if first_with_cwd(ps, target) is Some {
            let k = choose|k: int| 0 <= k < ps.drop_first().len() && ps.drop_first()[k] == first_with_cwd(ps, target)->Some_0;
            assert(ps[k + 1] == first_with_cwd(ps, target)->Some_0);
        }
    } else if ps.len() > 0 {
        assert(ps[0] == first_with_cwd(ps, target)->Some_0);
    }
}

proof fn lemma_named_in(ps: Seq<ProjectRow>, target: Seq<char>)
    ensures
        forall|j: int| 0 <= j < named(ps, target).len() ==> exists|k: int| 0 <= k < ps.len()
            && ps[k] == #[trigger] named(ps, target)[j],
    decreases ps.len(),
{
    if ps.len() > 0 {
        lemma_named_in(ps.drop_last(), target);
        let o = named(ps, target);
        let ob = named(ps.drop_last(), target);
        assert forall|j: int| 0 <= j < o.len() implies exists|k: int| 0 <= k < ps.len() && ps[k] == #[trigger] o[j] by {
            if j < ob.len() {
                assert(o[j] == ob[j]);
                let k = choose|k: int| 0 <= k < ps.drop_last().len() && ps.drop_last()[k] == ob[j];
                assert(ps[k] == o[j]);
            } else {
                assert(ps[ps.len() - 1] == o[j]);
            }
        }
    }
}

/// The project a move resolves to is always one of the projects, named by
/// its own id and name: nothing is made up, and a name two projects share
/// resolves to neither.
pub proof fn lemma_resolved_project_exists(ps: Seq<ProjectRow>, needle: Seq<char>)
    ensures
        project_verdict(ps, needle) matches Ok((id, name)) ==> exists|k: int| 0 <= k < ps.len()
            && ps[k].id@ == id && ps[k].name@ == name,
        named(ps, normalized(trim(needle))).len() > 1 && first_with_id(ps, trim(needle)) is None
            && first_with_cwd(ps, normalized(trim(needle))) is None ==> project_verdict(ps, needle) is Err,
{
    let n = trim(needle);
    lemma_first_with_id_in(ps, n);
    lemma_first_with_cwd_in(ps, normalized(n));
    lemma_named_in(ps, normalized(n));
    if project_verdict(ps, needle) is Ok {
        if first_with_id(ps, n) is None && first_with_cwd(ps, normalized(n)) is None {
            assert(named(ps, normalized(n)).len() == 1);
            let k = choose|k: int| 0 <= k < ps.len() && ps[k] == named(ps, normalized(n))[0];
        }
    }
}


/// What a wait on a sibling thread reports: its status word, whether it is
/// still live, and whether the wait is over on its account.
#[derive(Debug, Clone)]
pub struct WaitState {
    pub status: String,
    pub live: bool,
    pub done: bool,
}

/// A chat thread's state, from the word its runtime declares: `busy` and
/// `waiting` are still running; no session at all is a finished one.
pub fn pilot_wait_state(word: Option<String>) -> (w: WaitState)
    ensures
        match word {
            Some(x) => w.status@ == x@ && w.live && w.done == !(x@ == "busy"@ || x@ == "waiting"@),
            None => w.status@ == "idle"@ && !w.live && w.done,
        },
{
    match word {
        Some(x) => {
            let c = chars_of(x.as_str());
            let running = crate::text::text_is(&c, "busy") || crate::text::text_is(&c, "waiting");
            WaitState { status: x, live: true, done: !running }
        },
        None => WaitState { status: "idle".to_owned(), live: false, done: true },
    }
}

/// A terminal thread's state, from its row's status (`idle` when there is
/// none), whether its terminal is still up, and whether that status is one a
/// thread may be settled from: done once the terminal is gone or settled.
pub fn terminal_wait_state(status: Option<String>, live: bool, can_settle: bool) -> (w: WaitState)
    ensures
        w.status@ == match status {
            Some(x) => x@,
            None => "idle"@,
        },
        w.live == live,
        w.done == (!live || can_settle),
{
    let s = match status {
        Some(x) => x,
        None => "idle".to_owned(),
    };
    WaitState { status: s, live, done: !live || can_settle }
}

/// How long a wait may last: what was asked, at most 30 seconds.
pub fn wait_timeout(asked: Option<u64>) -> (t: u64)
    ensures
        t == match asked {
            Some(a) => if a < 30000 {
                a
            } else {
                30000
            },
            None => 0,
        },
        t <= 30000,
{
    match asked {
        Some(a) => if a < 30000 {
            a
        } else {
            30000
        },
        None => 0,
    }
}

/// Whether a wait answers now: the thread is done, or the time is up.
pub fn wait_over(done: bool, waited_ms: u64, timeout_ms: u64) -> (r: bool)
    ensures
        r == (done || waited_ms >= timeout_ms),
{
    done || waited_ms >= timeout_ms
}

/// Why a spawn was turned away: `Refused` is answered as it is; `Denied` is a
/// credential that may not reach across, written to the log and answered as
/// not worth retrying.
#[derive(Debug, Clone, PartialEq, Eq)]
pub enum SpawnRefusal {
    Refused(String),
    Denied(String),
}

/// How a spawn that passed its checks goes on: `elsewhere` when it lands in
/// another project, which makes it the user's to approve, and
/// `is_orchestrator` when the asking thread is an orchestrator, whose spawns
/// are recorded so they can be undone.
#[derive(Debug, Clone, Copy, PartialEq, Eq)]
pub struct SpawnPlan {
    pub elsewhere: bool,
    pub is_orchestrator: bool,
}

/// The most live workers one orchestrator may hold open at once.
pub const MAX_ORCHESTRATOR_WORKERS: i64 = 3;

pub open spec fn spawn_out_of_scope(own: Seq<char>, project: Seq<char>) -> Seq<char> {
    "OUT_OF_SCOPE: this orchestrator is scoped to "@ + own + ", and spawning into "@ + project
        + " would mutate across it. That belongs to the workspace orchestrator or to the user."@
}

pub open spec fn too_many_workers(live: nat) -> Seq<char> {
    "TOO_MANY_WORKERS: "@ + decimal(live) + " of your workers are still live, and the cap is 3. Wait for one to settle, or tell the user."@
}

pub enum RefusalSpec {
    Refused(Seq<char>),
    Denied(Seq<char>),
}

pub open spec fn refusal_view(r: SpawnRefusal) -> RefusalSpec {
    match r {
        SpawnRefusal::Refused(s) => RefusalSpec::Refused(s@),
        SpawnRefusal::Denied(s) => RefusalSpec::Denied(s@),
    }
}

/// The checks a spawn passes before anything is asked of a device, in the
/// order they are made: a scoped orchestrator stays inside its project; a
/// spawn into another project needs a credential that reaches across
/// (`across` is that credential's answer); and an orchestrator holds at most
/// `MAX_ORCHESTRATOR_WORKERS` live workers. `asker` is what the store holds of
/// the asking thread, `live` how many of its workers are live.
pub open spec fn spawn_verdict(
    orchestrator_role: Seq<char>,
    own_project: Seq<char>,
    project: Seq<char>,
    asking: Seq<char>,
    asker: Option<Orchestration>,
    across: Result<(), Seq<char>>,
    live: i64,
) -> Result<SpawnPlan, RefusalSpec> {
    let elsewhere = project != own_project;
    let scoped_elsewhere = match asker {
        Some(o) => match (o.role, o.scope) {
            (Some(r), Some(own)) => if elsewhere && asking.len() > 0 && r@ == orchestrator_role
                && own@ != project {
                Some(own@)
            } else {
                None
            },
            _ => None,
        },
        None => None,
    };
    let is_orchestrator = asking.len() > 0 && match asker {
        Some(o) => o.role matches Some(r) && r@ == orchestrator_role,
        None => false,
    };
    match scoped_elsewhere {
        Some(own) => Err(RefusalSpec::Refused(spawn_out_of_scope(own, project))),
        None => if elsewhere && across is Err {
            Err(RefusalSpec::Denied(across->Err_0))
        } else if is_orchestrator && live >= MAX_ORCHESTRATOR_WORKERS {
            Err(RefusalSpec::Refused(too_many_workers(live as nat)))
        } else {
            Ok(SpawnPlan { elsewhere, is_orchestrator })
        },
    }
}

pub open spec fn unit_result(r: Result<(), String>) -> Result<(), Seq<char>> {
    match r {
        Ok(()) => Ok(()),
        Err(e) => Err(e@),
    }
}

/// Whether a spawn may go ahead, and how.
pub fn spawn_checks(
    orchestrator_role: &str,
    own_project: &str,
    project: &str,
    asking: &str,
    asker: Option<Orchestration>,
    across: Result<(), String>,
    live: i64,
) -> (r: Result<SpawnPlan, SpawnRefusal>)
    ensures
        match r {
            Ok(plan) => spawn_verdict(
                orchestrator_role@,
                own_project@,
                project@,
                asking@,
                asker,
                unit_result(across),
                live,
            ) == Ok::<SpawnPlan, RefusalSpec>(plan),
            Err(e) => spawn_verdict(
                orchestrator_role@,
                own_project@,
                project@,
                asking@,
                asker,
                unit_result(across),
                live,
            ) == Err::<SpawnPlan, RefusalSpec>(refusal_view(e)),
        },
{
    let role = chars_of(orchestrator_role);
    let p = chars_of(project);
    let elsewhere = !chars_eq(&p, &chars_of(own_project));
    let asking_len = chars_of(asking).len();
    let mut is_orchestrator = false;
    if let Some(o) = &asker {
        if let Some(r) = &o.role {
            let r_is_role = chars_eq(&chars_of(r.as_str()), &role);
            is_orchestrator = asking_len > 0 && r_is_role;
            if let Some(own) = &o.scope {
                let oc = chars_of(own.as_str());
                if elsewhere && asking_len > 0 && r_is_role && !chars_eq(&oc, &p) {
                    let mut msg: Vec<char> = Vec::new();
                    push_str(&mut msg, "OUT_OF_SCOPE: this orchestrator is scoped to ");
                    push_chars(&mut msg, &oc);
                    push_str(&mut msg, ", and spawning into ");
                    push_chars(&mut msg, &p);
                    push_str(
                        &mut msg,
                        " would mutate across it. That belongs to the workspace orchestrator or to the user.",
                    );
                    return Err(SpawnRefusal::Refused(string_of(&msg)));
                }
            }
        }
    }
    if elsewhere {
        if let Err(reason) = across {
            return Err(SpawnRefusal::Denied(reason));
        }
    }
    if is_orchestrator && live >= MAX_ORCHESTRATOR_WORKERS {
        let mut msg: Vec<char> = Vec::new();
        push_str(&mut msg, "TOO_MANY_WORKERS: ");
        push_chars(&mut msg, &decimal_exec(live as u64));
        push_str(
            &mut msg,
            " of your workers are still live, and the cap is 3. Wait for one to settle, or tell the user.",
        );
        return Err(SpawnRefusal::Refused(string_of(&msg)));
    }
    Ok(SpawnPlan { elsewhere, is_orchestrator })
}

pub open spec fn close_self() -> Seq<char> {
    "CLOSE_SELF: this is your own terminal. Finish your turn instead."@
}

pub open spec fn no_such_thread(id: Seq<char>) -> Seq<char> {
    "no thread '"@ + id + "' in this workspace"@
}

pub open spec fn not_your_worker(id: Seq<char>) -> Seq<char> {
    "NOT_YOURS: "@ + id + " is not a terminal you spawned. Only the thread that opened a worker may close it."@
}

/// Which terminal a thread may close, and the project it is filed under: a
/// worker the asking thread spawned itself (the row's parent is the store's
/// word, not the caller's), never its own terminal, and only when the busy
/// rule lets the worker be put away (`settle` is that rule's answer on the
/// worker's recorded status). `project` is the project of the target's row,
/// when there is one.
pub open spec fn close_verdict(
    asking: Seq<char>,
    asked: Seq<char>,
    project: Option<Seq<char>>,
    parent: Option<Seq<char>>,
    settle: Result<(), Seq<char>>,
) -> Result<(Seq<char>, Seq<char>), Seq<char>> {
    let target = trim(asked);
    if target.len() == 0 {
        Err("thread_close needs a threadId"@)
    } else if target == asking {
        Err(close_self())
    } else {
        match project {
            None => Err(no_such_thread(target)),
            Some(p) => if parent != Some(asking) {
                Err(not_your_worker(target))
            } else {
                match settle {
                    Err(e) => Err(e),
                    Ok(()) => Ok((target, p)),
                }
            },
        }
    }
}

/// The worker to close and its project, or why it may not be closed.
pub fn close_target(
    asking: &str,
    asked: &str,
    project: Option<String>,
    parent: Option<String>,
    settle: Result<(), String>,
) -> (r: Result<(String, String), String>)
    ensures
        match r {
            Ok((t, p)) => close_verdict(
                asking@,
                asked@,
                opt_text(project),
                opt_text(parent),
                unit_result(settle),
            ) == Ok::<(Seq<char>, Seq<char>), Seq<char>>((t@, p@)),
            Err(e) => close_verdict(
                asking@,
                asked@,
                opt_text(project),
                opt_text(parent),
                unit_result(settle),
            ) == Err::<(Seq<char>, Seq<char>), Seq<char>>(e@),
        },
{
    let target = trim_exec(&chars_of(asked));
    if target.len() == 0 {
        return Err("thread_close needs a threadId".to_owned());
    }
    let me = chars_of(asking);
    if chars_eq(&target, &me) {
        return Err("CLOSE_SELF: this is your own terminal. Finish your turn instead.".to_owned());
    }
    let p = match project {
        None => {
            let mut msg: Vec<char> = Vec::new();
            push_str(&mut msg, "no thread '");
            push_chars(&mut msg, &target);
            push_str(&mut msg, "' in this workspace");
            return Err(string_of(&msg));
        },
        Some(p) => p,
    };
    let spawned_it = match &parent {
        Some(q) => chars_eq(&chars_of(q.as_str()), &me),
        None => false,
    };
    if !spawned_it {
        let mut msg: Vec<char> = Vec::new();
        push_str(&mut msg, "NOT_YOURS: ");
        push_chars(&mut msg, &target);
        push_str(
            &mut msg,
            " is not a terminal you spawned. Only the thread that opened a worker may close it.",
        );
        return Err(string_of(&msg));
    }
    match settle {
        Err(e) => Err(e),
        Ok(()) => Ok((string_of(&target), p)),
    }
}

/// What a device did with a request put to it: answered, dropped it, or let
/// the time run out.
#[derive(Debug)]
pub enum DeviceReply {
    Answered(Param),
    Dropped,
    TimedOut,
}

/// The `error` a device's answer carries, when it says something.
pub open spec fn answer_error(v: Param) -> Option<Seq<char>> {
    match v {
        Param::Object(o) => match str_member(o, "error"@) {
            Some(e) => if e.len() > 0 {
                Some(e)
            } else {
                None
            },
            None => None,
        },
        _ => None,
    }
}

pub open spec fn dropped() -> Seq<char> {
    "the device dropped the request before answering"@
}

pub open spec fn too_late() -> Seq<char> {
    "no Boite device carried this out in time. Open Boite and ask again."@
}

/// A request a device carried out is a success only when its answer names no
/// error; an unclaimed or dropped request is never one.
pub fn settled(reply: DeviceReply) -> (r: Result<Param, String>)
    ensures
        match reply {
            DeviceReply::Answered(v) => match answer_error(v) {
                Some(e) => r matches Err(x) && x@ == e,
                None => r == Ok::<Param, String>(v),
            },
            DeviceReply::Dropped => r matches Err(x) && x@ == dropped(),
            DeviceReply::TimedOut => r matches Err(x) && x@ == too_late(),
        },
{
    match reply {
        DeviceReply::Answered(v) => {
            let error = match &v {
                Param::Object(o) => match find_member(o, "error") {
                    Some(Param::Str(e)) => if e.as_str().unicode_len() > 0 {
                        Some(e.clone())
                    } else {
                        None
                    },
                    _ => None,
                },
                _ => None,
            };
            match error {
                Some(e) => Err(e),
                None => Ok(v),
            }
        },
        DeviceReply::Dropped => Err("the device dropped the request before answering".to_owned()),
        DeviceReply::TimedOut => Err(
            "no Boite device carried this out in time. Open Boite and ask again.".to_owned(),
        ),
    }
}

/// Whether the workspace answers for the user on the calls that would wait:
/// the settings say `mcpYolo: true`. Settings that could not be read mean no.
pub fn yolo(settings: Option<&Param>) -> (r: bool)
    ensures
        r == match settings {
            Some(Param::Object(o)) => flag_member(*o, "mcpYolo"@) == Some(true),
            _ => false,
        },
{
    match settings {
        Some(Param::Object(o)) => match flag_param(o, "mcpYolo") {
            Some(b) => b,
            None => false,
        },
        _ => false,
    }
}

/// Which project a pulse read covers: the one a credential is confined to;
/// else the scope of an orchestrator thread asking (`asker` is its row); else
/// whatever the caller asked for, which may be every project.
pub open spec fn pulse_scope_of(
    orchestrator_role: Seq<char>,
    confined: Option<Seq<char>>,
    asker: Option<Orchestration>,
    asked: Option<Seq<char>>,
) -> Option<Seq<char>> {
    match confined {
        Some(p) => Some(p),
        None => {
            let scoped = match asker {
                Some(o) => if o.role matches Some(r) && r@ == orchestrator_role {
                    opt_text(o.scope)
                } else {
                    None
                },
                None => None,
            };
            match scoped {
                Some(p) => Some(p),
                None => asked,
            }
        },
    }
}

/// The project a pulse read is filtered to, if any.
pub fn pulse_scope(
    orchestrator_role: &str,
    confined: Option<String>,
    asker: Option<Orchestration>,
    asked: Option<String>,
) -> (r: Option<String>)
    ensures
        opt_text(r) == pulse_scope_of(
            orchestrator_role@,
            opt_text(confined),
            asker,
            opt_text(asked),
        ),
{
    if let Some(p) = confined {
        return Some(p);
    }
    if let Some(o) = asker {
        let is_orchestrator = match &o.role {
            Some(r) => chars_eq(&chars_of(r.as_str()), &chars_of(orchestrator_role)),
            None => false,
        };
        if is_orchestrator {
            if let Some(scope) = o.scope {
                return Some(scope);
            }
        }
    }
    asked
}

/// The name one caller's pulse wait is kept under, so a second wait from the
/// same caller replaces the first: the thread for a spawned agent, the project
/// for a credentials file.
pub fn pulse_waiter(thread_id: Option<&str>, project_id: &str) -> (r: String)
    ensures
        r@ == "agent-"@ + match thread_id {
            Some(t) => t@,
            None => project_id@,
        },
{
    let mut name: Vec<char> = Vec::new();
    push_str(&mut name, "agent-");
    match thread_id {
        Some(t) => push_str(&mut name, t),
        None => push_str(&mut name, project_id),
    }
    string_of(&name)
}

/// A todo as an agent adds it: the title trimmed, which must leave something,
/// and the description trimmed, with an empty one the same as none.
pub open spec fn todo_fields(title: Seq<char>, description: Option<Seq<char>>) -> Option<
    (Seq<char>, Option<Seq<char>>),
> {
    if trim(title).len() == 0 {
        None
    } else {
        Some(
            (
                trim(title),
                match description {
                    Some(d) => if trim(d).len() == 0 {
                        None
                    } else {
                        Some(trim(d))
                    },
                    None => None,
                },
            ),
        )
    }
}

/// The title and description to store, or `None` for a request to refuse.
pub fn todo_entry(title: &str, description: Option<&str>) -> (r: Option<(String, Option<String>)>)
    ensures
        match r {
            Some((t, d)) => todo_fields(title@, match description {
                Some(x) => Some(x@),
                None => None,
            }) == Some((t@, opt_text(d))),
            None => todo_fields(title@, match description {
                Some(x) => Some(x@),
                None => None,
            }) is None,
        },
{
    let t = trim_exec(&chars_of(title));
    if t.len() == 0 {
        return None;
    }
    let d = match description {
        Some(x) => {
            let dt = trim_exec(&chars_of(x));
            if dt.len() == 0 {
                None
            } else {
                Some(string_of(&dt))
            }
        },
        None => None,
    };
    Some((string_of(&t), d))
}

} // verus!

//! Switching branch, with the changes carried across or put aside.
//!
//! A switch is a conversation with git: check the name, look at HEAD, maybe
//! stash, switch, and restore the stash when the switch fails. The host runs
//! each git call; [`SwitchBranch::step`] takes what git answered and says
//! what to ask next, until it says [`Ask::Done`].

use vstd::prelude::*;

use crate::text::{chars_eq, chars_of, has_prefix, push_chars, push_str, string_of, strs, trim, trim_exec};

verus! {

/// What a branch change did beyond switching.
#[derive(Debug, Clone, Copy)]
pub struct BranchChangeResult {
    pub stashed: bool,
}

/// Where a switch is.
#[derive(Debug, Clone, Copy, PartialEq, Eq, Structural)]
pub enum Phase {
    Begin,
    NameChecked,
    CurrentRead,
    ExistenceRead,
    StashBeforeRead,
    HeadRead,
    FromRead,
    Stashed,
    StashAfterRead,
    Switched,
    Restored,
    Finished,
}

/// What the host is to ask git next.
#[derive(Debug)]
pub enum Ask {
    /// Whether `git check-ref-format --branch <name>` accepts the name.
    CheckName,
    /// The branch HEAD is on, when it is on one.
    CurrentBranch,
    /// Whether `refs/heads/<name>` exists.
    BranchExists,
    /// What `refs/stash` points at, if anything.
    StashId,
    /// What `HEAD` points at, if anything.
    HeadId,
    /// Run `git` with these arguments.
    Run(Vec<String>),
    /// The switch is over.
    Done(Result<BranchChangeResult, String>),
}

/// What git answered to the last [`Ask`].
#[derive(Debug)]
pub enum Answer {
    /// Nothing was asked yet.
    Start,
    /// A yes or no.
    Holds(bool),
    /// A name or an object id, when there is one.
    Name(Option<String>),
    /// How a command run went.
    Ran(Result<(), String>),
}

/// A branch switch in progress.
pub struct SwitchBranch {
    pub name: String,
    pub create: bool,
    pub stash: bool,
    pub is_dir: bool,
    pub phase: Phase,
    pub before: Option<String>,
    pub stashed: bool,
    pub switch_error: String,
}

/// The answer each phase waits for.
pub open spec fn fits(phase: Phase, a: Answer) -> bool {
    match phase {
        Phase::Begin => a is Start,
        Phase::NameChecked | Phase::ExistenceRead => a is Holds,
        Phase::CurrentRead | Phase::StashBeforeRead | Phase::HeadRead | Phase::FromRead
        | Phase::StashAfterRead => a is Name,
        Phase::Stashed | Phase::Switched | Phase::Restored => a is Ran,
        Phase::Finished => false,
    }
}

pub open spec fn spaces_message() -> Seq<char> {
    "Invalid branch name. Remove leading or trailing spaces."@
}

pub open spec fn dash_message(name: Seq<char>) -> Seq<char> {
    "Invalid branch name '"@ + name + "'. It cannot start with '-'."@
}

pub open spec fn format_message(name: Seq<char>) -> Seq<char> {
    "Invalid branch name '"@ + name
        + "'. Use a valid Git branch name without spaces or reserved characters."@
}

pub open spec fn exists_message(name: Seq<char>) -> Seq<char> {
    "A branch named '"@ + name + "' already exists."@
}

pub open spec fn gone_message(name: Seq<char>) -> Seq<char> {
    "The branch '"@ + name + "' no longer exists. Refresh the branch list."@
}

pub open spec fn unborn_message() -> Seq<char> {
    "Git cannot stash changes before the first commit. Bring the changes to the new branch or create the initial commit first."@
}

pub open spec fn stash_args(from: Seq<char>, name: Seq<char>) -> Seq<Seq<char>> {
    seq![
        "stash"@,
        "push"@,
        "--include-untracked"@,
        "--message"@,
        "boite: changes before switching from "@ + from + " to "@ + name
    ]
}

pub open spec fn switch_args(create: bool, name: Seq<char>) -> Seq<Seq<char>> {
    if create {
        seq!["switch"@, "-c"@, name]
    } else {
        seq!["switch"@, name]
    }
}

pub open spec fn pop_args() -> Seq<Seq<char>> {
    seq!["stash"@, "pop"@, "--index"@]
}

/// Whether the name is refused before git is asked: blank, padded with
/// spaces, or starting with `-`, which git would read as an option.
pub open spec fn name_problem(name: Seq<char>) -> Option<Seq<char>> {
    if trim(name) != name || name.len() == 0 {
        Some(spaces_message())
    } else if has_prefix(name, "-"@) {
        Some(dash_message(name))
    } else {
        None
    }
}

pub open spec fn opt_seq(o: Option<String>) -> Option<Seq<char>> {
    match o {
        Some(s) => Some(s@),
        None => None,
    }
}

/// Whether the switch is finished with `r`.
pub open spec fn finished_with(ask: Ask, r: Result<bool, Seq<char>>) -> bool {
    match ask {
        Ask::Done(Ok(res)) => r == Ok::<bool, Seq<char>>(res.stashed),
        Ask::Done(Err(e)) => r == Err::<bool, Seq<char>>(e@),
        _ => false,
    }
}

/// Whether `ask` runs a `git stash` command.
pub open spec fn asks_stash(ask: Ask) -> bool {
    ask matches Ask::Run(v) && strs(v@).len() > 0 && strs(v@)[0] == "stash"@
}

pub open spec fn runs(ask: Ask, args: Seq<Seq<char>>) -> bool {
    ask matches Ask::Run(v) && strs(v@) == args
}

/// What a switch keeps true at every step: it stashes only when asked to,
/// and knows it stashed only after a stash that moved `refs/stash`.
pub open spec fn switch_inv(s: SwitchBranch) -> bool {
    &&& !s.stash ==> s.phase != Phase::HeadRead && s.phase != Phase::FromRead && s.phase
        != Phase::Stashed
    &&& s.stashed ==> s.stash
    &&& s.phase == Phase::Restored ==> s.stashed
}

impl SwitchBranch {
    /// A switch to `name`, creating it when `create`, carrying the working
    /// tree's changes across unless `stash` puts them aside first.
    pub fn new(is_dir: bool, name: String, create: bool, stash: bool) -> (s: SwitchBranch)
        ensures
            s.phase == Phase::Begin,
            s.name@ == name@,
            s.create == create,
            s.stash == stash,
            s.is_dir == is_dir,
            !s.stashed,
            switch_inv(s),
    {
        SwitchBranch {
            name,
            create,
            stash,
            is_dir,
            phase: Phase::Begin,
            before: None,
            stashed: false,
            switch_error: String::new(),
        }
    }

    fn finish(&mut self, r: Result<BranchChangeResult, String>) -> (ask: Ask)
        requires
            switch_inv(*old(self)),
        ensures
            final(self).phase == Phase::Finished,
            final(self).name == old(self).name,
            final(self).stash == old(self).stash,
            final(self).stashed == old(self).stashed,
            final(self).create == old(self).create,
            switch_inv(*final(self)),
            ask matches Ask::Done(x) && x == r,
    {
        self.phase = Phase::Finished;
        Ask::Done(r)
    }

    fn err_with(&mut self, prefix: &str, middle: &[char], suffix: &str) -> (ask: Ask)
        requires
            switch_inv(*old(self)),
        ensures
            final(self).phase == Phase::Finished,
            final(self).name == old(self).name,
            final(self).stash == old(self).stash,
            final(self).stashed == old(self).stashed,
            final(self).create == old(self).create,
            switch_inv(*final(self)),
            finished_with(ask, Err(prefix@ + middle@ + suffix@)),
    {
        let mut m: Vec<char> = Vec::new();
        push_str(&mut m, prefix);
        push_chars(&mut m, middle);
        push_str(&mut m, suffix);
        self.finish(Err(string_of(&m)))
    }

    /// Takes git's answer to the last question and says what to ask next.
    pub fn step(&mut self, answer: Answer) -> (ask: Ask)
        requires
            switch_inv(*old(self)),
            fits(old(self).phase, answer),
        ensures
            switch_inv(*final(self)),
            final(self).name == old(self).name,
            final(self).create == old(self).create,
            final(self).stash == old(self).stash,
            ask is Done <==> final(self).phase == Phase::Finished,
            // Before git is asked anything: the folder, then the name itself.
            old(self).phase == Phase::Begin ==> if !old(self).is_dir {
                finished_with(ask, Err("Not a directory"@))
            } else if let Some(p) = name_problem(old(self).name@) {
                finished_with(ask, Err(p))
            } else {
                ask is CheckName
            },
            old(self).phase == Phase::NameChecked ==> (answer matches Answer::Holds(ok) && if !ok {
                finished_with(ask, Err(format_message(old(self).name@)))
            } else if old(self).create {
                ask is BranchExists
            } else {
                ask is CurrentBranch
            }),
            // Already on it: nothing to do.
            old(self).phase == Phase::CurrentRead ==> (answer matches Answer::Name(cur) && if opt_seq(
                cur,
            ) == Some(old(self).name@) {
                finished_with(ask, Ok(false))
            } else {
                ask is BranchExists
            }),
            old(self).phase == Phase::ExistenceRead ==> (answer matches Answer::Holds(exists) && if old(self).create && exists {
                finished_with(ask, Err(exists_message(old(self).name@)))
            } else if !old(self).create && !exists {
                finished_with(ask, Err(gone_message(old(self).name@)))
            } else {
                ask is StashId
            }),
            old(self).phase == Phase::StashBeforeRead ==> (answer matches Answer::Name(b) && opt_seq(
                final(self).before,
            ) == opt_seq(b) && if old(self).stash {
                ask is HeadId
            } else {
                ask is StashId
            }),
            old(self).phase == Phase::HeadRead ==> (answer matches Answer::Name(head) && if head is None {
                finished_with(ask, Err(unborn_message()))
            } else {
                ask is CurrentBranch
            }),
            old(self).phase == Phase::FromRead ==> (answer matches Answer::Name(from) && runs(
                ask,
                stash_args(
                    match from {
                        Some(f) => f@,
                        None => "detached HEAD"@,
                    },
                    old(self).name@,
                ),
            )),
            old(self).phase == Phase::Stashed ==> (answer matches Answer::Ran(r) && match r {
                Err(e) => finished_with(ask, Err(e@)),
                Ok(_) => ask is StashId,
            }),
            // A stash counts as made only when it moved `refs/stash`.
            old(self).phase == Phase::StashAfterRead ==> (answer matches Answer::Name(after) && final(self).stashed == (old(self).stash && after is Some && opt_seq(after) != opt_seq(old(self).before))
                && runs(ask, switch_args(old(self).create, old(self).name@))),
            // A switch that failed after a stash puts the stash back.
            old(self).phase == Phase::Switched ==> (answer matches Answer::Ran(r) && match r {
                Ok(_) => finished_with(ask, Ok(old(self).stashed)),
                Err(e) => if old(self).stashed {
                    runs(ask, pop_args()) && final(self).switch_error@ == e@
                } else {
                    finished_with(ask, Err(e@))
                },
            }),
            old(self).phase == Phase::Restored ==> (answer matches Answer::Ran(r) && match r {
                Ok(_) => finished_with(
                    ask,
                    Err(old(self).switch_error@ + "\nYour local changes were restored."@),
                ),
                Err(re) => finished_with(
                    ask,
                    Err(old(self).switch_error@
                        + "\nThe switch was cancelled, but Git could not restore the stash automatically: "@
                        + re@),
                ),
            }),
            // Stashing is asked for only by a switch told to stash, and a
            // stash is popped only by one that made it.
            asks_stash(ask) ==> old(self).stash,
            runs(ask, pop_args()) ==> old(self).stashed,
    {
        let name = chars_of(self.name.as_str());
        match self.phase {
            Phase::Begin => {
                if !self.is_dir {
                    return self.finish(Err("Not a directory".to_owned()));
                }
                let t = trim_exec(&name);
                if !chars_eq(&t, &name) || name.len() == 0 {
                    return self.finish(Err("Invalid branch name. Remove leading or trailing spaces.".to_owned()));
                }
                if name[0] == '-' {
                    proof {
                        assert(name@.take(1) =~= "-"@) by {
                            reveal_strlit("-");
                        }
                    }
                    return self.err_with("Invalid branch name '", &name, "'. It cannot start with '-'.");
                }
                proof {
                    reveal_strlit("-");
                    if has_prefix(name@, "-"@) {
                        assert(name@.take(1)[0] == '-');
                    }
                }
                self.phase = Phase::NameChecked;
                Ask::CheckName
            },
            Phase::NameChecked => {
                let ok = match answer {
                    Answer::Holds(ok) => ok,
                    _ => false,
                };
                if !ok {
                    return self.err_with(
                        "Invalid branch name '",
                        &name,
                        "'. Use a valid Git branch name without spaces or reserved characters.",
                    );
                }
                if self.create {
                    self.phase = Phase::ExistenceRead;
                    Ask::BranchExists
                } else {
                    self.phase = Phase::CurrentRead;
                    Ask::CurrentBranch
                }
            },
            Phase::CurrentRead => {
                let same = match &answer {
                    Answer::Name(Some(cur)) => chars_eq(&chars_of(cur.as_str()), &name),
                    _ => false,
                };
                if same {
                    return self.finish(Ok(BranchChangeResult { stashed: false }));
                }
                self.phase = Phase::ExistenceRead;
                Ask::BranchExists
            },
            Phase::ExistenceRead => {
                let exists = match answer {
                    Answer::Holds(b) => b,
                    _ => false,
                };
                if self.create && exists {
                    return self.err_with("A branch named '", &name, "' already exists.");
                }
                if !self.create && !exists {
                    return self.err_with("The branch '", &name, "' no longer exists. Refresh the branch list.");
                }
                self.phase = Phase::StashBeforeRead;
                Ask::StashId
            },
            Phase::StashBeforeRead => {
                let before = match answer {
                    Answer::Name(b) => b,
                    _ => None,
                };
                self.before = before;
                if self.stash {
                    self.phase = Phase::HeadRead;
                    Ask::HeadId
                } else {
                    self.phase = Phase::StashAfterRead;
                    Ask::StashId
                }
            },
            Phase::HeadRead => {
                let none = match &answer {
                    Answer::Name(h) => h.is_none(),
                    _ => true,
                };
                if none {
                    return self.finish(
                        Err(
                            "Git cannot stash changes before the first commit. Bring the changes to the new branch or create the initial commit first.".to_owned(),
                        ),
                    );
                }
                self.phase = Phase::FromRead;
                Ask::CurrentBranch
            },
            Phase::FromRead => {
                let from: Vec<char> = match &answer {
                    Answer::Name(Some(f)) => chars_of(f.as_str()),
                    _ => chars_of("detached HEAD"),
                };
                let mut msg: Vec<char> = Vec::new();
                push_str(&mut msg, "boite: changes before switching from ");
                push_chars(&mut msg, &from);
                push_str(&mut msg, " to ");
                push_chars(&mut msg, &name);
                let mut args: Vec<String> = Vec::new();
                args.push("stash".to_owned());
                args.push("push".to_owned());
                args.push("--include-untracked".to_owned());
                args.push("--message".to_owned());
                args.push(string_of(&msg));
                proof {
                    assert(strs(args@) =~= stash_args(from@, name@));
                }
                self.phase = Phase::Stashed;
                Ask::Run(args)
            },
            Phase::Stashed => {
                match answer {
                    Answer::Ran(Err(e)) => self.finish(Err(e)),
                    _ => {
                        self.phase = Phase::StashAfterRead;
                        Ask::StashId
                    },
                }
            },
            Phase::StashAfterRead => {
                let after = match answer {
                    Answer::Name(a) => a,
                    _ => None,
                };
                let moved = match (&after, &self.before) {
                    (Some(a), Some(b)) => !chars_eq(&chars_of(a.as_str()), &chars_of(b.as_str())),
                    (Some(_), None) => true,
                    (None, _) => false,
                };
                self.stashed = self.stash && moved;
                let mut args: Vec<String> = Vec::new();
                args.push("switch".to_owned());
                if self.create {
                    args.push("-c".to_owned());
                }
                args.push(self.name.clone());
                proof {
                    assert(strs(args@) =~= switch_args(self.create, name@));
                    assert("switch"@ != "stash"@) by {
                        reveal_strlit("switch");
                        reveal_strlit("stash");
                        assert("switch"@.len() != "stash"@.len());
                    }
                }
                self.phase = Phase::Switched;
                Ask::Run(args)
            },
            Phase::Switched => {
                match answer {
                    Answer::Ran(Err(e)) => {
                        if self.stashed {
                            self.switch_error = e;
                            let mut args: Vec<String> = Vec::new();
                            args.push("stash".to_owned());
                            args.push("pop".to_owned());
                            args.push("--index".to_owned());
                            proof {
                                assert(strs(args@) =~= pop_args());
                            }
                            self.phase = Phase::Restored;
                            Ask::Run(args)
                        } else {
                            self.finish(Err(e))
                        }
                    },
                    _ => {
                        let stashed = self.stashed;
                        self.finish(Ok(BranchChangeResult { stashed }))
                    },
                }
            },
            Phase::Restored => {
                let err = chars_of(self.switch_error.as_str());
                match answer {
                    Answer::Ran(Err(re)) => {
                        let r = chars_of(re.as_str());
                        let mut m: Vec<char> = Vec::new();
                        push_chars(&mut m, &err);
                        push_str(&mut m, "\nThe switch was cancelled, but Git could not restore the stash automatically: ");
                        push_chars(&mut m, &r);
                        self.finish(Err(string_of(&m)))
                    },
                    _ => {
                        let mut m: Vec<char> = Vec::new();
                        push_chars(&mut m, &err);
                        push_str(&mut m, "\nYour local changes were restored.");
                        self.finish(Err(string_of(&m)))
                    },
                }
            },
            Phase::Finished => {
                self.finish(Err("the switch is already over".to_owned()))
            },
        }
    }
}

/// The switch the host runs for a branch change: see [`SwitchBranch::step`].
pub fn switch_branch_blocking(is_dir: bool, name: String, create: bool, stash: bool) -> (s: SwitchBranch)
    ensures
        s.phase == Phase::Begin,
        s.name@ == name@,
        s.create == create,
        s.stash == stash,
        s.is_dir == is_dir,
        switch_inv(s),
{
    SwitchBranch::new(is_dir, name, create, stash)
}

} // verus!

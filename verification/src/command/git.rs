//! The git and worktree surface, as commands.
//!
//! Twenty-nine capabilities, one list. What a front door does with one is
//! decode it from a method name and parameters, ask what it needs and how its
//! answer is dressed, and take the paths it must check against the registered
//! roots.

use vstd::prelude::*;

use crate::command::params::{
    bool_member, bool_param, list_member, missing, opt_str_param, opt_text, str_list, str_member, str_param,
    member, u32_member, u32_param, Param, Params,
};
use crate::command::table::all_methods;
use crate::command::{capability_in, lemma_capability_by_name, Capability, Wire, WireShape};
use crate::text::{chars_of, push_str, string_of, strs, text_is};

verus! {

/// One git or worktree command, carrying its arguments.
#[derive(Debug, Clone)]
pub enum Git {
    RepoInfo {
        path: String,
    },
    FindRepos {
        path: String,
    },
    Branches {
        path: String,
    },
    SwitchBranch {
        path: String,
        name: String,
        create: bool,
        stash: bool,
    },
    Status {
        path: String,
    },
    ChangedPaths {
        path: String,
    },
    Log {
        path: String,
        limit: u32,
        skip: u32,
    },
    /// What the repository says about a commit an agent claimed. A sha is not a
    /// path, but the repository it is read in is.
    CommitState {
        path: String,
        sha: String,
    },
    /// What `gh` says about a branch: a pull request, none, nothing it can
    /// answer, or a refusal worth passing on.
    PullRequest {
        path: String,
        branch: String,
    },
    Stage {
        path: String,
        files: Vec<String>,
    },
    Unstage {
        path: String,
        files: Vec<String>,
    },
    Discard {
        path: String,
        files: Vec<String>,
        untracked: Vec<String>,
    },
    Commit {
        path: String,
        message: String,
    },
    Fetch {
        path: String,
    },
    Push {
        path: String,
    },
    Pull {
        path: String,
    },
    Init {
        path: String,
    },
    FileVersions {
        path: String,
        file: String,
        head_file: Option<String>,
    },
    /// Opens a detached worktree for a thread, or answers that this repository
    /// is not one to open a worktree in. The base is derived from the
    /// repository, never taken from the caller.
    WorktreeOpen {
        repo: String,
        thread_id: String,
    },
    /// Makes sure a project has a worktree standing by. Fire and forget.
    WorktreeWarm {
        repo: String,
    },
    /// Moves a worktree left over from the old layout into its project.
    WorktreeMigrate {
        repo: String,
        thread_id: String,
        from: String,
    },
    /// Hands back the worktree a thread already owns but has no path to.
    WorktreeAdopt {
        repo: String,
        thread_id: String,
    },
    /// Whether an arbitrary path is a worktree of this repository.
    WorktreeRecognize {
        repo: String,
        path: String,
    },
    /// Every worktree of a repository, read from the repository itself.
    WorktreeList {
        repo: String,
    },
    WorktreeClaim {
        path: String,
        name: String,
    },
    WorktreeReserve {
        path: String,
        name: String,
    },
    WorktreeHold {
        path: String,
    },
    WorktreeRemove {
        repo: String,
        path: String,
        force: bool,
    },
    /// What these worktrees take on disk.
    WorktreeSizes {
        paths: Vec<String>,
    },
}

/// The wire name of a command.
pub open spec fn git_name(g: Git) -> Seq<char> {
    match g {
        Git::RepoInfo { .. } => "git.repoInfo"@,
        Git::FindRepos { .. } => "git.findRepos"@,
        Git::Branches { .. } => "git.branches"@,
        Git::SwitchBranch { .. } => "git.switchBranch"@,
        Git::Status { .. } => "git.status"@,
        Git::ChangedPaths { .. } => "git.changedPaths"@,
        Git::Log { .. } => "git.log"@,
        Git::CommitState { .. } => "git.commitState"@,
        Git::PullRequest { .. } => "git.pullRequest"@,
        Git::Stage { .. } => "git.stage"@,
        Git::Unstage { .. } => "git.unstage"@,
        Git::Discard { .. } => "git.discard"@,
        Git::Commit { .. } => "git.commit"@,
        Git::Fetch { .. } => "git.fetch"@,
        Git::Push { .. } => "git.push"@,
        Git::Pull { .. } => "git.pull"@,
        Git::Init { .. } => "git.init"@,
        Git::FileVersions { .. } => "git.fileVersions"@,
        Git::WorktreeOpen { .. } => "worktree.open"@,
        Git::WorktreeWarm { .. } => "worktree.warm"@,
        Git::WorktreeMigrate { .. } => "worktree.migrate"@,
        Git::WorktreeAdopt { .. } => "worktree.adopt"@,
        Git::WorktreeRecognize { .. } => "worktree.recognize"@,
        Git::WorktreeList { .. } => "worktree.list"@,
        Git::WorktreeClaim { .. } => "worktree.claim"@,
        Git::WorktreeReserve { .. } => "worktree.reserve"@,
        Git::WorktreeHold { .. } => "worktree.hold"@,
        Git::WorktreeRemove { .. } => "worktree.remove"@,
        Git::WorktreeSizes { .. } => "worktree.sizes"@,
    }
}

/// How the protocol dresses a command's answer.
pub open spec fn git_wire(g: Git) -> WireShape {
    match g {
        Git::RepoInfo { .. } => WireShape::Bare,
        Git::FindRepos { .. } => WireShape::Key("repos"@),
        Git::Branches { .. } => WireShape::Key("branches"@),
        Git::SwitchBranch { .. } => WireShape::Bare,
        Git::Status { .. } => WireShape::Key("entries"@),
        Git::ChangedPaths { .. } => WireShape::Key("paths"@),
        Git::Log { .. } => WireShape::Key("commits"@),
        Git::CommitState { .. } => WireShape::Key("state"@),
        Git::PullRequest { .. } => WireShape::Key("lookup"@),
        Git::Stage { .. } => WireShape::Ack,
        Git::Unstage { .. } => WireShape::Ack,
        Git::Discard { .. } => WireShape::Ack,
        Git::Commit { .. } => WireShape::Key("sha"@),
        Git::Fetch { .. } => WireShape::Ack,
        Git::Push { .. } => WireShape::Ack,
        Git::Pull { .. } => WireShape::Ack,
        Git::Init { .. } => WireShape::Ack,
        Git::FileVersions { .. } => WireShape::Bare,
        Git::WorktreeOpen { .. } => WireShape::Bare,
        Git::WorktreeWarm { .. } => WireShape::Ack,
        Git::WorktreeMigrate { .. } => WireShape::Bare,
        Git::WorktreeAdopt { .. } => WireShape::Key("path"@),
        Git::WorktreeRecognize { .. } => WireShape::Key("path"@),
        Git::WorktreeList { .. } => WireShape::Key("worktrees"@),
        Git::WorktreeClaim { .. } => WireShape::Ack,
        Git::WorktreeReserve { .. } => WireShape::Ack,
        Git::WorktreeHold { .. } => WireShape::Bare,
        Git::WorktreeRemove { .. } => WireShape::Ack,
        Git::WorktreeSizes { .. } => WireShape::Key("sizes"@),
    }
}

/// What a caller must hold to ask for a command. Every one of these stays
/// inside the repository it names.
pub open spec fn git_capability(g: Git) -> Capability {
    match g {
        Git::RepoInfo { .. } => Capability::ReadProject,
        Git::FindRepos { .. } => Capability::ReadProject,
        Git::Branches { .. } => Capability::ReadProject,
        Git::SwitchBranch { .. } => Capability::MutateProject,
        Git::Status { .. } => Capability::ReadProject,
        Git::ChangedPaths { .. } => Capability::ReadProject,
        Git::Log { .. } => Capability::ReadProject,
        Git::CommitState { .. } => Capability::ReadProject,
        Git::PullRequest { .. } => Capability::ReadProject,
        Git::Stage { .. } => Capability::MutateProject,
        Git::Unstage { .. } => Capability::MutateProject,
        Git::Discard { .. } => Capability::MutateProject,
        Git::Commit { .. } => Capability::MutateProject,
        Git::Fetch { .. } => Capability::MutateProject,
        Git::Push { .. } => Capability::MutateProject,
        Git::Pull { .. } => Capability::MutateProject,
        Git::Init { .. } => Capability::MutateProject,
        Git::FileVersions { .. } => Capability::ReadProject,
        Git::WorktreeOpen { .. } => Capability::MutateProject,
        Git::WorktreeWarm { .. } => Capability::MutateProject,
        Git::WorktreeMigrate { .. } => Capability::MutateProject,
        Git::WorktreeAdopt { .. } => Capability::MutateProject,
        Git::WorktreeRecognize { .. } => Capability::MutateProject,
        Git::WorktreeList { .. } => Capability::ReadProject,
        Git::WorktreeClaim { .. } => Capability::MutateProject,
        Git::WorktreeReserve { .. } => Capability::MutateProject,
        Git::WorktreeHold { .. } => Capability::ReadProject,
        Git::WorktreeRemove { .. } => Capability::MutateProject,
        Git::WorktreeSizes { .. } => Capability::ReadProject,
    }
}

/// Every path a command took from its caller: the whole trust boundary of
/// the domain. A path a command derives instead contributes nothing.
pub open spec fn git_caller_paths(g: Git) -> Seq<Seq<char>> {
    match g {
        Git::RepoInfo { path } => seq![path@],
        Git::FindRepos { path } => seq![path@],
        Git::Branches { path } => seq![path@],
        Git::SwitchBranch { path, .. } => seq![path@],
        Git::Status { path } => seq![path@],
        Git::ChangedPaths { path } => seq![path@],
        Git::Log { path, .. } => seq![path@],
        Git::CommitState { path, .. } => seq![path@],
        Git::PullRequest { path, .. } => seq![path@],
        Git::Stage { path, .. } => seq![path@],
        Git::Unstage { path, .. } => seq![path@],
        Git::Discard { path, .. } => seq![path@],
        Git::Commit { path, .. } => seq![path@],
        Git::Fetch { path } => seq![path@],
        Git::Push { path } => seq![path@],
        Git::Pull { path } => seq![path@],
        Git::Init { path } => seq![path@],
        Git::FileVersions { path, .. } => seq![path@],
        Git::WorktreeOpen { repo, .. } => seq![repo@],
        Git::WorktreeWarm { repo } => seq![repo@],
        Git::WorktreeMigrate { repo, .. } => seq![repo@],
        Git::WorktreeAdopt { repo, .. } => seq![repo@],
        Git::WorktreeRecognize { repo, path } => seq![repo@, path@],
        Git::WorktreeList { repo } => seq![repo@],
        Git::WorktreeClaim { path, .. } => seq![path@],
        Git::WorktreeReserve { path, .. } => seq![path@],
        Git::WorktreeHold { path } => seq![path@],
        Git::WorktreeRemove { repo, path, .. } => seq![repo@, path@],
        Git::WorktreeSizes { paths } => strs(paths@),
    }
}

/// Whether `g` is what method `m` with parameters `p` decodes into: the
/// method's own variant, each argument read from the member of its name.
pub open spec fn git_decoded(m: Seq<char>, p: Params, g: Git) -> bool {
    match g {
        Git::RepoInfo { path } => {
            &&& m == "git.repoInfo"@
            &&& str_member(p, "path"@) == Some(path@)
        },
        Git::FindRepos { path } => {
            &&& m == "git.findRepos"@
            &&& str_member(p, "path"@) == Some(path@)
        },
        Git::Branches { path } => {
            &&& m == "git.branches"@
            &&& str_member(p, "path"@) == Some(path@)
        },
        Git::SwitchBranch { path, name, create, stash } => {
            &&& m == "git.switchBranch"@
            &&& str_member(p, "path"@) == Some(path@)
            &&& str_member(p, "name"@) == Some(name@)
            &&& create == bool_member(p, "create"@, false)
            &&& stash == bool_member(p, "stash"@, false)
        },
        Git::Status { path } => {
            &&& m == "git.status"@
            &&& str_member(p, "path"@) == Some(path@)
        },
        Git::ChangedPaths { path } => {
            &&& m == "git.changedPaths"@
            &&& str_member(p, "path"@) == Some(path@)
        },
        Git::Log { path, limit, skip } => {
            &&& m == "git.log"@
            &&& str_member(p, "path"@) == Some(path@)
            &&& limit == u32_member(p, "limit"@, 100)
            &&& skip == u32_member(p, "skip"@, 0)
        },
        Git::CommitState { path, sha } => {
            &&& m == "git.commitState"@
            &&& str_member(p, "path"@) == Some(path@)
            &&& str_member(p, "sha"@) == Some(sha@)
        },
        Git::PullRequest { path, branch } => {
            &&& m == "git.pullRequest"@
            &&& str_member(p, "path"@) == Some(path@)
            &&& str_member(p, "branch"@) == Some(branch@)
        },
        Git::Stage { path, files } => {
            &&& m == "git.stage"@
            &&& str_member(p, "path"@) == Some(path@)
            &&& strs(files@) == list_member(p, "files"@)
        },
        Git::Unstage { path, files } => {
            &&& m == "git.unstage"@
            &&& str_member(p, "path"@) == Some(path@)
            &&& strs(files@) == list_member(p, "files"@)
        },
        Git::Discard { path, files, untracked } => {
            &&& m == "git.discard"@
            &&& str_member(p, "path"@) == Some(path@)
            &&& strs(files@) == list_member(p, "files"@)
            &&& strs(untracked@) == list_member(p, "untracked"@)
        },
        Git::Commit { path, message } => {
            &&& m == "git.commit"@
            &&& str_member(p, "path"@) == Some(path@)
            &&& str_member(p, "message"@) == Some(message@)
        },
        Git::Fetch { path } => {
            &&& m == "git.fetch"@
            &&& str_member(p, "path"@) == Some(path@)
        },
        Git::Push { path } => {
            &&& m == "git.push"@
            &&& str_member(p, "path"@) == Some(path@)
        },
        Git::Pull { path } => {
            &&& m == "git.pull"@
            &&& str_member(p, "path"@) == Some(path@)
        },
        Git::Init { path } => {
            &&& m == "git.init"@
            &&& str_member(p, "path"@) == Some(path@)
        },
        Git::FileVersions { path, file, head_file } => {
            &&& m == "git.fileVersions"@
            &&& str_member(p, "path"@) == Some(path@)
            &&& str_member(p, "file"@) == Some(file@)
            &&& str_member(p, "headFile"@) == opt_text(head_file)
        },
        Git::WorktreeOpen { repo, thread_id } => {
            &&& m == "worktree.open"@
            &&& str_member(p, "repo"@) == Some(repo@)
            &&& str_member(p, "threadId"@) == Some(thread_id@)
        },
        Git::WorktreeWarm { repo } => {
            &&& m == "worktree.warm"@
            &&& str_member(p, "repo"@) == Some(repo@)
        },
        Git::WorktreeMigrate { repo, thread_id, from } => {
            &&& m == "worktree.migrate"@
            &&& str_member(p, "repo"@) == Some(repo@)
            &&& str_member(p, "threadId"@) == Some(thread_id@)
            &&& str_member(p, "from"@) == Some(from@)
        },
        Git::WorktreeAdopt { repo, thread_id } => {
            &&& m == "worktree.adopt"@
            &&& str_member(p, "repo"@) == Some(repo@)
            &&& str_member(p, "threadId"@) == Some(thread_id@)
        },
        Git::WorktreeRecognize { repo, path } => {
            &&& m == "worktree.recognize"@
            &&& str_member(p, "repo"@) == Some(repo@)
            &&& str_member(p, "path"@) == Some(path@)
        },
        Git::WorktreeList { repo } => {
            &&& m == "worktree.list"@
            &&& str_member(p, "repo"@) == Some(repo@)
        },
        Git::WorktreeClaim { path, name } => {
            &&& m == "worktree.claim"@
            &&& str_member(p, "path"@) == Some(path@)
            &&& str_member(p, "name"@) == Some(name@)
        },
        Git::WorktreeReserve { path, name } => {
            &&& m == "worktree.reserve"@
            &&& str_member(p, "path"@) == Some(path@)
            &&& str_member(p, "name"@) == Some(name@)
        },
        Git::WorktreeHold { path } => {
            &&& m == "worktree.hold"@
            &&& str_member(p, "path"@) == Some(path@)
        },
        Git::WorktreeRemove { repo, path, force } => {
            &&& m == "worktree.remove"@
            &&& str_member(p, "repo"@) == Some(repo@)
            &&& str_member(p, "path"@) == Some(path@)
            &&& force == bool_member(p, "force"@, false)
        },
        Git::WorktreeSizes { paths } => {
            &&& m == "worktree.sizes"@
            &&& strs(paths@) == list_member(p, "paths"@)
        },
    }
}

/// Why method `m` with parameters `p` does not decode: the first required
/// member that is missing, or a method this domain does not serve.
pub open spec fn git_decode_error(m: Seq<char>, p: Params) -> Option<Seq<char>> {
    if m == "git.repoInfo"@ {
        if str_member(p, "path"@) is None {
            Some(missing("path"@))
        } else {
            None
        }
    } else if m == "git.findRepos"@ {
        if str_member(p, "path"@) is None {
            Some(missing("path"@))
        } else {
            None
        }
    } else if m == "git.branches"@ {
        if str_member(p, "path"@) is None {
            Some(missing("path"@))
        } else {
            None
        }
    } else if m == "git.switchBranch"@ {
        if str_member(p, "path"@) is None {
            Some(missing("path"@))
        } else if str_member(p, "name"@) is None {
            Some(missing("name"@))
        } else {
            None
        }
    } else if m == "git.status"@ {
        if str_member(p, "path"@) is None {
            Some(missing("path"@))
        } else {
            None
        }
    } else if m == "git.changedPaths"@ {
        if str_member(p, "path"@) is None {
            Some(missing("path"@))
        } else {
            None
        }
    } else if m == "git.log"@ {
        if str_member(p, "path"@) is None {
            Some(missing("path"@))
        } else {
            None
        }
    } else if m == "git.commitState"@ {
        if str_member(p, "path"@) is None {
            Some(missing("path"@))
        } else if str_member(p, "sha"@) is None {
            Some(missing("sha"@))
        } else {
            None
        }
    } else if m == "git.pullRequest"@ {
        if str_member(p, "path"@) is None {
            Some(missing("path"@))
        } else if str_member(p, "branch"@) is None {
            Some(missing("branch"@))
        } else {
            None
        }
    } else if m == "git.stage"@ {
        if str_member(p, "path"@) is None {
            Some(missing("path"@))
        } else {
            None
        }
    } else if m == "git.unstage"@ {
        if str_member(p, "path"@) is None {
            Some(missing("path"@))
        } else {
            None
        }
    } else if m == "git.discard"@ {
        if str_member(p, "path"@) is None {
            Some(missing("path"@))
        } else {
            None
        }
    } else if m == "git.commit"@ {
        if str_member(p, "path"@) is None {
            Some(missing("path"@))
        } else if str_member(p, "message"@) is None {
            Some(missing("message"@))
        } else {
            None
        }
    } else if m == "git.fetch"@ {
        if str_member(p, "path"@) is None {
            Some(missing("path"@))
        } else {
            None
        }
    } else if m == "git.push"@ {
        if str_member(p, "path"@) is None {
            Some(missing("path"@))
        } else {
            None
        }
    } else if m == "git.pull"@ {
        if str_member(p, "path"@) is None {
            Some(missing("path"@))
        } else {
            None
        }
    } else if m == "git.init"@ {
        if str_member(p, "path"@) is None {
            Some(missing("path"@))
        } else {
            None
        }
    } else if m == "git.fileVersions"@ {
        if str_member(p, "path"@) is None {
            Some(missing("path"@))
        } else if str_member(p, "file"@) is None {
            Some(missing("file"@))
        } else {
            None
        }
    } else if m == "worktree.open"@ {
        if str_member(p, "repo"@) is None {
            Some(missing("repo"@))
        } else if str_member(p, "threadId"@) is None {
            Some(missing("threadId"@))
        } else {
            None
        }
    } else if m == "worktree.warm"@ {
        if str_member(p, "repo"@) is None {
            Some(missing("repo"@))
        } else {
            None
        }
    } else if m == "worktree.migrate"@ {
        if str_member(p, "repo"@) is None {
            Some(missing("repo"@))
        } else if str_member(p, "threadId"@) is None {
            Some(missing("threadId"@))
        } else if str_member(p, "from"@) is None {
            Some(missing("from"@))
        } else {
            None
        }
    } else if m == "worktree.adopt"@ {
        if str_member(p, "repo"@) is None {
            Some(missing("repo"@))
        } else if str_member(p, "threadId"@) is None {
            Some(missing("threadId"@))
        } else {
            None
        }
    } else if m == "worktree.recognize"@ {
        if str_member(p, "repo"@) is None {
            Some(missing("repo"@))
        } else if str_member(p, "path"@) is None {
            Some(missing("path"@))
        } else {
            None
        }
    } else if m == "worktree.list"@ {
        if str_member(p, "repo"@) is None {
            Some(missing("repo"@))
        } else {
            None
        }
    } else if m == "worktree.claim"@ {
        if str_member(p, "path"@) is None {
            Some(missing("path"@))
        } else if str_member(p, "name"@) is None {
            Some(missing("name"@))
        } else {
            None
        }
    } else if m == "worktree.reserve"@ {
        if str_member(p, "path"@) is None {
            Some(missing("path"@))
        } else if str_member(p, "name"@) is None {
            Some(missing("name"@))
        } else {
            None
        }
    } else if m == "worktree.hold"@ {
        if str_member(p, "path"@) is None {
            Some(missing("path"@))
        } else {
            None
        }
    } else if m == "worktree.remove"@ {
        if str_member(p, "repo"@) is None {
            Some(missing("repo"@))
        } else if str_member(p, "path"@) is None {
            Some(missing("path"@))
        } else {
            None
        }
    } else if m == "worktree.sizes"@ {
        None
    } else {
        Some("unknown method: "@ + m)
    }
}

impl Git {
    /// Reads a method name and its parameters into a command. The refusal
    /// names the first missing parameter, or the method nobody serves.
    pub fn decode(method: &str, params: &Params) -> (r: Result<Git, String>)
        ensures
            match r {
                Ok(g) => git_decode_error(method@, *params) is None && git_decoded(method@, *params, g)
                    && git_name(g) == method@,
                Err(e) => git_decode_error(method@, *params) == Some(e@),
            },
            // A branch switch reads its two flags from their own keys, each
            // false unless the call sets it to a boolean.
            r matches Ok(Git::SwitchBranch { create, stash, .. }) ==> {
                &&& method@ == "git.switchBranch"@
                &&& create == (match member(params.fields@, "create"@) {
                    Some(Param::Bool(b)) => b,
                    _ => false,
                })
                &&& stash == (match member(params.fields@, "stash"@) {
                    Some(Param::Bool(b)) => b,
                    _ => false,
                })
            },
    {
        let m = chars_of(method);
        if text_is(&m, "git.repoInfo") {
            let path = match str_param(params, "path") {
                Ok(v) => v,
                Err(e) => return Err(e),
            };
            return Ok(Git::RepoInfo { path });
        }
        if text_is(&m, "git.findRepos") {
            let path = match str_param(params, "path") {
                Ok(v) => v,
                Err(e) => return Err(e),
            };
            return Ok(Git::FindRepos { path });
        }
        if text_is(&m, "git.branches") {
            let path = match str_param(params, "path") {
                Ok(v) => v,
                Err(e) => return Err(e),
            };
            return Ok(Git::Branches { path });
        }
        if text_is(&m, "git.switchBranch") {
            let path = match str_param(params, "path") {
                Ok(v) => v,
                Err(e) => return Err(e),
            };
            let name = match str_param(params, "name") {
                Ok(v) => v,
                Err(e) => return Err(e),
            };
            let create = bool_param(params, "create", false);
            let stash = bool_param(params, "stash", false);
            return Ok(Git::SwitchBranch { path, name, create, stash });
        }
        if text_is(&m, "git.status") {
            let path = match str_param(params, "path") {
                Ok(v) => v,
                Err(e) => return Err(e),
            };
            return Ok(Git::Status { path });
        }
        if text_is(&m, "git.changedPaths") {
            let path = match str_param(params, "path") {
                Ok(v) => v,
                Err(e) => return Err(e),
            };
            return Ok(Git::ChangedPaths { path });
        }
        if text_is(&m, "git.log") {
            let path = match str_param(params, "path") {
                Ok(v) => v,
                Err(e) => return Err(e),
            };
            let limit = u32_param(params, "limit", 100);
            let skip = u32_param(params, "skip", 0);
            return Ok(Git::Log { path, limit, skip });
        }
        if text_is(&m, "git.commitState") {
            let path = match str_param(params, "path") {
                Ok(v) => v,
                Err(e) => return Err(e),
            };
            let sha = match str_param(params, "sha") {
                Ok(v) => v,
                Err(e) => return Err(e),
            };
            return Ok(Git::CommitState { path, sha });
        }
        if text_is(&m, "git.pullRequest") {
            let path = match str_param(params, "path") {
                Ok(v) => v,
                Err(e) => return Err(e),
            };
            let branch = match str_param(params, "branch") {
                Ok(v) => v,
                Err(e) => return Err(e),
            };
            return Ok(Git::PullRequest { path, branch });
        }
        if text_is(&m, "git.stage") {
            let path = match str_param(params, "path") {
                Ok(v) => v,
                Err(e) => return Err(e),
            };
            let files = str_list(params, "files");
            return Ok(Git::Stage { path, files });
        }
        if text_is(&m, "git.unstage") {
            let path = match str_param(params, "path") {
                Ok(v) => v,
                Err(e) => return Err(e),
            };
            let files = str_list(params, "files");
            return Ok(Git::Unstage { path, files });
        }
        if text_is(&m, "git.discard") {
            let path = match str_param(params, "path") {
                Ok(v) => v,
                Err(e) => return Err(e),
            };
            let files = str_list(params, "files");
            let untracked = str_list(params, "untracked");
            return Ok(Git::Discard { path, files, untracked });
        }
        if text_is(&m, "git.commit") {
            let path = match str_param(params, "path") {
                Ok(v) => v,
                Err(e) => return Err(e),
            };
            let message = match str_param(params, "message") {
                Ok(v) => v,
                Err(e) => return Err(e),
            };
            return Ok(Git::Commit { path, message });
        }
        if text_is(&m, "git.fetch") {
            let path = match str_param(params, "path") {
                Ok(v) => v,
                Err(e) => return Err(e),
            };
            return Ok(Git::Fetch { path });
        }
        if text_is(&m, "git.push") {
            let path = match str_param(params, "path") {
                Ok(v) => v,
                Err(e) => return Err(e),
            };
            return Ok(Git::Push { path });
        }
        if text_is(&m, "git.pull") {
            let path = match str_param(params, "path") {
                Ok(v) => v,
                Err(e) => return Err(e),
            };
            return Ok(Git::Pull { path });
        }
        if text_is(&m, "git.init") {
            let path = match str_param(params, "path") {
                Ok(v) => v,
                Err(e) => return Err(e),
            };
            return Ok(Git::Init { path });
        }
        if text_is(&m, "git.fileVersions") {
            let path = match str_param(params, "path") {
                Ok(v) => v,
                Err(e) => return Err(e),
            };
            let file = match str_param(params, "file") {
                Ok(v) => v,
                Err(e) => return Err(e),
            };
            let head_file = opt_str_param(params, "headFile");
            return Ok(Git::FileVersions { path, file, head_file });
        }
        if text_is(&m, "worktree.open") {
            let repo = match str_param(params, "repo") {
                Ok(v) => v,
                Err(e) => return Err(e),
            };
            let thread_id = match str_param(params, "threadId") {
                Ok(v) => v,
                Err(e) => return Err(e),
            };
            return Ok(Git::WorktreeOpen { repo, thread_id });
        }
        if text_is(&m, "worktree.warm") {
            let repo = match str_param(params, "repo") {
                Ok(v) => v,
                Err(e) => return Err(e),
            };
            return Ok(Git::WorktreeWarm { repo });
        }
        if text_is(&m, "worktree.migrate") {
            let repo = match str_param(params, "repo") {
                Ok(v) => v,
                Err(e) => return Err(e),
            };
            let thread_id = match str_param(params, "threadId") {
                Ok(v) => v,
                Err(e) => return Err(e),
            };
            let from = match str_param(params, "from") {
                Ok(v) => v,
                Err(e) => return Err(e),
            };
            return Ok(Git::WorktreeMigrate { repo, thread_id, from });
        }
        if text_is(&m, "worktree.adopt") {
            let repo = match str_param(params, "repo") {
                Ok(v) => v,
                Err(e) => return Err(e),
            };
            let thread_id = match str_param(params, "threadId") {
                Ok(v) => v,
                Err(e) => return Err(e),
            };
            return Ok(Git::WorktreeAdopt { repo, thread_id });
        }
        if text_is(&m, "worktree.recognize") {
            let repo = match str_param(params, "repo") {
                Ok(v) => v,
                Err(e) => return Err(e),
            };
            let path = match str_param(params, "path") {
                Ok(v) => v,
                Err(e) => return Err(e),
            };
            return Ok(Git::WorktreeRecognize { repo, path });
        }
        if text_is(&m, "worktree.list") {
            let repo = match str_param(params, "repo") {
                Ok(v) => v,
                Err(e) => return Err(e),
            };
            return Ok(Git::WorktreeList { repo });
        }
        if text_is(&m, "worktree.claim") {
            let path = match str_param(params, "path") {
                Ok(v) => v,
                Err(e) => return Err(e),
            };
            let name = match str_param(params, "name") {
                Ok(v) => v,
                Err(e) => return Err(e),
            };
            return Ok(Git::WorktreeClaim { path, name });
        }
        if text_is(&m, "worktree.reserve") {
            let path = match str_param(params, "path") {
                Ok(v) => v,
                Err(e) => return Err(e),
            };
            let name = match str_param(params, "name") {
                Ok(v) => v,
                Err(e) => return Err(e),
            };
            return Ok(Git::WorktreeReserve { path, name });
        }
        if text_is(&m, "worktree.hold") {
            let path = match str_param(params, "path") {
                Ok(v) => v,
                Err(e) => return Err(e),
            };
            return Ok(Git::WorktreeHold { path });
        }
        if text_is(&m, "worktree.remove") {
            let repo = match str_param(params, "repo") {
                Ok(v) => v,
                Err(e) => return Err(e),
            };
            let path = match str_param(params, "path") {
                Ok(v) => v,
                Err(e) => return Err(e),
            };
            let force = bool_param(params, "force", false);
            return Ok(Git::WorktreeRemove { repo, path, force });
        }
        if text_is(&m, "worktree.sizes") {
            let paths = str_list(params, "paths");
            return Ok(Git::WorktreeSizes { paths });
        }
        let mut msg: Vec<char> = Vec::new();
        push_str(&mut msg, "unknown method: ");
        push_str(&mut msg, method);
        Err(string_of(&msg))
    }

    /// The wire name this command answers to.
    pub fn name(&self) -> (r: &'static str)
        ensures
            r@ == git_name(*self),
    {
        match self {
            Git::RepoInfo { .. } => "git.repoInfo",
            Git::FindRepos { .. } => "git.findRepos",
            Git::Branches { .. } => "git.branches",
            Git::SwitchBranch { .. } => "git.switchBranch",
            Git::Status { .. } => "git.status",
            Git::ChangedPaths { .. } => "git.changedPaths",
            Git::Log { .. } => "git.log",
            Git::CommitState { .. } => "git.commitState",
            Git::PullRequest { .. } => "git.pullRequest",
            Git::Stage { .. } => "git.stage",
            Git::Unstage { .. } => "git.unstage",
            Git::Discard { .. } => "git.discard",
            Git::Commit { .. } => "git.commit",
            Git::Fetch { .. } => "git.fetch",
            Git::Push { .. } => "git.push",
            Git::Pull { .. } => "git.pull",
            Git::Init { .. } => "git.init",
            Git::FileVersions { .. } => "git.fileVersions",
            Git::WorktreeOpen { .. } => "worktree.open",
            Git::WorktreeWarm { .. } => "worktree.warm",
            Git::WorktreeMigrate { .. } => "worktree.migrate",
            Git::WorktreeAdopt { .. } => "worktree.adopt",
            Git::WorktreeRecognize { .. } => "worktree.recognize",
            Git::WorktreeList { .. } => "worktree.list",
            Git::WorktreeClaim { .. } => "worktree.claim",
            Git::WorktreeReserve { .. } => "worktree.reserve",
            Git::WorktreeHold { .. } => "worktree.hold",
            Git::WorktreeRemove { .. } => "worktree.remove",
            Git::WorktreeSizes { .. } => "worktree.sizes",
        }
    }

    /// How the WebSocket protocol wraps this command's answer.
    pub fn wire(&self) -> (r: Wire)
        ensures
            crate::command::wire_shape(r) == git_wire(*self),
    {
        match self {
            Git::RepoInfo { .. } => Wire::Bare,
            Git::FindRepos { .. } => Wire::Key("repos"),
            Git::Branches { .. } => Wire::Key("branches"),
            Git::SwitchBranch { .. } => Wire::Bare,
            Git::Status { .. } => Wire::Key("entries"),
            Git::ChangedPaths { .. } => Wire::Key("paths"),
            Git::Log { .. } => Wire::Key("commits"),
            Git::CommitState { .. } => Wire::Key("state"),
            Git::PullRequest { .. } => Wire::Key("lookup"),
            Git::Stage { .. } => Wire::Ack,
            Git::Unstage { .. } => Wire::Ack,
            Git::Discard { .. } => Wire::Ack,
            Git::Commit { .. } => Wire::Key("sha"),
            Git::Fetch { .. } => Wire::Ack,
            Git::Push { .. } => Wire::Ack,
            Git::Pull { .. } => Wire::Ack,
            Git::Init { .. } => Wire::Ack,
            Git::FileVersions { .. } => Wire::Bare,
            Git::WorktreeOpen { .. } => Wire::Bare,
            Git::WorktreeWarm { .. } => Wire::Ack,
            Git::WorktreeMigrate { .. } => Wire::Bare,
            Git::WorktreeAdopt { .. } => Wire::Key("path"),
            Git::WorktreeRecognize { .. } => Wire::Key("path"),
            Git::WorktreeList { .. } => Wire::Key("worktrees"),
            Git::WorktreeClaim { .. } => Wire::Ack,
            Git::WorktreeReserve { .. } => Wire::Ack,
            Git::WorktreeHold { .. } => Wire::Bare,
            Git::WorktreeRemove { .. } => Wire::Ack,
            Git::WorktreeSizes { .. } => Wire::Key("sizes"),
        }
    }

    /// What a caller needs to hold to ask for this.
    pub fn capability(&self) -> (r: Capability)
        ensures
            r == git_capability(*self),
    {
        match self {
            Git::RepoInfo { .. } => Capability::ReadProject,
            Git::FindRepos { .. } => Capability::ReadProject,
            Git::Branches { .. } => Capability::ReadProject,
            Git::SwitchBranch { .. } => Capability::MutateProject,
            Git::Status { .. } => Capability::ReadProject,
            Git::ChangedPaths { .. } => Capability::ReadProject,
            Git::Log { .. } => Capability::ReadProject,
            Git::CommitState { .. } => Capability::ReadProject,
            Git::PullRequest { .. } => Capability::ReadProject,
            Git::Stage { .. } => Capability::MutateProject,
            Git::Unstage { .. } => Capability::MutateProject,
            Git::Discard { .. } => Capability::MutateProject,
            Git::Commit { .. } => Capability::MutateProject,
            Git::Fetch { .. } => Capability::MutateProject,
            Git::Push { .. } => Capability::MutateProject,
            Git::Pull { .. } => Capability::MutateProject,
            Git::Init { .. } => Capability::MutateProject,
            Git::FileVersions { .. } => Capability::ReadProject,
            Git::WorktreeOpen { .. } => Capability::MutateProject,
            Git::WorktreeWarm { .. } => Capability::MutateProject,
            Git::WorktreeMigrate { .. } => Capability::MutateProject,
            Git::WorktreeAdopt { .. } => Capability::MutateProject,
            Git::WorktreeRecognize { .. } => Capability::MutateProject,
            Git::WorktreeList { .. } => Capability::ReadProject,
            Git::WorktreeClaim { .. } => Capability::MutateProject,
            Git::WorktreeReserve { .. } => Capability::MutateProject,
            Git::WorktreeHold { .. } => Capability::ReadProject,
            Git::WorktreeRemove { .. } => Capability::MutateProject,
            Git::WorktreeSizes { .. } => Capability::ReadProject,
        }
    }

    /// Every path this command took from its caller.
    pub fn caller_paths(&self) -> (r: Vec<String>)
        ensures
            strs(r@) == git_caller_paths(*self),
    {
        let mut r: Vec<String> = Vec::new();
        match self {
            Git::RepoInfo { path } => {
                r.push(path.clone());
                assert(strs(r@) =~= seq![path@]);
            },
            Git::FindRepos { path } => {
                r.push(path.clone());
                assert(strs(r@) =~= seq![path@]);
            },
            Git::Branches { path } => {
                r.push(path.clone());
                assert(strs(r@) =~= seq![path@]);
            },
            Git::SwitchBranch { path, .. } => {
                r.push(path.clone());
                assert(strs(r@) =~= seq![path@]);
            },
            Git::Status { path } => {
                r.push(path.clone());
                assert(strs(r@) =~= seq![path@]);
            },
            Git::ChangedPaths { path } => {
                r.push(path.clone());
                assert(strs(r@) =~= seq![path@]);
            },
            Git::Log { path, .. } => {
                r.push(path.clone());
                assert(strs(r@) =~= seq![path@]);
            },
            Git::CommitState { path, .. } => {
                r.push(path.clone());
                assert(strs(r@) =~= seq![path@]);
            },
            Git::PullRequest { path, .. } => {
                r.push(path.clone());
                assert(strs(r@) =~= seq![path@]);
            },
            Git::Stage { path, .. } => {
                r.push(path.clone());
                assert(strs(r@) =~= seq![path@]);
            },
            Git::Unstage { path, .. } => {
                r.push(path.clone());
                assert(strs(r@) =~= seq![path@]);
            },
            Git::Discard { path, .. } => {
                r.push(path.clone());
                assert(strs(r@) =~= seq![path@]);
            },
            Git::Commit { path, .. } => {
                r.push(path.clone());
                assert(strs(r@) =~= seq![path@]);
            },
            Git::Fetch { path } => {
                r.push(path.clone());
                assert(strs(r@) =~= seq![path@]);
            },
            Git::Push { path } => {
                r.push(path.clone());
                assert(strs(r@) =~= seq![path@]);
            },
            Git::Pull { path } => {
                r.push(path.clone());
                assert(strs(r@) =~= seq![path@]);
            },
            Git::Init { path } => {
                r.push(path.clone());
                assert(strs(r@) =~= seq![path@]);
            },
            Git::FileVersions { path, .. } => {
                r.push(path.clone());
                assert(strs(r@) =~= seq![path@]);
            },
            Git::WorktreeOpen { repo, .. } => {
                r.push(repo.clone());
                assert(strs(r@) =~= seq![repo@]);
            },
            Git::WorktreeWarm { repo } => {
                r.push(repo.clone());
                assert(strs(r@) =~= seq![repo@]);
            },
            Git::WorktreeMigrate { repo, .. } => {
                r.push(repo.clone());
                assert(strs(r@) =~= seq![repo@]);
            },
            Git::WorktreeAdopt { repo, .. } => {
                r.push(repo.clone());
                assert(strs(r@) =~= seq![repo@]);
            },
            Git::WorktreeRecognize { repo, path } => {
                r.push(repo.clone());
                r.push(path.clone());
                assert(strs(r@) =~= seq![repo@, path@]);
            },
            Git::WorktreeList { repo } => {
                r.push(repo.clone());
                assert(strs(r@) =~= seq![repo@]);
            },
            Git::WorktreeClaim { path, .. } => {
                r.push(path.clone());
                assert(strs(r@) =~= seq![path@]);
            },
            Git::WorktreeReserve { path, .. } => {
                r.push(path.clone());
                assert(strs(r@) =~= seq![path@]);
            },
            Git::WorktreeHold { path } => {
                r.push(path.clone());
                assert(strs(r@) =~= seq![path@]);
            },
            Git::WorktreeRemove { repo, path, .. } => {
                r.push(repo.clone());
                r.push(path.clone());
                assert(strs(r@) =~= seq![repo@, path@]);
            },
            Git::WorktreeSizes { paths } => {
                let mut i: usize = 0;
                while i < paths.len()
                    invariant
                        i <= paths@.len(),
                        strs(r@) == strs(paths@).take(i as int),
                    decreases paths.len() - i,
                {
                    let ghost before = r@;
                    r.push(paths[i].clone());
                    proof {
                        assert(strs(r@) =~= strs(before).push(paths@[i as int]@));
                        assert(strs(paths@).take(i + 1) =~= strs(paths@).take(i as int).push(
                            paths@[i as int]@,
                        ));
                    }
                    i = i + 1;
                }
                proof {
                    assert(strs(paths@).take(paths@.len() as int) =~= strs(paths@));
                }
            },
        }
        r
    }
}

/// A decoded branch switch takes `create` from the call's `create` member and
/// `stash` from its `stash` member, each false unless set to a boolean: the
/// two flags never read each other's key.
pub proof fn lemma_switch_branch_reads_its_own_keys(m: Seq<char>, p: Params, g: Git)
    requires
        git_decoded(m, p, g),
        g is SwitchBranch,
    ensures
        g->create == (match member(p.fields@, "create"@) {
            Some(Param::Bool(b)) => b,
            _ => false,
        }),
        g->stash == (match member(p.fields@, "stash"@) {
            Some(Param::Bool(b)) => b,
            _ => false,
        }),
{
}

/// Every git command names a method the bus serves, and the name-only
/// table answers for it exactly what the command itself declares.
pub proof fn lemma_git_declares_what_it_needs(g: Git)
    ensures
        all_methods().contains(git_name(g)),
        capability_in(git_name(g)) == Some(git_capability(g)),
{
    match g {
        Git::RepoInfo { .. } => {
            assert(all_methods()[0] == "git.repoInfo"@);
            lemma_capability_by_name(0);
        },
        Git::FindRepos { .. } => {
            assert(all_methods()[1] == "git.findRepos"@);
            lemma_capability_by_name(1);
        },
        Git::Branches { .. } => {
            assert(all_methods()[2] == "git.branches"@);
            lemma_capability_by_name(2);
        },
        Git::SwitchBranch { .. } => {
            assert(all_methods()[3] == "git.switchBranch"@);
            lemma_capability_by_name(3);
        },
        Git::Status { .. } => {
            assert(all_methods()[4] == "git.status"@);
            lemma_capability_by_name(4);
        },
        Git::ChangedPaths { .. } => {
            assert(all_methods()[5] == "git.changedPaths"@);
            lemma_capability_by_name(5);
        },
        Git::Log { .. } => {
            assert(all_methods()[6] == "git.log"@);
            lemma_capability_by_name(6);
        },
        Git::CommitState { .. } => {
            assert(all_methods()[7] == "git.commitState"@);
            lemma_capability_by_name(7);
        },
        Git::PullRequest { .. } => {
            assert(all_methods()[8] == "git.pullRequest"@);
            lemma_capability_by_name(8);
        },
        Git::Stage { .. } => {
            assert(all_methods()[9] == "git.stage"@);
            lemma_capability_by_name(9);
        },
        Git::Unstage { .. } => {
            assert(all_methods()[10] == "git.unstage"@);
            lemma_capability_by_name(10);
        },
        Git::Discard { .. } => {
            assert(all_methods()[11] == "git.discard"@);
            lemma_capability_by_name(11);
        },
        Git::Commit { .. } => {
            assert(all_methods()[12] == "git.commit"@);
            lemma_capability_by_name(12);
        },
        Git::Fetch { .. } => {
            assert(all_methods()[13] == "git.fetch"@);
            lemma_capability_by_name(13);
        },
        Git::Push { .. } => {
            assert(all_methods()[14] == "git.push"@);
            lemma_capability_by_name(14);
        },
        Git::Pull { .. } => {
            assert(all_methods()[15] == "git.pull"@);
            lemma_capability_by_name(15);
        },
        Git::Init { .. } => {
            assert(all_methods()[16] == "git.init"@);
            lemma_capability_by_name(16);
        },
        Git::FileVersions { .. } => {
            assert(all_methods()[17] == "git.fileVersions"@);
            lemma_capability_by_name(17);
        },
        Git::WorktreeOpen { .. } => {
            assert(all_methods()[18] == "worktree.open"@);
            lemma_capability_by_name(18);
        },
        Git::WorktreeWarm { .. } => {
            assert(all_methods()[19] == "worktree.warm"@);
            lemma_capability_by_name(19);
        },
        Git::WorktreeMigrate { .. } => {
            assert(all_methods()[20] == "worktree.migrate"@);
            lemma_capability_by_name(20);
        },
        Git::WorktreeAdopt { .. } => {
            assert(all_methods()[21] == "worktree.adopt"@);
            lemma_capability_by_name(21);
        },
        Git::WorktreeRecognize { .. } => {
            assert(all_methods()[22] == "worktree.recognize"@);
            lemma_capability_by_name(22);
        },
        Git::WorktreeList { .. } => {
            assert(all_methods()[23] == "worktree.list"@);
            lemma_capability_by_name(23);
        },
        Git::WorktreeClaim { .. } => {
            assert(all_methods()[24] == "worktree.claim"@);
            lemma_capability_by_name(24);
        },
        Git::WorktreeReserve { .. } => {
            assert(all_methods()[25] == "worktree.reserve"@);
            lemma_capability_by_name(25);
        },
        Git::WorktreeHold { .. } => {
            assert(all_methods()[26] == "worktree.hold"@);
            lemma_capability_by_name(26);
        },
        Git::WorktreeRemove { .. } => {
            assert(all_methods()[27] == "worktree.remove"@);
            lemma_capability_by_name(27);
        },
        Git::WorktreeSizes { .. } => {
            assert(all_methods()[28] == "worktree.sizes"@);
            lemma_capability_by_name(28);
        },
    }
}

/// Nothing in this domain reaches past the repository it names.
pub proof fn lemma_git_stays_in_its_project(g: Git)
    ensures
        git_capability(g) != Capability::MutateAcross,
{
}

} // verus!

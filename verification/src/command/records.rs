//! The rows a workspace is made of, as commands: projects, threads, todos,
//! settings and the workspace's own name. What is decided here before a row
//! is written: which columns a thread update touches, and what a workspace's
//! name and colour become. A row the client sends whole (a project, a thread,
//! a todo, the settings) is handed on as it came, for the store to read.

use vstd::prelude::*;

use crate::command::params::{
    bool_member, bool_param, clamp, clamp_u32, find_member, flag_member, flag_param, member, missing,
    missing_param, opt_text, str_member, str_param, take_member, u32_member, u32_param, Param,
    Params,
};
use crate::command::table::all_methods;
use crate::command::{capability_in, lemma_capability_by_name, wire_shape, Capability, Wire, WireShape};
use crate::command::conduct::opt_str;
use crate::git::artifacts::contains_text;
use crate::text::{chars_of, copy_range, push_chars, push_str, string_of, strs, text_is, trim, trim_exec};

verus! {

/// The longest a workspace name or colour is kept, in characters.
pub const MAX_WORKSPACE_FIELD: usize = 64;

pub open spec fn is_hex(c: char) -> bool {
    ('0' <= c && c <= '9') || ('a' <= c && c <= 'f') || ('A' <= c && c <= 'F')
}

/// `#rgb` or `#rrggbb`, in hexadecimal digits of either case.
pub open spec fn hex_color(s: Seq<char>) -> bool {
    &&& s.len() == 4 || s.len() == 7
    &&& s[0] == '#'
    &&& forall|i: int| 1 <= i < s.len() ==> is_hex(#[trigger] s[i])
}

/// Whether a workspace colour is a colour.
pub fn is_hex_color(s: &str) -> (r: bool)
    ensures
        r == hex_color(s@),
{
    let c = chars_of(s);
    if !(c.len() == 4 || c.len() == 7) || c[0] != '#' {
        return false;
    }
    let mut i: usize = 1;
    while i < c.len()
        invariant
            1 <= i <= c@.len(),
            c@ == s@,
            forall|k: int| 1 <= k < i ==> is_hex(#[trigger] c@[k]),
        decreases c.len() - i,
    {
        let x = c[i];
        if !(('0' <= x && x <= '9') || ('a' <= x && x <= 'f') || ('A' <= x && x <= 'F')) {
            assert(!is_hex(c@[i as int]));
            return false;
        }
        i = i + 1;
    }
    true
}

/// A column of a thread row a patch may write.
#[derive(Debug, Clone, Copy, PartialEq, Eq, Structural)]
pub enum ThreadCol {
    Label,
    Title,
    IconKey,
    SessionId,
    KeepAwake,
    Status,
    ExitCode,
    SettledAt,
}

/// A value written to a column.
#[derive(Debug, Clone, PartialEq, Eq)]
pub enum ColVal {
    Text(String),
    Null,
    Int(i64),
}

pub enum ColSpec {
    Text(Seq<char>),
    Null,
    Int(i64),
}

pub open spec fn col_view(v: ColVal) -> ColSpec {
    match v {
        ColVal::Text(s) => ColSpec::Text(s@),
        ColVal::Null => ColSpec::Null,
        ColVal::Int(n) => ColSpec::Int(n),
    }
}

/// Which fields of a thread row a caller asked to change. An absent field
/// leaves its column alone; a field set to null clears it.
#[derive(Debug, Clone, Default, PartialEq)]
pub struct ThreadPatch {
    pub label: Option<String>,
    pub title: Option<Option<String>>,
    pub icon_key: Option<Option<String>>,
    pub session_id: Option<Option<String>>,
    pub keep_awake: Option<bool>,
}

/// A member that may be set to text or to null: absent, text, or anything
/// else standing for null.
pub open spec fn nullable_text(p: Params, key: Seq<char>) -> Option<Option<Seq<char>>> {
    match member(p.fields@, key) {
        None => None,
        Some(Param::Str(s)) => Some(Some(s@)),
        Some(_) => Some(None),
    }
}

pub open spec fn opt_opt(o: Option<Option<String>>) -> Option<Option<Seq<char>>> {
    match o {
        None => None,
        Some(None) => Some(None),
        Some(Some(s)) => Some(Some(s@)),
    }
}

fn nullable_param(p: &Params, key: &str) -> (r: Option<Option<String>>)
    ensures
        opt_opt(r) == nullable_text(*p, key@),
{
    match find_member(p, key) {
        None => None,
        Some(Param::Str(s)) => Some(Some(s.clone())),
        Some(_) => Some(None),
    }
}

/// The columns a patch writes, in the order the patch lists them.
pub open spec fn patch_columns(p: ThreadPatch) -> Seq<(ThreadCol, ColSpec)> {
    let text = |v: Option<String>| match v {
        Some(s) => ColSpec::Text(s@),
        None => ColSpec::Null,
    };
    (match p.label {
        Some(l) => seq![(ThreadCol::Label, ColSpec::Text(l@))],
        None => Seq::<(ThreadCol, ColSpec)>::empty(),
    }) + (match p.title {
        Some(t) => seq![(ThreadCol::Title, text(t))],
        None => Seq::<(ThreadCol, ColSpec)>::empty(),
    }) + (match p.icon_key {
        Some(t) => seq![(ThreadCol::IconKey, text(t))],
        None => Seq::<(ThreadCol, ColSpec)>::empty(),
    }) + (match p.session_id {
        Some(t) => seq![(ThreadCol::SessionId, text(t))],
        None => Seq::<(ThreadCol, ColSpec)>::empty(),
    }) + (match p.keep_awake {
        Some(k) => seq![(ThreadCol::KeepAwake, ColSpec::Int(if k { 1 } else { 0 }))],
        None => Seq::<(ThreadCol, ColSpec)>::empty(),
    })
}

pub open spec fn columns_view(v: Seq<(ThreadCol, ColVal)>) -> Seq<(ThreadCol, ColSpec)> {
    v.map_values(|c: (ThreadCol, ColVal)| (c.0, col_view(c.1)))
}

fn text_col(v: Option<String>) -> (c: ColVal)
    ensures
        col_view(c) == match v {
            Some(s) => ColSpec::Text(s@),
            None => ColSpec::Null,
        },
{
    match v {
        Some(s) => ColVal::Text(s),
        None => ColVal::Null,
    }
}

/// Whether `patch` is what a call's parameters ask of a thread row: `label`
/// when it is text, `keepAwake` when it is a flag, and the three nullable
/// fields.
pub open spec fn patch_read(p: Params, patch: ThreadPatch) -> bool {
    &&& opt_text(patch.label) == str_member(p, "label"@)
    &&& opt_opt(patch.title) == nullable_text(p, "title"@)
    &&& opt_opt(patch.icon_key) == nullable_text(p, "iconKey"@)
    &&& opt_opt(patch.session_id) == nullable_text(p, "sessionId"@)
    &&& patch.keep_awake == flag_member(p, "keepAwake"@)
}

impl ThreadPatch {
    /// Reads a patch from a call's parameters: `label` when it is text,
    /// `keepAwake` when it is a flag, and the three nullable fields.
    pub fn read(params: &Params) -> (patch: ThreadPatch)
        ensures
            patch_read(*params, patch),
    {
        let keep = flag_param(params, "keepAwake");
        ThreadPatch {
            label: crate::command::params::opt_str_param(params, "label"),
            title: nullable_param(params, "title"),
            icon_key: nullable_param(params, "iconKey"),
            session_id: nullable_param(params, "sessionId"),
            keep_awake: keep,
        }
    }

    /// The columns to write, in the order they were read; `keepAwake` as 0 or 1.
    pub fn columns(self) -> (out: Vec<(ThreadCol, ColVal)>)
        ensures
            columns_view(out@) == patch_columns(self),
    {
        let ghost me = self;
        let mut out: Vec<(ThreadCol, ColVal)> = Vec::new();
        if let Some(label) = self.label {
            out.push((ThreadCol::Label, ColVal::Text(label)));
        }
        if let Some(title) = self.title {
            out.push((ThreadCol::Title, text_col(title)));
        }
        if let Some(icon) = self.icon_key {
            out.push((ThreadCol::IconKey, text_col(icon)));
        }
        if let Some(session) = self.session_id {
            out.push((ThreadCol::SessionId, text_col(session)));
        }
        if let Some(keep) = self.keep_awake {
            out.push((ThreadCol::KeepAwake, ColVal::Int(if keep { 1 } else { 0 })));
        }
        proof {
            assert(columns_view(out@) =~= patch_columns(me));
        }
        out
    }
}


/// A workspace's overrides of its name and colour.
#[derive(Debug, Clone)]
pub struct WorkspaceMeta {
    pub name: Option<String>,
    pub color: Option<String>,
}

/// What one field of a `workspace.setInfo` call asks: nothing when absent,
/// to clear the override when null or blank, to set it otherwise.
pub open spec fn set_info_field(p: Params, key: Seq<char>) -> Option<Option<Seq<char>>> {
    match member(p.fields@, key) {
        None => None,
        Some(Param::Str(s)) => if trim(s@).len() == 0 {
            Some(None)
        } else {
            Some(Some(trim(s@)))
        },
        Some(_) => Some(None),
    }
}

/// Reads one field of a `workspace.setInfo` call.
pub fn set_info_param(p: &Params, key: &str) -> (r: Option<Option<String>>)
    ensures
        opt_opt(r) == set_info_field(*p, key@),
{
    match nullable_param(p, key) {
        None => None,
        Some(None) => Some(None),
        Some(Some(s)) => {
            let t = trim_exec(&chars_of(s.as_str()));
            if t.len() == 0 {
                Some(None)
            } else {
                Some(Some(string_of(&t)))
            }
        },
    }
}

/// The first `MAX_WORKSPACE_FIELD` characters.
pub open spec fn capped(s: Seq<char>) -> Seq<char> {
    if s.len() <= MAX_WORKSPACE_FIELD {
        s
    } else {
        s.take(MAX_WORKSPACE_FIELD as int)
    }
}

/// What one override becomes: kept when not asked about; cleared by null; set
/// to the first 64 characters otherwise, except that a colour that is not one
/// leaves the previous value rather than storing or clearing.
pub open spec fn merged_field(current: Option<Seq<char>>, given: Option<Option<Seq<char>>>, is_color: bool) -> Option<Seq<char>> {
    match given {
        None => current,
        Some(None) => None,
        Some(Some(v)) => if is_color && !hex_color(v) {
            current
        } else {
            Some(capped(v))
        },
    }
}

fn merge_field(current: Option<String>, given: Option<Option<String>>, is_color: bool) -> (r: Option<String>)
    ensures
        crate::git::status::opt_view(r) == merged_field(crate::git::status::opt_view(current), opt_opt(given), is_color),
{
    match given {
        None => current,
        Some(None) => None,
        Some(Some(v)) => {
            if is_color && !is_hex_color(v.as_str()) {
                current
            } else {
                let c = chars_of(v.as_str());
                let end = if c.len() <= MAX_WORKSPACE_FIELD { c.len() } else { MAX_WORKSPACE_FIELD };
                let kept = copy_range(&c, 0, end);
                proof {
                    assert(kept@ =~= capped(v@));
                }
                Some(string_of(&kept))
            }
        },
    }
}

/// A workspace's overrides after `workspace.setInfo`.
pub fn set_workspace_info(meta: WorkspaceMeta, name: Option<Option<String>>, color: Option<Option<String>>) -> (m: WorkspaceMeta)
    ensures
        crate::git::status::opt_view(m.name) == merged_field(crate::git::status::opt_view(meta.name), opt_opt(name), false),
        crate::git::status::opt_view(m.color) == merged_field(crate::git::status::opt_view(meta.color), opt_opt(color), true),
{
    WorkspaceMeta { name: merge_field(meta.name, name, false), color: merge_field(meta.color, color, true) }
}

/// An override is never longer than the cap: every `workspace.setInfo`
/// keeps a stored name or colour within `MAX_WORKSPACE_FIELD` characters.
pub proof fn lemma_workspace_fields_stay_capped(current: Option<Seq<char>>, given: Option<Option<Seq<char>>>, is_color: bool)
    requires
        current matches Some(c) ==> c.len() <= MAX_WORKSPACE_FIELD,
    ensures
        merged_field(current, given, is_color) matches Some(v) ==> v.len() <= MAX_WORKSPACE_FIELD,
        // A long name is cut to exactly the cap, and a blank one clears it.
        given matches Some(Some(v)) && !is_color && v.len() >= MAX_WORKSPACE_FIELD ==> (merged_field(
            current,
            given,
            is_color,
        ) matches Some(w) && w.len() == MAX_WORKSPACE_FIELD),
        given == Some(None::<Seq<char>>) ==> merged_field(current, given, is_color) is None,
{
}

/// What `workspace.info` answers: the two overrides, and the version of the
/// build that answers, which no `workspace.setInfo` can rewrite.
#[derive(Debug, Clone, PartialEq, Eq)]
pub struct WorkspaceAnswer {
    pub name: Option<String>,
    pub color: Option<String>,
    pub version: String,
}

/// The answer to `workspace.info` over the stored overrides and the build's
/// own `version`.
pub fn workspace_answer(meta: WorkspaceMeta, version: &str) -> (r: WorkspaceAnswer)
    ensures
        crate::git::status::opt_view(r.name) == crate::git::status::opt_view(meta.name),
        crate::git::status::opt_view(r.color) == crate::git::status::opt_view(meta.color),
        r.version@ == version@,
{
    WorkspaceAnswer { name: meta.name, color: meta.color, version: version.to_owned() }
}

/// One command on the rows a workspace is made of.
#[derive(Debug)]
pub enum Records {
    ProjectList,
    /// Writes a project row, new or not, as the client sent it.
    ProjectCreate {
        project: Param,
    },
    ProjectArchive {
        id: String,
        archived: bool,
    },
    ProjectDelete {
        id: String,
    },
    /// Every thread row, as persisted.
    ThreadList,
    /// Writes a thread row, keeping whatever the table already says about its
    /// run.
    ThreadCreate {
        thread: Param,
    },
    ThreadUpdate {
        id: String,
        patch: ThreadPatch,
    },
    /// A process is behind this thread now.
    ThreadStarted {
        id: String,
    },
    /// Puts a thread away as finished business, or brings it back. `status` is
    /// the caller's own live reading.
    ThreadSettle {
        id: String,
        status: String,
        settled: bool,
    },
    /// Removes the row and the key bound to it.
    ThreadDelete {
        id: String,
    },
    TodoList,
    TodoSave {
        todo: Param,
    },
    TodoDelete {
        id: String,
    },
    SettingsGet,
    SettingsSet {
        settings: Param,
    },
    /// The workspace's own name and colour, so any connected device sees the
    /// same boite.
    WorkspaceInfo,
    /// Absent leaves a field alone; present and blank clears the override.
    WorkspaceSetInfo {
        name: Option<Option<String>>,
        color: Option<Option<String>>,
    },
    /// Where something is, across the todos, the journal and what the terminals
    /// printed. `transcripts` is the host's answer, never the caller's.
    Search {
        needle: String,
        limit: usize,
        transcripts: Option<String>,
    },
}

pub open spec fn records_name(x: Records) -> Seq<char> {
    match x {
        Records::ProjectList => "project.list"@,
        Records::ProjectCreate { .. } => "project.create"@,
        Records::ProjectArchive { .. } => "project.archive"@,
        Records::ProjectDelete { .. } => "project.delete"@,
        Records::ThreadList => "thread.list"@,
        Records::ThreadCreate { .. } => "thread.create"@,
        Records::ThreadUpdate { .. } => "thread.update"@,
        Records::ThreadStarted { .. } => "thread.started"@,
        Records::ThreadSettle { .. } => "thread.settle"@,
        Records::ThreadDelete { .. } => "thread.delete"@,
        Records::TodoList => "todo.list"@,
        Records::TodoSave { .. } => "todo.save"@,
        Records::TodoDelete { .. } => "todo.delete"@,
        Records::SettingsGet => "settings.get"@,
        Records::SettingsSet { .. } => "settings.set"@,
        Records::WorkspaceInfo => "workspace.info"@,
        Records::WorkspaceSetInfo { .. } => "workspace.setInfo"@,
        Records::Search { .. } => "search.query"@,
    }
}

pub open spec fn records_wire(x: Records) -> WireShape {
    match x {
        Records::ProjectList => WireShape::Key("projects"@),
        Records::ProjectCreate { .. } => WireShape::Key("project"@),
        Records::ProjectArchive { .. } => WireShape::Ack,
        Records::ProjectDelete { .. } => WireShape::Ack,
        Records::ThreadList => WireShape::Key("threads"@),
        Records::ThreadCreate { .. } => WireShape::Key("thread"@),
        Records::ThreadUpdate { .. } => WireShape::Ack,
        Records::ThreadStarted { .. } => WireShape::Ack,
        Records::ThreadSettle { .. } => WireShape::Ack,
        Records::ThreadDelete { .. } => WireShape::Ack,
        Records::TodoList => WireShape::Key("todos"@),
        Records::TodoSave { .. } => WireShape::Ack,
        Records::TodoDelete { .. } => WireShape::Ack,
        Records::SettingsGet => WireShape::Key("settings"@),
        Records::SettingsSet { .. } => WireShape::Ack,
        Records::WorkspaceInfo => WireShape::Bare,
        Records::WorkspaceSetInfo { .. } => WireShape::Ack,
        Records::Search { .. } => WireShape::Key("hits"@),
    }
}

/// Creating a project, deleting one and deleting a thread reach past the
/// project the caller is in; listing and reading are reads; every other
/// write stays in its project.
pub open spec fn records_capability(x: Records) -> Capability {
    match x {
        Records::ProjectList => Capability::ReadProject,
        Records::ProjectCreate { .. } => Capability::MutateAcross,
        Records::ProjectArchive { .. } => Capability::MutateProject,
        Records::ProjectDelete { .. } => Capability::MutateAcross,
        Records::ThreadList => Capability::ReadProject,
        Records::ThreadCreate { .. } => Capability::MutateProject,
        Records::ThreadUpdate { .. } => Capability::MutateProject,
        Records::ThreadStarted { .. } => Capability::MutateProject,
        Records::ThreadSettle { .. } => Capability::MutateProject,
        Records::ThreadDelete { .. } => Capability::MutateAcross,
        Records::TodoList => Capability::ReadProject,
        Records::TodoSave { .. } => Capability::MutateProject,
        Records::TodoDelete { .. } => Capability::MutateProject,
        Records::SettingsGet => Capability::ReadProject,
        Records::SettingsSet { .. } => Capability::MutateProject,
        Records::WorkspaceInfo => Capability::ReadProject,
        Records::WorkspaceSetInfo { .. } => Capability::MutateProject,
        Records::Search { .. } => Capability::ReadProject,
    }
}

/// Whether `x` is what method `m` with parameters `p` decodes into: the
/// method's own variant, each argument read from the member of its name.
pub open spec fn records_decoded(m: Seq<char>, p: Params, x: Records) -> bool {
    if m == "project.list"@ {
        x is ProjectList
    } else if m == "project.create"@ {
        match x {
            Records::ProjectCreate { project } => {
                &&& member(p.fields@, "project"@) == Some(project)
            },
            _ => false,
        }
    } else if m == "project.archive"@ {
        match x {
            Records::ProjectArchive { id, archived } => {
                &&& str_member(p, "id"@) == Some(id@)
                &&& archived == bool_member(p, "archived"@, false)
            },
            _ => false,
        }
    } else if m == "project.delete"@ {
        match x {
            Records::ProjectDelete { id } => {
                &&& str_member(p, "id"@) == Some(id@)
            },
            _ => false,
        }
    } else if m == "thread.list"@ {
        x is ThreadList
    } else if m == "thread.create"@ {
        match x {
            Records::ThreadCreate { thread } => {
                &&& member(p.fields@, "thread"@) == Some(thread)
            },
            _ => false,
        }
    } else if m == "thread.update"@ {
        match x {
            Records::ThreadUpdate { id, patch } => {
                &&& str_member(p, "threadId"@) == Some(id@)
                &&& patch_read(p, patch)
            },
            _ => false,
        }
    } else if m == "thread.started"@ {
        match x {
            Records::ThreadStarted { id } => {
                &&& str_member(p, "threadId"@) == Some(id@)
            },
            _ => false,
        }
    } else if m == "thread.settle"@ {
        match x {
            Records::ThreadSettle { id, status, settled } => {
                &&& str_member(p, "threadId"@) == Some(id@)
                &&& str_member(p, "status"@) == Some(status@)
                &&& flag_member(p, "settled"@) == Some(settled)
            },
            _ => false,
        }
    } else if m == "thread.delete"@ {
        match x {
            Records::ThreadDelete { id } => {
                &&& str_member(p, "threadId"@) == Some(id@)
            },
            _ => false,
        }
    } else if m == "todo.list"@ {
        x is TodoList
    } else if m == "todo.save"@ {
        match x {
            Records::TodoSave { todo } => {
                &&& member(p.fields@, "todo"@) == Some(todo)
            },
            _ => false,
        }
    } else if m == "todo.delete"@ {
        match x {
            Records::TodoDelete { id } => {
                &&& str_member(p, "todoId"@) == Some(id@)
            },
            _ => false,
        }
    } else if m == "settings.get"@ {
        x is SettingsGet
    } else if m == "settings.set"@ {
        match x {
            Records::SettingsSet { settings } => {
                &&& member(p.fields@, "settings"@) == Some(settings)
            },
            _ => false,
        }
    } else if m == "workspace.info"@ {
        x is WorkspaceInfo
    } else if m == "workspace.setInfo"@ {
        match x {
            Records::WorkspaceSetInfo { name, color } => {
                &&& opt_opt(name) == set_info_field(p, "name"@)
                &&& opt_opt(color) == set_info_field(p, "color"@)
            },
            _ => false,
        }
    } else if m == "search.query"@ {
        match x {
            Records::Search { needle, limit, transcripts } => {
                &&& str_member(p, "q"@) == Some(needle@)
                &&& limit == clamp_u32(u32_member(p, "limit"@, 20), 1, 100) as usize
                &&& transcripts == None::<String>
            },
            _ => false,
        }
    } else {
        false
    }
}

/// Why method `m` with parameters `p` does not decode: the first argument
/// that cannot be read, or a method this domain does not serve.
pub open spec fn records_decode_error(m: Seq<char>, p: Params) -> Option<Seq<char>> {
    if m == "project.list"@ {
        None
    } else if m == "project.create"@ {
        if member(p.fields@, "project"@) is None {
            Some(missing("project"@))
        } else {
            None
        }
    } else if m == "project.archive"@ {
        if str_member(p, "id"@) is None {
            Some(missing("id"@))
        } else {
            None
        }
    } else if m == "project.delete"@ {
        if str_member(p, "id"@) is None {
            Some(missing("id"@))
        } else {
            None
        }
    } else if m == "thread.list"@ {
        None
    } else if m == "thread.create"@ {
        if member(p.fields@, "thread"@) is None {
            Some(missing("thread"@))
        } else {
            None
        }
    } else if m == "thread.update"@ {
        if str_member(p, "threadId"@) is None {
            Some(missing("threadId"@))
        } else {
            None
        }
    } else if m == "thread.started"@ {
        if str_member(p, "threadId"@) is None {
            Some(missing("threadId"@))
        } else {
            None
        }
    } else if m == "thread.settle"@ {
        if str_member(p, "threadId"@) is None {
            Some(missing("threadId"@))
        } else if str_member(p, "status"@) is None {
            Some(missing("status"@))
        } else if flag_member(p, "settled"@) is None {
            Some(missing("settled"@))
        } else {
            None
        }
    } else if m == "thread.delete"@ {
        if str_member(p, "threadId"@) is None {
            Some(missing("threadId"@))
        } else {
            None
        }
    } else if m == "todo.list"@ {
        None
    } else if m == "todo.save"@ {
        if member(p.fields@, "todo"@) is None {
            Some(missing("todo"@))
        } else {
            None
        }
    } else if m == "todo.delete"@ {
        if str_member(p, "todoId"@) is None {
            Some(missing("todoId"@))
        } else {
            None
        }
    } else if m == "settings.get"@ {
        None
    } else if m == "settings.set"@ {
        if member(p.fields@, "settings"@) is None {
            Some(missing("settings"@))
        } else {
            None
        }
    } else if m == "workspace.info"@ {
        None
    } else if m == "workspace.setInfo"@ {
        None
    } else if m == "search.query"@ {
        if str_member(p, "q"@) is None {
            Some(missing("q"@))
        } else {
            None
        }
    } else {
        Some("unknown method: "@ + m)
    }
}

impl Records {
    /// Reads a method name and its parameters into a command. The refusal
    /// names the first argument that cannot be read, or the method nobody
    /// serves.
    pub fn decode(method: &str, params: Params) -> (r: Result<Records, String>)
        ensures
            match r {
                Ok(x) => records_decode_error(method@, params) is None && records_decoded(method@, params, x)
                    && records_name(x) == method@,
                Err(e) => records_decode_error(method@, params) == Some(e@),
            },
    {
        let m = chars_of(method);
        if text_is(&m, "project.list") {
            return Ok(Records::ProjectList);
        }
        if text_is(&m, "project.create") {
            let project = match take_member(params, "project") {
                Some(v) => v,
                None => return Err(missing_param("project")),
            };
            return Ok(Records::ProjectCreate { project });
        }
        if text_is(&m, "project.archive") {
            let id = match str_param(&params, "id") {
                Ok(v) => v,
                Err(e) => return Err(e),
            };
            let archived = bool_param(&params, "archived", false);
            return Ok(Records::ProjectArchive { id, archived });
        }
        if text_is(&m, "project.delete") {
            let id = match str_param(&params, "id") {
                Ok(v) => v,
                Err(e) => return Err(e),
            };
            return Ok(Records::ProjectDelete { id });
        }
        if text_is(&m, "thread.list") {
            return Ok(Records::ThreadList);
        }
        if text_is(&m, "thread.create") {
            let thread = match take_member(params, "thread") {
                Some(v) => v,
                None => return Err(missing_param("thread")),
            };
            return Ok(Records::ThreadCreate { thread });
        }
        if text_is(&m, "thread.update") {
            let id = match str_param(&params, "threadId") {
                Ok(v) => v,
                Err(e) => return Err(e),
            };
            let patch = ThreadPatch::read(&params);
            return Ok(Records::ThreadUpdate { id, patch });
        }
        if text_is(&m, "thread.started") {
            let id = match str_param(&params, "threadId") {
                Ok(v) => v,
                Err(e) => return Err(e),
            };
            return Ok(Records::ThreadStarted { id });
        }
        if text_is(&m, "thread.settle") {
            let id = match str_param(&params, "threadId") {
                Ok(v) => v,
                Err(e) => return Err(e),
            };
            let status = match str_param(&params, "status") {
                Ok(v) => v,
                Err(e) => return Err(e),
            };
            let settled = match flag_param(&params, "settled") {
                Some(b) => b,
                None => return Err(missing_param("settled")),
            };
            return Ok(Records::ThreadSettle { id, status, settled });
        }
        if text_is(&m, "thread.delete") {
            let id = match str_param(&params, "threadId") {
                Ok(v) => v,
                Err(e) => return Err(e),
            };
            return Ok(Records::ThreadDelete { id });
        }
        if text_is(&m, "todo.list") {
            return Ok(Records::TodoList);
        }
        if text_is(&m, "todo.save") {
            let todo = match take_member(params, "todo") {
                Some(v) => v,
                None => return Err(missing_param("todo")),
            };
            return Ok(Records::TodoSave { todo });
        }
        if text_is(&m, "todo.delete") {
            let id = match str_param(&params, "todoId") {
                Ok(v) => v,
                Err(e) => return Err(e),
            };
            return Ok(Records::TodoDelete { id });
        }
        if text_is(&m, "settings.get") {
            return Ok(Records::SettingsGet);
        }
        if text_is(&m, "settings.set") {
            let settings = match take_member(params, "settings") {
                Some(v) => v,
                None => return Err(missing_param("settings")),
            };
            return Ok(Records::SettingsSet { settings });
        }
        if text_is(&m, "workspace.info") {
            return Ok(Records::WorkspaceInfo);
        }
        if text_is(&m, "workspace.setInfo") {
            let name = set_info_param(&params, "name");
            let color = set_info_param(&params, "color");
            return Ok(Records::WorkspaceSetInfo { name, color });
        }
        if text_is(&m, "search.query") {
            let needle = match str_param(&params, "q") {
                Ok(v) => v,
                Err(e) => return Err(e),
            };
            let limit = clamp(u32_param(&params, "limit", 20), 1, 100) as usize;
            let transcripts = None;
            return Ok(Records::Search { needle, limit, transcripts });
        }
        let mut msg: Vec<char> = Vec::new();
        push_str(&mut msg, "unknown method: ");
        push_str(&mut msg, method);
        Err(string_of(&msg))
    }

    /// The wire name this command answers to.
    pub fn name(&self) -> (r: &'static str)
        ensures
            r@ == records_name(*self),
    {
        match self {
            Records::ProjectList => "project.list",
            Records::ProjectCreate { .. } => "project.create",
            Records::ProjectArchive { .. } => "project.archive",
            Records::ProjectDelete { .. } => "project.delete",
            Records::ThreadList => "thread.list",
            Records::ThreadCreate { .. } => "thread.create",
            Records::ThreadUpdate { .. } => "thread.update",
            Records::ThreadStarted { .. } => "thread.started",
            Records::ThreadSettle { .. } => "thread.settle",
            Records::ThreadDelete { .. } => "thread.delete",
            Records::TodoList => "todo.list",
            Records::TodoSave { .. } => "todo.save",
            Records::TodoDelete { .. } => "todo.delete",
            Records::SettingsGet => "settings.get",
            Records::SettingsSet { .. } => "settings.set",
            Records::WorkspaceInfo => "workspace.info",
            Records::WorkspaceSetInfo { .. } => "workspace.setInfo",
            Records::Search { .. } => "search.query",
        }
    }

    /// How the WebSocket protocol wraps this command's answer.
    pub fn wire(&self) -> (r: Wire)
        ensures
            wire_shape(r) == records_wire(*self),
    {
        match self {
            Records::ProjectList => Wire::Key("projects"),
            Records::ProjectCreate { .. } => Wire::Key("project"),
            Records::ProjectArchive { .. } => Wire::Ack,
            Records::ProjectDelete { .. } => Wire::Ack,
            Records::ThreadList => Wire::Key("threads"),
            Records::ThreadCreate { .. } => Wire::Key("thread"),
            Records::ThreadUpdate { .. } => Wire::Ack,
            Records::ThreadStarted { .. } => Wire::Ack,
            Records::ThreadSettle { .. } => Wire::Ack,
            Records::ThreadDelete { .. } => Wire::Ack,
            Records::TodoList => Wire::Key("todos"),
            Records::TodoSave { .. } => Wire::Ack,
            Records::TodoDelete { .. } => Wire::Ack,
            Records::SettingsGet => Wire::Key("settings"),
            Records::SettingsSet { .. } => Wire::Ack,
            Records::WorkspaceInfo => Wire::Bare,
            Records::WorkspaceSetInfo { .. } => Wire::Ack,
            Records::Search { .. } => Wire::Key("hits"),
        }
    }

    /// What a caller needs to hold to ask for this.
    pub fn capability(&self) -> (r: Capability)
        ensures
            r == records_capability(*self),
    {
        match self {
            Records::ProjectList => Capability::ReadProject,
            Records::ProjectCreate { .. } => Capability::MutateAcross,
            Records::ProjectArchive { .. } => Capability::MutateProject,
            Records::ProjectDelete { .. } => Capability::MutateAcross,
            Records::ThreadList => Capability::ReadProject,
            Records::ThreadCreate { .. } => Capability::MutateProject,
            Records::ThreadUpdate { .. } => Capability::MutateProject,
            Records::ThreadStarted { .. } => Capability::MutateProject,
            Records::ThreadSettle { .. } => Capability::MutateProject,
            Records::ThreadDelete { .. } => Capability::MutateAcross,
            Records::TodoList => Capability::ReadProject,
            Records::TodoSave { .. } => Capability::MutateProject,
            Records::TodoDelete { .. } => Capability::MutateProject,
            Records::SettingsGet => Capability::ReadProject,
            Records::SettingsSet { .. } => Capability::MutateProject,
            Records::WorkspaceInfo => Capability::ReadProject,
            Records::WorkspaceSetInfo { .. } => Capability::MutateProject,
            Records::Search { .. } => Capability::ReadProject,
        }
    }
}

/// Every records command names a method the bus serves, and the name-only table
/// answers for it exactly what the command itself declares.
pub proof fn lemma_records_declares_what_it_needs(x: Records)
    ensures
        all_methods().contains(records_name(x)),
        capability_in(records_name(x)) == Some(records_capability(x)),
{
    match x {
        Records::ProjectList => {
            assert(all_methods()[68] == "project.list"@);
            lemma_capability_by_name(68);
        },
        Records::ProjectCreate { .. } => {
            assert(all_methods()[69] == "project.create"@);
            lemma_capability_by_name(69);
        },
        Records::ProjectArchive { .. } => {
            assert(all_methods()[70] == "project.archive"@);
            lemma_capability_by_name(70);
        },
        Records::ProjectDelete { .. } => {
            assert(all_methods()[71] == "project.delete"@);
            lemma_capability_by_name(71);
        },
        Records::ThreadList => {
            assert(all_methods()[72] == "thread.list"@);
            lemma_capability_by_name(72);
        },
        Records::ThreadCreate { .. } => {
            assert(all_methods()[73] == "thread.create"@);
            lemma_capability_by_name(73);
        },
        Records::ThreadUpdate { .. } => {
            assert(all_methods()[74] == "thread.update"@);
            lemma_capability_by_name(74);
        },
        Records::ThreadStarted { .. } => {
            assert(all_methods()[75] == "thread.started"@);
            lemma_capability_by_name(75);
        },
        Records::ThreadSettle { .. } => {
            assert(all_methods()[76] == "thread.settle"@);
            lemma_capability_by_name(76);
        },
        Records::ThreadDelete { .. } => {
            assert(all_methods()[77] == "thread.delete"@);
            lemma_capability_by_name(77);
        },
        Records::TodoList => {
            assert(all_methods()[78] == "todo.list"@);
            lemma_capability_by_name(78);
        },
        Records::TodoSave { .. } => {
            assert(all_methods()[79] == "todo.save"@);
            lemma_capability_by_name(79);
        },
        Records::TodoDelete { .. } => {
            assert(all_methods()[80] == "todo.delete"@);
            lemma_capability_by_name(80);
        },
        Records::SettingsGet => {
            assert(all_methods()[81] == "settings.get"@);
            lemma_capability_by_name(81);
        },
        Records::SettingsSet { .. } => {
            assert(all_methods()[82] == "settings.set"@);
            lemma_capability_by_name(82);
        },
        Records::WorkspaceInfo => {
            assert(all_methods()[83] == "workspace.info"@);
            lemma_capability_by_name(83);
        },
        Records::WorkspaceSetInfo { .. } => {
            assert(all_methods()[84] == "workspace.setInfo"@);
            lemma_capability_by_name(84);
        },
        Records::Search { .. } => {
            assert(all_methods()[85] == "search.query"@);
            lemma_capability_by_name(85);
        },
    }
}
/// The columns of a thread row that a save decides rather than takes from
/// the caller: when it was created, the run it belongs to, whether it is put
/// away, and its orchestration.
#[derive(Debug, Clone, PartialEq, Eq)]
pub struct ThreadRow {
    pub id: String,
    pub created_at: i64,
    pub pty_id: Option<String>,
    pub status: String,
    pub exit_code: Option<i64>,
    pub settled_at: Option<i64>,
    pub role: Option<String>,
    pub orchestrator_scope: Option<String>,
    pub accept_dispatch: bool,
}

/// What a thread save writes, from the window's `snapshot` and the row as
/// stored (`None` for a thread new to the table). The caller's copy of a
/// thread's run is a snapshot that may be older than the process, so none of
/// the run columns is the caller's: the ending (status, exit code), whether
/// it is put away, and the orchestration columns come from the stored row,
/// and a new row starts idle, live, a worker that accepts dispatches. A pty id
/// belongs to a run, never to a row, and a creation time of zero is now.
pub open spec fn saved_row(snapshot: ThreadRow, stored: Option<ThreadRow>, now: i64, r: ThreadRow) -> bool {
    &&& r.id@ == snapshot.id@
    &&& r.created_at == (if snapshot.created_at == 0 { now } else { snapshot.created_at })
    &&& r.pty_id is None
    &&& match stored {
        Some(row) => {
            &&& r.status@ == row.status@
            &&& r.exit_code == row.exit_code
            &&& r.settled_at == row.settled_at
            &&& opt_text(r.role) == opt_text(row.role)
            &&& opt_text(r.orchestrator_scope) == opt_text(row.orchestrator_scope)
            &&& r.accept_dispatch == row.accept_dispatch
        },
        None => {
            &&& r.status@ == "idle"@
            &&& r.exit_code is None
            &&& r.settled_at is None
            &&& r.role is None
            &&& r.orchestrator_scope is None
            &&& r.accept_dispatch
        },
    }
}

/// The thread row a create or re-save writes.
pub fn thread_for_save(snapshot: ThreadRow, stored: Option<ThreadRow>, now: i64) -> (r: ThreadRow)
    ensures
        saved_row(snapshot, stored, now, r),
{
    let created_at = if snapshot.created_at == 0 { now } else { snapshot.created_at };
    match stored {
        Some(row) => ThreadRow {
            id: snapshot.id,
            created_at,
            pty_id: None,
            status: row.status,
            exit_code: row.exit_code,
            settled_at: row.settled_at,
            role: row.role,
            orchestrator_scope: row.orchestrator_scope,
            accept_dispatch: row.accept_dispatch,
        },
        None => ThreadRow {
            id: snapshot.id,
            created_at,
            pty_id: None,
            status: string_of(&chars_of("idle")),
            exit_code: None,
            settled_at: None,
            role: None,
            orchestrator_scope: None,
            accept_dispatch: true,
        },
    }
}

/// What putting a thread away, or bringing it back, writes: the settled
/// time, and whether a chat thread's child is stopped with it.
#[derive(Debug, Clone, PartialEq, Eq)]
pub struct SettleWrite {
    pub stop_child: bool,
    pub settled_at: ColVal,
}

/// Whether a thread may be put away (`settled`) or brought back, and what
/// that writes. `busy_refusal` is the busy rule's refusal for the caller's
/// live reading of the thread, `None` when the rule lets it be put away. A
/// thread still working is refused and nothing is written; bringing one back
/// is never refused. Putting away stops a chat thread's child too, so it does
/// not go on spending for a thread nobody can see.
pub fn may_settle(busy_refusal: Option<String>, settled: bool, now: i64) -> (r: Result<SettleWrite, String>)
    ensures
        settled && busy_refusal is Some ==> (r matches Err(e) && e@ == busy_refusal->Some_0@),
        settled && busy_refusal is None ==> r == Ok::<SettleWrite, String>(
            SettleWrite { stop_child: true, settled_at: ColVal::Int(now) },
        ),
        !settled ==> r == Ok::<SettleWrite, String>(SettleWrite { stop_child: false, settled_at: ColVal::Null }),
{
    if !settled {
        return Ok(SettleWrite { stop_child: false, settled_at: ColVal::Null });
    }
    match busy_refusal {
        Some(e) => Err(e),
        None => Ok(SettleWrite { stop_child: true, settled_at: ColVal::Int(now) }),
    }
}

/// What `thread.started` writes: a process is behind the thread now, so its
/// status is `running` and the exit code of the run that ended is cleared.
pub fn started_columns() -> (out: Vec<(ThreadCol, ColVal)>)
    ensures
        columns_view(out@) == seq![(ThreadCol::Status, ColSpec::Text("running"@)), (ThreadCol::ExitCode, ColSpec::Null)],
{
    let mut out: Vec<(ThreadCol, ColVal)> = Vec::new();
    out.push((ThreadCol::Status, ColVal::Text(string_of(&chars_of("running")))));
    out.push((ThreadCol::ExitCode, ColVal::Null));
    proof {
        assert(columns_view(out@) =~= seq![(ThreadCol::Status, ColSpec::Text("running"@)), (ThreadCol::ExitCode, ColSpec::Null)]);
    }
    out
}

/// Names listed with a comma and a space between them, as `join(", ")` does.
pub open spec fn listed(names: Seq<Seq<char>>) -> Seq<char>
    decreases names.len(),
{
    if names.len() == 0 {
        Seq::<char>::empty()
    } else if names.len() == 1 {
        names[0]
    } else {
        listed(names.drop_last()) + seq![',', ' '] + names.last()
    }
}

/// Whether a new row names a runtime this Boite can drive. A `terminal` row
/// has nothing to check; a `pilot` row names a driver (blank is none) that
/// the host's pilot runtime drives (`drivers`, `None` for a host without
/// one), and its instance and options, where the row carries them, parse
/// (`instance_error` and `options_error` are the parser's complaints).
pub open spec fn runtime_check(
    runtime: Seq<char>,
    driver: Option<Seq<char>>,
    drivers: Option<Seq<Seq<char>>>,
    instance_error: Option<Seq<char>>,
    options_error: Option<Seq<char>>,
) -> Result<(), Seq<char>> {
    let named = match driver {
        Some(d) => if trim(d).len() > 0 {
            Some(trim(d))
        } else {
            None
        },
        None => None,
    };
    if runtime == "terminal"@ {
        Ok(())
    } else if runtime != "pilot"@ {
        Err("'"@ + runtime + "' is not a runtime: a thread is 'terminal' or 'pilot'"@)
    } else if named is None {
        Err("a chat thread names the driver that answers on it, and this row names none"@)
    } else if drivers is None {
        Err("this Boite has no pilot runtime, so it cannot open a chat thread"@)
    } else if !drivers->Some_0.contains(named->Some_0) {
        Err("no pilot driver called '"@ + named->Some_0 + "' here. This build drives "@ + listed(drivers->Some_0)
            + "."@)
    } else if instance_error is Some {
        Err("this chat thread's instance is not one: "@ + instance_error->Some_0)
    } else if options_error is Some {
        Err("this chat thread's options are not options: "@ + options_error->Some_0)
    } else {
        Ok(())
    }
}

fn listed_exec(names: &Vec<String>) -> (out: Vec<char>)
    ensures
        out@ == listed(strs(names@)),
{
    let mut out: Vec<char> = Vec::new();
    let ghost all = strs(names@);
    let mut i: usize = 0;
    while i < names.len()
        invariant
            all == strs(names@),
            i <= names@.len(),
            out@ == listed(all.take(i as int)),
        decreases names.len() - i,
    {
        proof {
            assert(all.take(i + 1).drop_last() =~= all.take(i as int));
            assert(all.take(i + 1).last() == names@[i as int]@);
        }
        if i > 0 {
            push_str(&mut out, ", ");
            proof {
                reveal_strlit(", ");
                assert(", "@ =~= seq![',', ' ']);
            }
        }
        push_str(&mut out, names[i].as_str());
        i = i + 1;
    }
    proof {
        assert(all.take(names@.len() as int) =~= all);
    }
    out
}

/// Checks the runtime a new thread row names, as [`runtime_check`] states it.
pub fn check_runtime(
    runtime: &str,
    driver: Option<&str>,
    drivers: Option<&Vec<String>>,
    instance_error: Option<String>,
    options_error: Option<String>,
) -> (r: Result<(), String>)
    ensures
        match r {
            Ok(()) => runtime_check(runtime@, opt_str(driver), match drivers {
                Some(v) => Some(strs(v@)),
                None => None,
            }, opt_text(instance_error), opt_text(options_error)) == Ok::<(), Seq<char>>(()),
            Err(e) => runtime_check(runtime@, opt_str(driver), match drivers {
                Some(v) => Some(strs(v@)),
                None => None,
            }, opt_text(instance_error), opt_text(options_error)) == Err::<(), Seq<char>>(e@),
        },
{
    let rt = chars_of(runtime);
    if text_is(&rt, "terminal") {
        return Ok(());
    }
    if !text_is(&rt, "pilot") {
        let mut msg: Vec<char> = Vec::new();
        push_str(&mut msg, "'");
        push_chars(&mut msg, &rt);
        push_str(&mut msg, "' is not a runtime: a thread is 'terminal' or 'pilot'");
        return Err(string_of(&msg));
    }
    let named: Vec<char> = match driver {
        Some(d) => trim_exec(&chars_of(d)),
        None => Vec::new(),
    };
    if named.len() == 0 {
        return Err("a chat thread names the driver that answers on it, and this row names none".to_owned());
    }
    let known = match drivers {
        None => return Err("this Boite has no pilot runtime, so it cannot open a chat thread".to_owned()),
        Some(v) => v,
    };
    if !contains_text(known.as_slice(), &named) {
        let mut msg: Vec<char> = Vec::new();
        push_str(&mut msg, "no pilot driver called '");
        push_chars(&mut msg, &named);
        push_str(&mut msg, "' here. This build drives ");
        let all = listed_exec(known);
        push_chars(&mut msg, &all);
        push_str(&mut msg, ".");
        return Err(string_of(&msg));
    }
    if let Some(e) = instance_error {
        let mut msg: Vec<char> = Vec::new();
        push_str(&mut msg, "this chat thread's instance is not one: ");
        push_str(&mut msg, e.as_str());
        return Err(string_of(&msg));
    }
    if let Some(e) = options_error {
        let mut msg: Vec<char> = Vec::new();
        push_str(&mut msg, "this chat thread's options are not options: ");
        push_str(&mut msg, e.as_str());
        return Err(string_of(&msg));
    }
    Ok(())
}

} // verus!

//! The orchestration surface, as commands: the pulse, the orchestrator
//! conversation, dispatches between threads.

use vstd::prelude::*;

use crate::command::params::{
    bool_member, bool_param, clamp, clamp_u32, i64_member, i64_param, missing, opt_str_param,
    opt_text, or_text, str_member, str_param, text_or, u32_member, u32_param, u64_member,
    u64_param, Params,
};
use crate::command::pilot::Pilot;
use crate::command::table::all_methods;
use crate::command::{capability_in, lemma_capability_by_name, wire_shape, Capability, Wire, WireShape};
use crate::text::{chars_eq, chars_of, push_chars, push_str, string_of, text_is};

verus! {

/// What decoding a conduct call takes from the modules that own it: how long
/// a pulse waits when the caller names no wait and the longest it may wait,
/// and the transcriber a call gets when it names none.
#[derive(Debug, Clone)]
pub struct ConductDefaults {
    pub pulse_wait_ms: u64,
    pub pulse_max_wait_ms: u64,
    pub voice_provider: String,
}

/// The smaller of two waits.
pub open spec fn min_u64(a: u64, b: u64) -> u64 {
    if a <= b {
        a
    } else {
        b
    }
}

/// One orchestration command, carrying its arguments.
#[derive(Debug, Clone)]
pub enum Conduct {
    /// The workspace since a cursor, with an optional wait when it is quiet.
    Pulse {
        since_seq: i64,
        timeout_ms: u64,
        project: Option<String>,
        waiter: String,
    },
    /// One moment appended to the ring.
    Record {
        kind: String,
        project_id: Option<String>,
        object_id: Option<String>,
        detail: String,
        source: String,
    },
    /// A user line into the orchestrator conversation.
    Post {
        scope: Option<String>,
        text: String,
    },
    /// The orchestrator's line back, refused unless the named thread carries the
    /// orchestrator role.
    Say {
        thread_id: String,
        text: String,
        aloud: Option<String>,
        urgency: Option<String>,
    },
    /// One scope's conversation, oldest first, after a cursor.
    Messages {
        scope: Option<String>,
        since_id: Option<String>,
        limit: usize,
    },
    /// Stamps the orchestrator role onto a thread the window just opened.
    Start {
        thread_id: String,
        scope: Option<String>,
    },
    /// Which thread is the live orchestrator for a scope, if any.
    Status {
        scope: Option<String>,
    },
    /// What the orchestrators caused, newest first.
    Actions {
        limit: usize,
    },
    /// Un-does one recorded action.
    Undo {
        action_id: String,
    },
    /// One line queued for another thread's prompt.
    Dispatch {
        thread_id: String,
        to_thread_id: String,
        text: String,
        mode: String,
    },
    /// The user's mute switch for one thread.
    AcceptDispatch {
        thread_id: String,
        accept: bool,
    },
    /// Everything still queued, oldest first, after the time-to-live sweep.
    Drain {
        ttl_ms: u32,
    },
    /// The device's report on one line.
    SettleDispatch {
        dispatch_id: String,
        state: String,
        reason: Option<String>,
    },
    /// One recorded utterance turned into text.
    Transcribe {
        audio: String,
        mime: String,
        provider: String,
    },
}

pub open spec fn conduct_name(x: Conduct) -> Seq<char> {
    match x {
        Conduct::Pulse { .. } => "conduct.pulse"@,
        Conduct::Record { .. } => "conduct.record"@,
        Conduct::Post { .. } => "orchestrator.post"@,
        Conduct::Say { .. } => "orchestrator.say"@,
        Conduct::Messages { .. } => "orchestrator.messages"@,
        Conduct::Start { .. } => "orchestrator.start"@,
        Conduct::Status { .. } => "orchestrator.status"@,
        Conduct::Actions { .. } => "orchestrator.actions"@,
        Conduct::Undo { .. } => "orchestrator.undo"@,
        Conduct::Dispatch { .. } => "thread.dispatch"@,
        Conduct::AcceptDispatch { .. } => "thread.acceptDispatch"@,
        Conduct::Drain { .. } => "dispatch.drain"@,
        Conduct::SettleDispatch { .. } => "dispatch.settle"@,
        Conduct::Transcribe { .. } => "voice.transcribe"@,
    }
}

pub open spec fn conduct_wire(x: Conduct) -> WireShape {
    match x {
        Conduct::Pulse { .. } => WireShape::Bare,
        Conduct::Record { .. } => WireShape::Bare,
        Conduct::Post { .. } => WireShape::Bare,
        Conduct::Say { .. } => WireShape::Bare,
        Conduct::Messages { .. } => WireShape::Key("messages"@),
        Conduct::Start { .. } => WireShape::Bare,
        Conduct::Status { .. } => WireShape::Bare,
        Conduct::Actions { .. } => WireShape::Key("actions"@),
        Conduct::Undo { .. } => WireShape::Bare,
        Conduct::Dispatch { .. } => WireShape::Bare,
        Conduct::AcceptDispatch { .. } => WireShape::Bare,
        Conduct::Drain { .. } => WireShape::Key("dispatches"@),
        Conduct::SettleDispatch { .. } => WireShape::Bare,
        Conduct::Transcribe { .. } => WireShape::Key("text"@),
    }
}

/// Reads are the pulse, the conversation, the status, the action list and a
/// transcription; everything else writes a row.
pub open spec fn conduct_capability(x: Conduct) -> Capability {
    match x {
        Conduct::Pulse { .. } => Capability::ReadProject,
        Conduct::Record { .. } => Capability::MutateProject,
        Conduct::Post { .. } => Capability::MutateProject,
        Conduct::Say { .. } => Capability::MutateProject,
        Conduct::Messages { .. } => Capability::ReadProject,
        Conduct::Start { .. } => Capability::MutateProject,
        Conduct::Status { .. } => Capability::ReadProject,
        Conduct::Actions { .. } => Capability::ReadProject,
        Conduct::Undo { .. } => Capability::MutateProject,
        Conduct::Dispatch { .. } => Capability::MutateProject,
        Conduct::AcceptDispatch { .. } => Capability::MutateProject,
        Conduct::Drain { .. } => Capability::MutateProject,
        Conduct::SettleDispatch { .. } => Capability::MutateProject,
        Conduct::Transcribe { .. } => Capability::ReadProject,
    }
}

/// Whether `x` is what method `m` with parameters `p` decodes into: the
/// method's own variant, each argument read from the member of its name.
pub open spec fn conduct_decoded(m: Seq<char>, p: Params, d: ConductDefaults, x: Conduct) -> bool {
    if m == "conduct.pulse"@ {
        match x {
            Conduct::Pulse { since_seq, timeout_ms, project, waiter } => {
                &&& since_seq == (match i64_member(p, "sinceSeq"@) { Some(n) => n, None => 0i64 })
                &&& timeout_ms == min_u64(match u64_member(p, "timeoutMs"@) { Some(n) => n, None => d.pulse_wait_ms }, d.pulse_max_wait_ms)
                &&& str_member(p, "project"@) == opt_text(project)
                &&& waiter@ == or_text(str_member(p, "waiter"@), "local"@)
            },
            _ => false,
        }
    } else if m == "conduct.record"@ {
        match x {
            Conduct::Record { kind, project_id, object_id, detail, source } => {
                &&& str_member(p, "kind"@) == Some(kind@)
                &&& str_member(p, "projectId"@) == opt_text(project_id)
                &&& str_member(p, "objectId"@) == opt_text(object_id)
                &&& detail@ == or_text(str_member(p, "detail"@), ""@)
                &&& source@ == or_text(str_member(p, "source"@), "phase"@)
            },
            _ => false,
        }
    } else if m == "orchestrator.post"@ {
        match x {
            Conduct::Post { scope, text } => {
                &&& str_member(p, "scope"@) == opt_text(scope)
                &&& str_member(p, "text"@) == Some(text@)
            },
            _ => false,
        }
    } else if m == "orchestrator.say"@ {
        match x {
            Conduct::Say { thread_id, text, aloud, urgency } => {
                &&& str_member(p, "threadId"@) == Some(thread_id@)
                &&& str_member(p, "text"@) == Some(text@)
                &&& str_member(p, "aloud"@) == opt_text(aloud)
                &&& str_member(p, "urgency"@) == opt_text(urgency)
            },
            _ => false,
        }
    } else if m == "orchestrator.messages"@ {
        match x {
            Conduct::Messages { scope, since_id, limit } => {
                &&& str_member(p, "scope"@) == opt_text(scope)
                &&& str_member(p, "sinceId"@) == opt_text(since_id)
                &&& limit == clamp_u32(u32_member(p, "limit"@, 50), 1, 500) as usize
            },
            _ => false,
        }
    } else if m == "orchestrator.start"@ {
        match x {
            Conduct::Start { thread_id, scope } => {
                &&& str_member(p, "threadId"@) == Some(thread_id@)
                &&& str_member(p, "scope"@) == opt_text(scope)
            },
            _ => false,
        }
    } else if m == "orchestrator.status"@ {
        match x {
            Conduct::Status { scope } => {
                &&& str_member(p, "scope"@) == opt_text(scope)
            },
            _ => false,
        }
    } else if m == "orchestrator.actions"@ {
        match x {
            Conduct::Actions { limit } => {
                &&& limit == clamp_u32(u32_member(p, "limit"@, 50), 1, 200) as usize
            },
            _ => false,
        }
    } else if m == "orchestrator.undo"@ {
        match x {
            Conduct::Undo { action_id } => {
                &&& str_member(p, "actionId"@) == Some(action_id@)
            },
            _ => false,
        }
    } else if m == "thread.dispatch"@ {
        match x {
            Conduct::Dispatch { thread_id, to_thread_id, text, mode } => {
                &&& str_member(p, "threadId"@) == Some(thread_id@)
                &&& str_member(p, "toThreadId"@) == Some(to_thread_id@)
                &&& str_member(p, "text"@) == Some(text@)
                &&& mode@ == or_text(str_member(p, "mode"@), "queue"@)
            },
            _ => false,
        }
    } else if m == "thread.acceptDispatch"@ {
        match x {
            Conduct::AcceptDispatch { thread_id, accept } => {
                &&& str_member(p, "threadId"@) == Some(thread_id@)
                &&& accept == bool_member(p, "accept"@, true)
            },
            _ => false,
        }
    } else if m == "dispatch.drain"@ {
        match x {
            Conduct::Drain { ttl_ms } => {
                &&& ttl_ms == u32_member(p, "ttlMs"@, 3_600_000)
            },
            _ => false,
        }
    } else if m == "dispatch.settle"@ {
        match x {
            Conduct::SettleDispatch { dispatch_id, state, reason } => {
                &&& str_member(p, "dispatchId"@) == Some(dispatch_id@)
                &&& str_member(p, "state"@) == Some(state@)
                &&& str_member(p, "reason"@) == opt_text(reason)
            },
            _ => false,
        }
    } else if m == "voice.transcribe"@ {
        match x {
            Conduct::Transcribe { audio, mime, provider } => {
                &&& str_member(p, "audio"@) == Some(audio@)
                &&& mime@ == or_text(str_member(p, "mime"@), "audio/wav"@)
                &&& provider@ == or_text(str_member(p, "provider"@), d.voice_provider@)
            },
            _ => false,
        }
    } else {
        false
    }
}

/// Why method `m` with parameters `p` does not decode: the first argument
/// that cannot be read, or a method this domain does not serve.
pub open spec fn conduct_decode_error(m: Seq<char>, p: Params) -> Option<Seq<char>> {
    if m == "conduct.pulse"@ {
        None
    } else if m == "conduct.record"@ {
        if str_member(p, "kind"@) is None {
            Some(missing("kind"@))
        } else {
            None
        }
    } else if m == "orchestrator.post"@ {
        if str_member(p, "text"@) is None {
            Some(missing("text"@))
        } else {
            None
        }
    } else if m == "orchestrator.say"@ {
        if str_member(p, "threadId"@) is None {
            Some(missing("threadId"@))
        } else if str_member(p, "text"@) is None {
            Some(missing("text"@))
        } else {
            None
        }
    } else if m == "orchestrator.messages"@ {
        None
    } else if m == "orchestrator.start"@ {
        if str_member(p, "threadId"@) is None {
            Some(missing("threadId"@))
        } else {
            None
        }
    } else if m == "orchestrator.status"@ {
        None
    } else if m == "orchestrator.actions"@ {
        None
    } else if m == "orchestrator.undo"@ {
        if str_member(p, "actionId"@) is None {
            Some(missing("actionId"@))
        } else {
            None
        }
    } else if m == "thread.dispatch"@ {
        if str_member(p, "threadId"@) is None {
            Some(missing("threadId"@))
        } else if str_member(p, "toThreadId"@) is None {
            Some(missing("toThreadId"@))
        } else if str_member(p, "text"@) is None {
            Some(missing("text"@))
        } else {
            None
        }
    } else if m == "thread.acceptDispatch"@ {
        if str_member(p, "threadId"@) is None {
            Some(missing("threadId"@))
        } else {
            None
        }
    } else if m == "dispatch.drain"@ {
        None
    } else if m == "dispatch.settle"@ {
        if str_member(p, "dispatchId"@) is None {
            Some(missing("dispatchId"@))
        } else if str_member(p, "state"@) is None {
            Some(missing("state"@))
        } else {
            None
        }
    } else if m == "voice.transcribe"@ {
        if str_member(p, "audio"@) is None {
            Some(missing("audio"@))
        } else {
            None
        }
    } else {
        Some("unknown method: "@ + m)
    }
}

impl Conduct {
    /// Reads a method name and its parameters into a command. The refusal
    /// names the first argument that cannot be read, or the method nobody
    /// serves.
    pub fn decode(method: &str, params: Params, defaults: &ConductDefaults) -> (r: Result<Conduct, String>)
        ensures
            match r {
                Ok(x) => conduct_decode_error(method@, params) is None && conduct_decoded(method@, params, *defaults, x)
                    && conduct_name(x) == method@,
                Err(e) => conduct_decode_error(method@, params) == Some(e@),
            },
    {
        let m = chars_of(method);
        if text_is(&m, "conduct.pulse") {
            let since_seq: i64 = match i64_param(&params, "sinceSeq") {
                Some(n) => n,
                None => 0,
            };
            let asked: u64 = match u64_param(&params, "timeoutMs") {
                Some(n) => n,
                None => defaults.pulse_wait_ms,
            };
            let timeout_ms = if asked <= defaults.pulse_max_wait_ms {
                asked
            } else {
                defaults.pulse_max_wait_ms
            };
            let project = opt_str_param(&params, "project");
            let waiter = text_or(opt_str_param(&params, "waiter"), "local");
            return Ok(Conduct::Pulse { since_seq, timeout_ms, project, waiter });
        }
        if text_is(&m, "conduct.record") {
            let kind = match str_param(&params, "kind") {
                Ok(v) => v,
                Err(e) => return Err(e),
            };
            let project_id = opt_str_param(&params, "projectId");
            let object_id = opt_str_param(&params, "objectId");
            let detail = text_or(opt_str_param(&params, "detail"), "");
            let source = text_or(opt_str_param(&params, "source"), "phase");
            return Ok(Conduct::Record { kind, project_id, object_id, detail, source });
        }
        if text_is(&m, "orchestrator.post") {
            let scope = opt_str_param(&params, "scope");
            let text = match str_param(&params, "text") {
                Ok(v) => v,
                Err(e) => return Err(e),
            };
            return Ok(Conduct::Post { scope, text });
        }
        if text_is(&m, "orchestrator.say") {
            let thread_id = match str_param(&params, "threadId") {
                Ok(v) => v,
                Err(e) => return Err(e),
            };
            let text = match str_param(&params, "text") {
                Ok(v) => v,
                Err(e) => return Err(e),
            };
            let aloud = opt_str_param(&params, "aloud");
            let urgency = opt_str_param(&params, "urgency");
            return Ok(Conduct::Say { thread_id, text, aloud, urgency });
        }
        if text_is(&m, "orchestrator.messages") {
            let scope = opt_str_param(&params, "scope");
            let since_id = opt_str_param(&params, "sinceId");
            let limit = clamp(u32_param(&params, "limit", 50), 1, 500) as usize;
            return Ok(Conduct::Messages { scope, since_id, limit });
        }
        if text_is(&m, "orchestrator.start") {
            let thread_id = match str_param(&params, "threadId") {
                Ok(v) => v,
                Err(e) => return Err(e),
            };
            let scope = opt_str_param(&params, "scope");
            return Ok(Conduct::Start { thread_id, scope });
        }
        if text_is(&m, "orchestrator.status") {
            let scope = opt_str_param(&params, "scope");
            return Ok(Conduct::Status { scope });
        }
        if text_is(&m, "orchestrator.actions") {
            let limit = clamp(u32_param(&params, "limit", 50), 1, 200) as usize;
            return Ok(Conduct::Actions { limit });
        }
        if text_is(&m, "orchestrator.undo") {
            let action_id = match str_param(&params, "actionId") {
                Ok(v) => v,
                Err(e) => return Err(e),
            };
            return Ok(Conduct::Undo { action_id });
        }
        if text_is(&m, "thread.dispatch") {
            let thread_id = match str_param(&params, "threadId") {
                Ok(v) => v,
                Err(e) => return Err(e),
            };
            let to_thread_id = match str_param(&params, "toThreadId") {
                Ok(v) => v,
                Err(e) => return Err(e),
            };
            let text = match str_param(&params, "text") {
                Ok(v) => v,
                Err(e) => return Err(e),
            };
            let mode = text_or(opt_str_param(&params, "mode"), "queue");
            return Ok(Conduct::Dispatch { thread_id, to_thread_id, text, mode });
        }
        if text_is(&m, "thread.acceptDispatch") {
            let thread_id = match str_param(&params, "threadId") {
                Ok(v) => v,
                Err(e) => return Err(e),
            };
            let accept = bool_param(&params, "accept", true);
            return Ok(Conduct::AcceptDispatch { thread_id, accept });
        }
        if text_is(&m, "dispatch.drain") {
            let ttl_ms = u32_param(&params, "ttlMs", 3_600_000);
            return Ok(Conduct::Drain { ttl_ms });
        }
        if text_is(&m, "dispatch.settle") {
            let dispatch_id = match str_param(&params, "dispatchId") {
                Ok(v) => v,
                Err(e) => return Err(e),
            };
            let state = match str_param(&params, "state") {
                Ok(v) => v,
                Err(e) => return Err(e),
            };
            let reason = opt_str_param(&params, "reason");
            return Ok(Conduct::SettleDispatch { dispatch_id, state, reason });
        }
        if text_is(&m, "voice.transcribe") {
            let audio = match str_param(&params, "audio") {
                Ok(v) => v,
                Err(e) => return Err(e),
            };
            let mime = text_or(opt_str_param(&params, "mime"), "audio/wav");
            let provider = match opt_str_param(&params, "provider") {
                Some(s) => s,
                None => defaults.voice_provider.clone(),
            };
            return Ok(Conduct::Transcribe { audio, mime, provider });
        }
        let mut msg: Vec<char> = Vec::new();
        push_str(&mut msg, "unknown method: ");
        push_str(&mut msg, method);
        Err(string_of(&msg))
    }

    /// The wire name this command answers to.
    pub fn name(&self) -> (r: &'static str)
        ensures
            r@ == conduct_name(*self),
    {
        match self {
            Conduct::Pulse { .. } => "conduct.pulse",
            Conduct::Record { .. } => "conduct.record",
            Conduct::Post { .. } => "orchestrator.post",
            Conduct::Say { .. } => "orchestrator.say",
            Conduct::Messages { .. } => "orchestrator.messages",
            Conduct::Start { .. } => "orchestrator.start",
            Conduct::Status { .. } => "orchestrator.status",
            Conduct::Actions { .. } => "orchestrator.actions",
            Conduct::Undo { .. } => "orchestrator.undo",
            Conduct::Dispatch { .. } => "thread.dispatch",
            Conduct::AcceptDispatch { .. } => "thread.acceptDispatch",
            Conduct::Drain { .. } => "dispatch.drain",
            Conduct::SettleDispatch { .. } => "dispatch.settle",
            Conduct::Transcribe { .. } => "voice.transcribe",
        }
    }

    /// How the WebSocket protocol wraps this command's answer.
    pub fn wire(&self) -> (r: Wire)
        ensures
            wire_shape(r) == conduct_wire(*self),
    {
        match self {
            Conduct::Pulse { .. } => Wire::Bare,
            Conduct::Record { .. } => Wire::Bare,
            Conduct::Post { .. } => Wire::Bare,
            Conduct::Say { .. } => Wire::Bare,
            Conduct::Messages { .. } => Wire::Key("messages"),
            Conduct::Start { .. } => Wire::Bare,
            Conduct::Status { .. } => Wire::Bare,
            Conduct::Actions { .. } => Wire::Key("actions"),
            Conduct::Undo { .. } => Wire::Bare,
            Conduct::Dispatch { .. } => Wire::Bare,
            Conduct::AcceptDispatch { .. } => Wire::Bare,
            Conduct::Drain { .. } => Wire::Key("dispatches"),
            Conduct::SettleDispatch { .. } => Wire::Bare,
            Conduct::Transcribe { .. } => Wire::Key("text"),
        }
    }

    /// What a caller needs to hold to ask for this.
    pub fn capability(&self) -> (r: Capability)
        ensures
            r == conduct_capability(*self),
    {
        match self {
            Conduct::Pulse { .. } => Capability::ReadProject,
            Conduct::Record { .. } => Capability::MutateProject,
            Conduct::Post { .. } => Capability::MutateProject,
            Conduct::Say { .. } => Capability::MutateProject,
            Conduct::Messages { .. } => Capability::ReadProject,
            Conduct::Start { .. } => Capability::MutateProject,
            Conduct::Status { .. } => Capability::ReadProject,
            Conduct::Actions { .. } => Capability::ReadProject,
            Conduct::Undo { .. } => Capability::MutateProject,
            Conduct::Dispatch { .. } => Capability::MutateProject,
            Conduct::AcceptDispatch { .. } => Capability::MutateProject,
            Conduct::Drain { .. } => Capability::MutateProject,
            Conduct::SettleDispatch { .. } => Capability::MutateProject,
            Conduct::Transcribe { .. } => Capability::ReadProject,
        }
    }
}

/// Every conduct command names a method the bus serves, and the name-only table
/// answers for it exactly what the command itself declares.
pub proof fn lemma_conduct_declares_what_it_needs(x: Conduct)
    ensures
        all_methods().contains(conduct_name(x)),
        capability_in(conduct_name(x)) == Some(conduct_capability(x)),
{
    match x {
        Conduct::Pulse { .. } => {
            assert(all_methods()[92] == "conduct.pulse"@);
            lemma_capability_by_name(92);
        },
        Conduct::Record { .. } => {
            assert(all_methods()[93] == "conduct.record"@);
            lemma_capability_by_name(93);
        },
        Conduct::Post { .. } => {
            assert(all_methods()[94] == "orchestrator.post"@);
            lemma_capability_by_name(94);
        },
        Conduct::Say { .. } => {
            assert(all_methods()[95] == "orchestrator.say"@);
            lemma_capability_by_name(95);
        },
        Conduct::Messages { .. } => {
            assert(all_methods()[96] == "orchestrator.messages"@);
            lemma_capability_by_name(96);
        },
        Conduct::Start { .. } => {
            assert(all_methods()[97] == "orchestrator.start"@);
            lemma_capability_by_name(97);
        },
        Conduct::Status { .. } => {
            assert(all_methods()[98] == "orchestrator.status"@);
            lemma_capability_by_name(98);
        },
        Conduct::Actions { .. } => {
            assert(all_methods()[99] == "orchestrator.actions"@);
            lemma_capability_by_name(99);
        },
        Conduct::Undo { .. } => {
            assert(all_methods()[100] == "orchestrator.undo"@);
            lemma_capability_by_name(100);
        },
        Conduct::Dispatch { .. } => {
            assert(all_methods()[101] == "thread.dispatch"@);
            lemma_capability_by_name(101);
        },
        Conduct::AcceptDispatch { .. } => {
            assert(all_methods()[102] == "thread.acceptDispatch"@);
            lemma_capability_by_name(102);
        },
        Conduct::Drain { .. } => {
            assert(all_methods()[103] == "dispatch.drain"@);
            lemma_capability_by_name(103);
        },
        Conduct::SettleDispatch { .. } => {
            assert(all_methods()[104] == "dispatch.settle"@);
            lemma_capability_by_name(104);
        },
        Conduct::Transcribe { .. } => {
            assert(all_methods()[105] == "voice.transcribe"@);
            lemma_capability_by_name(105);
        },
    }
}
/// No orchestration command reaches past a project.
pub proof fn lemma_conduct_stays_in_its_project(c: Conduct)
    ensures
        conduct_capability(c) != Capability::MutateAcross,
{
}

/// What the store holds of a thread's orchestration: the role it carries,
/// if any, and the project an orchestrator is scoped to (`None` is global).
#[derive(Debug, Clone)]
pub struct Orchestration {
    pub role: Option<String>,
    pub scope: Option<String>,
}

pub open spec fn not_an_orchestrator() -> Seq<char> {
    "only an orchestrator thread may reach another thread this way, and this thread is not one"@
}

pub open spec fn between_orchestrators() -> Seq<char> {
    "NO_ORCHESTRATOR_TO_ORCHESTRATOR: the target carries a role, and a dispatch between orchestrators is refused in both directions"@
}

pub open spec fn scope_taken(project: Seq<char>) -> Seq<char> {
    "SCOPE_TAKEN: project "@ + project
        + " has its own live orchestrator, and dispatch into it belongs to that one"@
}

pub open spec fn out_of_scope(own: Seq<char>, project: Seq<char>) -> Seq<char> {
    "OUT_OF_SCOPE: this orchestrator is scoped to "@ + own + " and the target lives in "@ + project
}

/// Where a line an orchestrator sends may go.
///
/// The caller's row is the proof of its role; the target never carries a
/// role of its own; and the scope rule cuts both ways: a project
/// orchestrator stays inside its project, and a global one stays out of a
/// project that has its own. `target_project` is the project the store files
/// the target under, and `project_taken` whether that project has a live
/// orchestrator of its own.
pub open spec fn target_verdict(
    orchestrator_role: Seq<char>,
    caller: Option<Orchestration>,
    target: Option<Orchestration>,
    target_project: Result<Seq<char>, Seq<char>>,
    project_taken: bool,
) -> Result<Seq<char>, Seq<char>> {
    match caller {
        None => Err("unknown thread"@),
        Some(c) => if !(c.role matches Some(r) && r@ == orchestrator_role) {
            Err(not_an_orchestrator())
        } else {
            match target {
                None => Err("unknown target thread"@),
                Some(t) => if t.role is Some {
                    Err(between_orchestrators())
                } else {
                    match target_project {
                        Err(e) => Err(e),
                        Ok(project) => match c.scope {
                            None => if project_taken {
                                Err(scope_taken(project))
                            } else {
                                Ok(project)
                            },
                            Some(own) => if own@ != project {
                                Err(out_of_scope(own@, project))
                            } else {
                                Ok(project)
                            },
                        },
                    }
                },
            }
        },
    }
}

pub open spec fn result_view(r: Result<String, String>) -> Result<Seq<char>, Seq<char>> {
    match r {
        Ok(s) => Ok(s@),
        Err(e) => Err(e@),
    }
}

/// The project a dispatch from `caller` to `target` lands in, or why it may
/// not be sent.
pub fn conducted_target(
    orchestrator_role: &str,
    caller: Option<Orchestration>,
    target: Option<Orchestration>,
    target_project: Result<String, String>,
    project_taken: bool,
) -> (r: Result<String, String>)
    ensures
        result_view(r) == target_verdict(
            orchestrator_role@,
            caller,
            target,
            result_view(target_project),
            project_taken,
        ),
{
    let c = match caller {
        None => return Err("unknown thread".to_owned()),
        Some(c) => c,
    };
    let is_orchestrator = match &c.role {
        Some(r) => chars_eq(&chars_of(r.as_str()), &chars_of(orchestrator_role)),
        None => false,
    };
    if !is_orchestrator {
        return Err(
            "only an orchestrator thread may reach another thread this way, and this thread is not one".to_owned(),
        );
    }
    let t = match target {
        None => return Err("unknown target thread".to_owned()),
        Some(t) => t,
    };
    if t.role.is_some() {
        return Err(
            "NO_ORCHESTRATOR_TO_ORCHESTRATOR: the target carries a role, and a dispatch between orchestrators is refused in both directions".to_owned(),
        );
    }
    let project = match target_project {
        Err(e) => return Err(e),
        Ok(p) => p,
    };
    let pc = chars_of(project.as_str());
    match &c.scope {
        None => {
            if project_taken {
                let mut msg: Vec<char> = Vec::new();
                push_str(&mut msg, "SCOPE_TAKEN: project ");
                push_chars(&mut msg, &pc);
                push_str(&mut msg, " has its own live orchestrator, and dispatch into it belongs to that one");
                return Err(string_of(&msg));
            }
        },
        Some(own) => {
            let oc = chars_of(own.as_str());
            if !chars_eq(&oc, &pc) {
                let mut msg: Vec<char> = Vec::new();
                push_str(&mut msg, "OUT_OF_SCOPE: this orchestrator is scoped to ");
                push_chars(&mut msg, &oc);
                push_str(&mut msg, " and the target lives in ");
                push_chars(&mut msg, &pc);
                return Err(string_of(&msg));
            }
        },
    }
    Ok(project)
}

/// Whether a thread row is driven over a protocol rather than through a
/// terminal: its runtime, when the row exists, is the pilot runtime.
pub fn pilot_thread(row_runtime: Option<&str>, pilot_runtime: &str) -> (r: bool)
    ensures
        r == (row_runtime matches Some(rt) && rt@ == pilot_runtime@),
{
    match row_runtime {
        Some(rt) => chars_eq(&chars_of(rt), &chars_of(pilot_runtime)),
        None => false,
    }
}

/// The live orchestrator of a scope, when it is a chat thread: `found` is
/// the scope's orchestrator, if it has one, and `is_pilot` whether that
/// thread is driven by the pilot.
pub fn pilot_orchestrator(found: Option<String>, is_pilot: bool) -> (r: Option<String>)
    ensures
        match found {
            Some(id) => if is_pilot {
                r is Some && r->Some_0@ == id@
            } else {
                r is None
            },
            None => r is None,
        },
{
    match found {
        Some(id) => if is_pilot {
            Some(id)
        } else {
            None
        },
        None => None,
    }
}

pub open spec fn muted() -> Seq<char> {
    "MUTED: the user muted dispatch into this thread, and only the user rearms it"@
}

/// Where a dispatched line lands: the target the conduct rules allow, when
/// the user has not muted dispatch into it.
pub open spec fn dispatch_verdict(
    orchestrator_role: Seq<char>,
    caller: Option<Orchestration>,
    target: Option<Orchestration>,
    target_project: Result<Seq<char>, Seq<char>>,
    project_taken: bool,
    target_accepts: bool,
) -> Result<Seq<char>, Seq<char>> {
    match target_verdict(orchestrator_role, caller, target, target_project, project_taken) {
        Ok(project) => if target_accepts {
            Ok(project)
        } else {
            Err(muted())
        },
        Err(e) => Err(e),
    }
}

/// The project a line queued from `caller` for `target` is filed under, or
/// why it may not be queued: the conduct rules first, then the user's mute
/// switch on the target.
pub fn dispatch_target(
    orchestrator_role: &str,
    caller: Option<Orchestration>,
    target: Option<Orchestration>,
    target_project: Result<String, String>,
    project_taken: bool,
    target_accepts: bool,
) -> (r: Result<String, String>)
    ensures
        result_view(r) == dispatch_verdict(
            orchestrator_role@,
            caller,
            target,
            result_view(target_project),
            project_taken,
            target_accepts,
        ),
{
    match conducted_target(orchestrator_role, caller, target, target_project, project_taken) {
        Ok(project) => if target_accepts {
            Ok(project)
        } else {
            Err("MUTED: the user muted dispatch into this thread, and only the user rearms it".to_owned())
        },
        Err(e) => Err(e),
    }
}

pub open spec fn not_a_speaker() -> Seq<char> {
    "only an orchestrator thread may say something here, and this thread is not one"@
}

pub open spec fn chat_speaker() -> Seq<char> {
    "PILOT_ORCHESTRATOR: this orchestrator is a chat thread, so its answer is the turn it is already writing; /v1/say is for an orchestrator running in a terminal"@
}

/// Whether a thread may say a line into the orchestrator conversation, and
/// into which scope: only a thread the row stamps as the orchestrator, and
/// only one running in a terminal, since a chat orchestrator's answer is the
/// turn it is already writing.
pub open spec fn say_verdict(
    orchestrator_role: Seq<char>,
    row: Option<Orchestration>,
    is_pilot: bool,
) -> Result<Option<Seq<char>>, Seq<char>> {
    match row {
        None => Err("unknown thread"@),
        Some(o) => if !(o.role matches Some(r) && r@ == orchestrator_role) {
            Err(not_a_speaker())
        } else if is_pilot {
            Err(chat_speaker())
        } else {
            Ok(opt_text(o.scope))
        },
    }
}

/// The scope a `say` writes into, or why the thread may not speak.
pub fn say_scope(orchestrator_role: &str, row: Option<Orchestration>, is_pilot: bool) -> (r: Result<
    Option<String>,
    String,
>)
    ensures
        match r {
            Ok(scope) => say_verdict(orchestrator_role@, row, is_pilot) == Ok::<
                Option<Seq<char>>,
                Seq<char>,
            >(opt_text(scope)),
            Err(e) => say_verdict(orchestrator_role@, row, is_pilot) == Err::<
                Option<Seq<char>>,
                Seq<char>,
            >(e@),
        },
{
    let o = match row {
        None => return Err("unknown thread".to_owned()),
        Some(o) => o,
    };
    let speaks = match &o.role {
        Some(r) => chars_eq(&chars_of(r.as_str()), &chars_of(orchestrator_role)),
        None => false,
    };
    if !speaks {
        return Err("only an orchestrator thread may say something here, and this thread is not one".to_owned());
    }
    if is_pilot {
        return Err(
            "PILOT_ORCHESTRATOR: this orchestrator is a chat thread, so its answer is the turn it is already writing; /v1/say is for an orchestrator running in a terminal".to_owned(),
        );
    }
    Ok(o.scope)
}

/// What the store holds of one recorded orchestrator action.
#[derive(Debug, Clone, PartialEq, Eq)]
pub struct ActionRow {
    pub kind: String,
    pub object_id: Option<String>,
    pub undoable: bool,
    pub undone: bool,
}

/// How an action is reversed: a stamp on a row, never a delete.
#[derive(Debug, Clone, PartialEq, Eq)]
pub enum UndoStep {
    /// Puts a spawned worker away, behind the same busy rule as any settle.
    PutAway(String),
    /// Brings a dismissed thread back out.
    BringBack(String),
}

pub enum UndoSpec {
    PutAway(Seq<char>),
    BringBack(Seq<char>),
}

pub open spec fn undo_view(u: UndoStep) -> UndoSpec {
    match u {
        UndoStep::PutAway(t) => UndoSpec::PutAway(t@),
        UndoStep::BringBack(t) => UndoSpec::BringBack(t@),
    }
}

/// What undoing an action does, or why it cannot be undone. A kind nothing
/// here knows how to reverse is refused by name rather than guessed at.
pub open spec fn undo_verdict(action: Option<ActionRow>) -> Result<UndoSpec, Seq<char>> {
    match action {
        None => Err("unknown action"@),
        Some(a) => if a.undone {
            Err("ALREADY_UNDONE: this action was already undone"@)
        } else if !a.undoable {
            Err("NOT_UNDOABLE: a "@ + a.kind@ + " is not reversible from here"@)
        } else {
            match a.object_id {
                None => Err("the action names no object to act on"@),
                Some(object) => if a.kind@ == "thread.spawn"@ {
                    Ok(UndoSpec::PutAway(object@))
                } else if a.kind@ == "thread.dismiss"@ {
                    Ok(UndoSpec::BringBack(object@))
                } else {
                    Err("NOT_UNDOABLE: no undo is written for "@ + a.kind@)
                },
            }
        },
    }
}

/// The step that undoes an action, or the refusal.
pub fn undo_step(action: Option<ActionRow>) -> (r: Result<UndoStep, String>)
    ensures
        match r {
            Ok(u) => undo_verdict(action) == Ok::<UndoSpec, Seq<char>>(undo_view(u)),
            Err(e) => undo_verdict(action) == Err::<UndoSpec, Seq<char>>(e@),
        },
{
    let a = match action {
        None => return Err("unknown action".to_owned()),
        Some(a) => a,
    };
    if a.undone {
        return Err("ALREADY_UNDONE: this action was already undone".to_owned());
    }
    let kind = chars_of(a.kind.as_str());
    if !a.undoable {
        let mut msg: Vec<char> = Vec::new();
        push_str(&mut msg, "NOT_UNDOABLE: a ");
        push_chars(&mut msg, &kind);
        push_str(&mut msg, " is not reversible from here");
        return Err(string_of(&msg));
    }
    let object = match a.object_id {
        None => return Err("the action names no object to act on".to_owned()),
        Some(o) => o,
    };
    if text_is(&kind, "thread.spawn") {
        Ok(UndoStep::PutAway(object))
    } else if text_is(&kind, "thread.dismiss") {
        Ok(UndoStep::BringBack(object))
    } else {
        let mut msg: Vec<char> = Vec::new();
        push_str(&mut msg, "NOT_UNDOABLE: no undo is written for ");
        push_chars(&mut msg, &kind);
        Err(string_of(&msg))
    }
}

/// Why a call is refused to any grant but the user's own window: arming an
/// orchestrator, undoing its action, and the device half of the dispatch
/// queue (the mute switch, the drain and the settle) belong to the user and
/// to the device that owns the terminal, never to an agent.
pub open spec fn local_only(c: Conduct) -> Option<Seq<char>> {
    match c {
        Conduct::Start { .. } => Some(
            "only Boite's own window arms an orchestrator; an agent cannot stamp the role"@,
        ),
        Conduct::Undo { .. } => Some(
            "only Boite's own window undoes an orchestrator action; an agent cannot"@,
        ),
        Conduct::AcceptDispatch { .. } | Conduct::Drain { .. } | Conduct::SettleDispatch { .. } => Some(
            "only a device drains, settles or mutes dispatches; an agent never touches the queue's device half"@,
        ),
        _ => None,
    }
}

impl Conduct {
    /// The refusal a call gets from any grant but the local one, or `None`
    /// when `local` is that grant or the call is not one of the local-only
    /// ones.
    pub fn grant_refusal(&self, local: bool) -> (r: Option<String>)
        ensures
            match r {
                Some(e) => !local && local_only(*self) == Some(e@),
                None => local || local_only(*self) is None,
            },
    {
        if local {
            return None;
        }
        match self {
            Conduct::Start { .. } => Some(
                "only Boite's own window arms an orchestrator; an agent cannot stamp the role".to_owned(),
            ),
            Conduct::Undo { .. } => Some(
                "only Boite's own window undoes an orchestrator action; an agent cannot".to_owned(),
            ),
            Conduct::AcceptDispatch { .. } | Conduct::Drain { .. } | Conduct::SettleDispatch { .. } => Some(
                "only a device drains, settles or mutes dispatches; an agent never touches the queue's device half".to_owned(),
            ),
            _ => None,
        }
    }
}

/// What the store says about the two ends of a dispatch, for a call that may
/// become a chat turn.
#[derive(Debug)]
pub struct DispatchFacts {
    /// Whether the target is driven by protocol rather than a terminal.
    pub target_is_pilot: bool,
    pub caller: Option<Orchestration>,
    pub target: Option<Orchestration>,
    /// The project the store files the target under.
    pub target_project: Result<String, String>,
    /// Whether that project has a live orchestrator of its own.
    pub project_taken: bool,
    pub target_accepts: bool,
}

/// The chat turn a conduct call is, when it is one, as the thread it lands
/// on and the text it carries: a user line to a scope whose orchestrator is
/// a chat thread (`scope_pilot` is that thread), or a dispatch into a chat
/// worker, which passes the same guards a queued line does. `None` is the
/// terminal path.
pub open spec fn pilot_turn_verdict(
    orchestrator_role: Seq<char>,
    c: Conduct,
    scope_pilot: Option<Seq<char>>,
    f: DispatchFacts,
) -> Result<Option<(Seq<char>, Seq<char>)>, Seq<char>> {
    match c {
        Conduct::Post { text, .. } => Ok(
            match scope_pilot {
                Some(id) => Some((id, text@)),
                None => None,
            },
        ),
        Conduct::Dispatch { to_thread_id, text, .. } => if !f.target_is_pilot {
            Ok(None)
        } else {
            match dispatch_verdict(
                orchestrator_role,
                f.caller,
                f.target,
                result_view(f.target_project),
                f.project_taken,
                f.target_accepts,
            ) {
                Err(e) => Err(e),
                Ok(_) => Ok(Some((to_thread_id@, text@))),
            }
        },
        _ => Ok(None),
    }
}

/// The pilot turn a conduct call becomes, when it becomes one.
pub fn as_pilot_turn(
    orchestrator_role: &str,
    c: &Conduct,
    scope_pilot: Option<String>,
    facts: DispatchFacts,
) -> (r: Result<Option<Pilot>, String>)
    ensures
        match r {
            Ok(None) => pilot_turn_verdict(orchestrator_role@, *c, opt_text(scope_pilot), facts)
                == Ok::<Option<(Seq<char>, Seq<char>)>, Seq<char>>(None),
            Ok(Some(p)) => match p {
                Pilot::TurnStart { thread_id, text, model } => model is None && pilot_turn_verdict(
                    orchestrator_role@,
                    *c,
                    opt_text(scope_pilot),
                    facts,
                ) == Ok::<Option<(Seq<char>, Seq<char>)>, Seq<char>>(Some((thread_id@, text@))),
                _ => false,
            },
            Err(e) => pilot_turn_verdict(orchestrator_role@, *c, opt_text(scope_pilot), facts)
                == Err::<Option<(Seq<char>, Seq<char>)>, Seq<char>>(e@),
        },
{
    match c {
        Conduct::Post { text, .. } => match scope_pilot {
            Some(id) => Ok(Some(Pilot::TurnStart { thread_id: id, text: text.clone(), model: None })),
            None => Ok(None),
        },
        Conduct::Dispatch { to_thread_id, text, .. } => {
            if !facts.target_is_pilot {
                return Ok(None);
            }
            match dispatch_target(
                orchestrator_role,
                facts.caller,
                facts.target,
                facts.target_project,
                facts.project_taken,
                facts.target_accepts,
            ) {
                Err(e) => Err(e),
                Ok(_) => Ok(
                    Some(
                        Pilot::TurnStart {
                            thread_id: to_thread_id.clone(),
                            text: text.clone(),
                            model: None,
                        },
                    ),
                ),
            }
        },
        _ => Ok(None),
    }
}

/// The three words a settle may write: anything else is a caller inventing a
/// state the readers of the dispatch table were never taught.
pub open spec fn known_settle_state(state: Seq<char>) -> bool {
    state == "delivered"@ || state == "dropped"@ || state == "refused"@
}

pub open spec fn unknown_settle_state(state: Seq<char>) -> Seq<char> {
    "unknown settle state "@ + state + "; it is one of delivered, dropped, refused"@
}

/// Whether a device's settle report names a state a dispatch may end in.
pub fn settle_state(state: &str) -> (r: Result<(), String>)
    ensures
        r is Ok <==> known_settle_state(state@),
        r matches Err(e) ==> e@ == unknown_settle_state(state@),
{
    let st = chars_of(state);
    if text_is(&st, "delivered") || text_is(&st, "dropped") || text_is(&st, "refused") {
        Ok(())
    } else {
        let mut msg: Vec<char> = Vec::new();
        push_str(&mut msg, "unknown settle state ");
        push_chars(&mut msg, &st);
        push_str(&mut msg, "; it is one of delivered, dropped, refused");
        Err(string_of(&msg))
    }
}

/// What a settle report that passed its state check comes to, once the store
/// has said whether this report settled the line: `settled` is the store's
/// answer, and only a report that settled it appends a `dispatch.settled`
/// moment, whose detail is the state, or the state and the reason. A line
/// already settled (most often by the expiry sweep racing the report) keeps
/// the first writer's word and appends nothing.
#[derive(Debug, Clone, PartialEq, Eq)]
pub struct SettleReport {
    pub settled: bool,
    /// The detail of the moment to append, when there is one.
    pub moment: Option<String>,
}

pub open spec fn settle_detail(state: Seq<char>, reason: Option<Seq<char>>) -> Seq<char> {
    match reason {
        Some(r) => state + ":"@ + r,
        None => state,
    }
}

pub fn settle_report(state: &str, reason: Option<&str>, settled_now: bool) -> (r: SettleReport)
    ensures
        r.settled == settled_now,
        settled_now ==> (r.moment matches Some(d) && d@ == settle_detail(state@, match reason {
            Some(x) => Some(x@),
            None => None,
        })),
        !settled_now ==> r.moment is None,
{
    if !settled_now {
        return SettleReport { settled: false, moment: None };
    }
    let mut detail: Vec<char> = chars_of(state);
    if let Some(x) = reason {
        push_str(&mut detail, ":");
        push_str(&mut detail, x);
    }
    SettleReport { settled: true, moment: Some(string_of(&detail)) }
}

pub open spec fn orchestrator_taken(holder: Seq<char>) -> Seq<char> {
    "ORCHESTRATOR_TAKEN: thread "@ + holder + " is already the live orchestrator for this scope"@
}

/// Whether a thread may start as the orchestrator of a scope whose live
/// holder, if any, is `holder`: one live holder per scope, and the same thread
/// asking again is a restart, not a conflict. (A holder whose row is settled
/// is no live holder; the store does not report it.)
pub fn start_holder(holder: Option<String>, thread_id: &str) -> (r: Result<(), String>)
    ensures
        r is Err <==> (holder matches Some(h) && h@ != thread_id@),
        r matches Err(e) ==> (holder matches Some(h) && e@ == orchestrator_taken(h@)),
{
    match holder {
        None => Ok(()),
        Some(h) => {
            let hc = chars_of(h.as_str());
            if chars_eq(&hc, &chars_of(thread_id)) {
                Ok(())
            } else {
                let mut msg: Vec<char> = Vec::new();
                push_str(&mut msg, "ORCHESTRATOR_TAKEN: thread ");
                push_chars(&mut msg, &hc);
                push_str(&mut msg, " is already the live orchestrator for this scope");
                Err(string_of(&msg))
            }
        },
    }
}

/// The queue changes hands with the scope: a start scoped to a project settles
/// as refused (`SCOPE_TAKEN`) every line queued into that project, `queued`,
/// and a global start settles nothing.
pub fn scope_handover(scope: &Option<String>, queued: Vec<String>) -> (r: Vec<String>)
    ensures
        scope is Some ==> r@ == queued@,
        scope is None ==> r@.len() == 0,
{
    match scope {
        Some(_) => queued,
        None => Vec::new(),
    }
}

/// The mute switch: the accept flag to store, and the queued lines to settle
/// as dropped (reason `muted`), each a moment. Muting empties the backlog, a
/// mute that let queued lines land later would be no mute; rearming drops
/// nothing.
pub fn accept_switch(accept: bool, queued: Vec<String>) -> (r: (bool, Vec<String>))
    ensures
        r.0 == accept,
        r.1@ == (if accept { Seq::<String>::empty() } else { queued@ }),
{
    if accept {
        (true, Vec::new())
    } else {
        (false, queued)
    }
}

/// The answer to `orchestrator.status`: the live orchestrator of the scope,
/// if any; whether it is a chat thread; and, for a chat one only, the status
/// word its row carries.
#[derive(Debug, Clone, PartialEq, Eq)]
pub struct StatusAnswer {
    pub thread_id: Option<String>,
    pub pilot: bool,
    pub status: Option<String>,
}

pub fn status_answer(found: Option<String>, is_pilot: bool, row_status: Option<String>) -> (r: StatusAnswer)
    ensures
        opt_text(r.thread_id) == opt_text(found),
        r.pilot == (found is Some && is_pilot),
        opt_text(r.status) == (if found is Some && is_pilot {
            opt_text(row_status)
        } else {
            None
        }),
{
    match found {
        None => StatusAnswer { thread_id: None, pilot: false, status: None },
        Some(id) => if is_pilot {
            StatusAnswer { thread_id: Some(id), pilot: true, status: row_status }
        } else {
            StatusAnswer { thread_id: Some(id), pilot: false, status: None }
        },
    }
}

/// The rows an undo reads and writes: the recorded action under the id asked
/// for, if there is one, and the settled time of the thread that action names.
#[derive(Debug, Clone, PartialEq, Eq)]
pub struct UndoRows {
    pub action: Option<ActionRow>,
    pub settled_at: Option<i64>,
}

/// An action once undone: the same row, stamped.
pub open spec fn marked_undone(a: ActionRow) -> ActionRow {
    ActionRow { kind: a.kind, object_id: a.object_id, undoable: a.undoable, undone: true }
}

/// What an undo leaves behind, or why nothing was written. Putting a spawned
/// worker away obeys the busy rule like any settle (`busy_refusal` is that
/// rule's refusal for the thread, `None` when it may be put away); bringing a
/// dismissed thread back clears its settled time. Either way the action is
/// marked undone. A refused undo writes nothing at all.
pub open spec fn undo_outcome(rows: UndoRows, busy_refusal: Option<Seq<char>>, now: i64) -> Result<UndoRows, Seq<char>> {
    match undo_verdict(rows.action) {
        Err(e) => Err(e),
        Ok(UndoSpec::PutAway(_)) => match busy_refusal {
            Some(b) => Err(b),
            None => Ok(UndoRows { action: Some(marked_undone(rows.action->Some_0)), settled_at: Some(now) }),
        },
        Ok(UndoSpec::BringBack(_)) => Ok(UndoRows { action: Some(marked_undone(rows.action->Some_0)), settled_at: None }),
    }
}

fn copy_text(o: &Option<String>) -> (r: Option<String>)
    ensures
        r == *o,
{
    match o {
        Some(t) => Some(t.clone()),
        None => None,
    }
}

/// Undoes a recorded orchestrator action: the rows as they stand after it,
/// or the refusal, with nothing written.
pub fn undo(rows: UndoRows, busy_refusal: Option<String>, now: i64) -> (r: Result<UndoRows, String>)
    ensures
        match r {
            Ok(next) => undo_outcome(rows, opt_text(busy_refusal), now) == Ok::<UndoRows, Seq<char>>(next),
            Err(e) => undo_outcome(rows, opt_text(busy_refusal), now) == Err::<UndoRows, Seq<char>>(e@),
        },
{
    let a = match rows.action {
        None => return Err("unknown action".to_owned()),
        Some(a) => a,
    };
    let ghost row = a;
    let marked = ActionRow { kind: a.kind.clone(), object_id: copy_text(&a.object_id), undoable: a.undoable, undone: true };
    match undo_step(Some(a)) {
        Err(e) => Err(e),
        Ok(UndoStep::PutAway(_)) => match busy_refusal {
            Some(b) => Err(b),
            None => {
                assert(marked == marked_undone(row));
                Ok(UndoRows { action: Some(marked), settled_at: Some(now) })
            },
        },
        Ok(UndoStep::BringBack(_)) => {
            assert(marked == marked_undone(row));
            Ok(UndoRows { action: Some(marked), settled_at: None })
        },
    }
}

/// Undoing the same action twice is refused: once an undo went through, a
/// second one, whatever the thread's state, is answered `ALREADY_UNDONE` and
/// writes nothing.
pub proof fn lemma_undo_is_refused_twice(rows: UndoRows, busy: Option<Seq<char>>, now: i64, busy2: Option<Seq<char>>, later: i64)
    requires
        undo_outcome(rows, busy, now) is Ok,
    ensures
        undo_outcome(undo_outcome(rows, busy, now)->Ok_0, busy2, later)
            == Err::<UndoRows, Seq<char>>("ALREADY_UNDONE: this action was already undone"@),
{
}

/// Undoing a dismissal brings the thread back out: its settled time is
/// cleared and the action is marked undone.
pub proof fn lemma_undone_dismissal_is_live(rows: UndoRows, busy: Option<Seq<char>>, now: i64)
    requires
        rows.action matches Some(a) && a.kind@ == "thread.dismiss"@ && a.undoable && !a.undone && a.object_id is Some,
    ensures
        undo_outcome(rows, busy, now) matches Ok(next) && next.settled_at is None && next.action == Some(
            marked_undone(rows.action->Some_0),
        ),
{
    reveal_strlit("thread.dismiss");
    reveal_strlit("thread.spawn");
    assert("thread.dismiss"@.len() != "thread.spawn"@.len());
    assert(rows.action->Some_0.kind@ != "thread.spawn"@);
}

/// A queued line as a settle sees it: `None` while it is open, else the state
/// it settled in and the reason given with it.
#[derive(Debug, Clone, PartialEq, Eq)]
pub struct DispatchLine {
    pub outcome: Option<(String, Option<String>)>,
}

pub open spec fn line_view(l: DispatchLine) -> Option<(Seq<char>, Option<Seq<char>>)> {
    match l.outcome {
        Some((s, r)) => Some((s@, opt_text(r))),
        None => None,
    }
}

pub open spec fn opt_str(o: Option<&str>) -> Option<Seq<char>> {
    match o {
        Some(s) => Some(s@),
        None => None,
    }
}

/// What a device's settle report does to a line: the line after it, and the
/// answer (settled or not, and the moment appended, if any).
pub open spec fn settle_outcome(
    line: Option<(Seq<char>, Option<Seq<char>>)>,
    state: Seq<char>,
    reason: Option<Seq<char>>,
) -> Result<(Option<(Seq<char>, Option<Seq<char>>)>, bool, Option<Seq<char>>), Seq<char>> {
    if !known_settle_state(state) {
        Err(unknown_settle_state(state))
    } else if line is None {
        Ok((Some((state, reason)), true, Some(settle_detail(state, reason))))
    } else {
        Ok((line, false, None))
    }
}

/// Settles one queued line on a device's report: an open line takes the
/// report's state and reason and the report appends its moment; a line
/// already settled keeps the first writer's word.
pub fn settle_line(line: DispatchLine, state: &str, reason: Option<&str>) -> (r: Result<(DispatchLine, SettleReport), String>)
    ensures
        match r {
            Ok((next, report)) => settle_outcome(line_view(line), state@, opt_str(reason)) == Ok::<
                (Option<(Seq<char>, Option<Seq<char>>)>, bool, Option<Seq<char>>),
                Seq<char>,
            >((line_view(next), report.settled, opt_text(report.moment))),
            Err(e) => settle_outcome(line_view(line), state@, opt_str(reason)) == Err::<
                (Option<(Seq<char>, Option<Seq<char>>)>, bool, Option<Seq<char>>),
                Seq<char>,
            >(e@),
        },
{
    settle_state(state)?;
    let open = line.outcome.is_none();
    let report = settle_report(state, reason, open);
    if open {
        let given: Option<String> = match reason {
            Some(x) => Some(x.to_owned()),
            None => None,
        };
        let next = DispatchLine { outcome: Some((state.to_owned(), given)) };
        proof {
            assert(line_view(next) == Some((state@, opt_str(reason))));
        }
        Ok((next, report))
    } else {
        Ok((line, report))
    }
}

/// A line settles once: after a report settled it, any later report leaves
/// the line as the first left it, settles nothing and appends no moment (or
/// is refused for naming no state at all).
pub proof fn lemma_a_line_settles_once(
    line: Option<(Seq<char>, Option<Seq<char>>)>,
    state: Seq<char>,
    reason: Option<Seq<char>>,
    state2: Seq<char>,
    reason2: Option<Seq<char>>,
)
    requires
        settle_outcome(line, state, reason) is Ok,
    ensures
        ({
            let first = settle_outcome(line, state, reason)->Ok_0;
            match settle_outcome(first.0, state2, reason2) {
                Ok(second) => second.0 == first.0 && !second.1 && second.2 is None,
                Err(e) => e == unknown_settle_state(state2),
            }
        }),
{
}

/// What one read of the moments since a cursor found: the sequence number of
/// the last moment read (`None` when there was none) and whether the cursor
/// had fallen out of the ring.
#[derive(Debug, Clone, Copy, PartialEq, Eq)]
pub struct PulseRead {
    pub last_seq: Option<i64>,
    pub truncated: bool,
}

/// A pulse's answer besides the moments themselves: the cursor to ask from
/// next, whether the wait ran out with nothing to say, and whether moments
/// were lost to the ring.
#[derive(Debug, Clone, Copy, PartialEq, Eq)]
pub struct PulseAnswer {
    pub seq: i64,
    pub timed_out: bool,
    pub truncated: bool,
}

/// What a pulse does after its first read: wait on the registry for so many
/// milliseconds, or answer now.
#[derive(Debug, Clone, Copy, PartialEq, Eq)]
pub enum PulseNext {
    Wait(u64),
    Answer(PulseAnswer),
}

/// How a wait on the registry ended: woken by a record (and what the read
/// after it found), run out, or replaced by a newer pulse of the same caller.
#[derive(Debug, Clone, Copy, PartialEq, Eq)]
pub enum PulseWoke {
    Woken(PulseRead),
    TimedOut,
    Superseded,
}

/// The cursor a pulse answers with: the last moment read, or, with nothing
/// read, the newest moment there is (`latest`), never behind the caller's own.
pub open spec fn pulse_seq(read: PulseRead, latest: i64, since_seq: i64) -> i64 {
    match read.last_seq {
        Some(s) => s,
        None => if latest >= since_seq {
            latest
        } else {
            since_seq
        },
    }
}

pub open spec fn pulse_timeout(timeout_ms: u64, max_timeout_ms: u64) -> u64 {
    if timeout_ms <= max_timeout_ms {
        timeout_ms
    } else {
        max_timeout_ms
    }
}

/// The first step of a pulse: with moments to hand back it answers at once;
/// with none it waits, capped at `max_timeout_ms`, when the host has a waiter
/// registry and the caller asked for a wait; otherwise the empty answer now is
/// the honest one, timed out when a wait was asked for.
pub fn read_pulse(read: PulseRead, has_waiters: bool, timeout_ms: u64, max_timeout_ms: u64, latest: i64, since_seq: i64) -> (r: PulseNext)
    ensures
        read.last_seq is Some ==> r == PulseNext::Answer(
            PulseAnswer { seq: read.last_seq->Some_0, timed_out: false, truncated: read.truncated },
        ),
        read.last_seq is None && has_waiters && pulse_timeout(timeout_ms, max_timeout_ms) > 0 ==> r == PulseNext::Wait(
            pulse_timeout(timeout_ms, max_timeout_ms),
        ),
        read.last_seq is None && !(has_waiters && pulse_timeout(timeout_ms, max_timeout_ms) > 0) ==> r == PulseNext::Answer(
            PulseAnswer {
                seq: pulse_seq(read, latest, since_seq),
                timed_out: pulse_timeout(timeout_ms, max_timeout_ms) > 0,
                truncated: read.truncated,
            },
        ),
{
    let timeout = if timeout_ms <= max_timeout_ms { timeout_ms } else { max_timeout_ms };
    match read.last_seq {
        Some(s) => PulseNext::Answer(PulseAnswer { seq: s, timed_out: false, truncated: read.truncated }),
        None => if has_waiters && timeout > 0 {
            PulseNext::Wait(timeout)
        } else {
            let seq = if latest >= since_seq { latest } else { since_seq };
            PulseNext::Answer(PulseAnswer { seq, timed_out: timeout > 0, truncated: read.truncated })
        },
    }
}

/// The answer after a wait: a wake answers with what the read after it
/// found; a wait that ran out answers empty and timed out; a pulse replaced
/// by a newer one from the same caller is refused by name, never answered
/// with a timeout that did not happen.
pub fn pulse_after_wait(woke: PulseWoke, first: PulseRead, latest: i64, since_seq: i64) -> (r: Result<PulseAnswer, String>)
    ensures
        match woke {
            PulseWoke::Woken(again) => r == Ok::<PulseAnswer, String>(
                PulseAnswer { seq: pulse_seq(again, latest, since_seq), timed_out: false, truncated: again.truncated },
            ),
            PulseWoke::TimedOut => r == Ok::<PulseAnswer, String>(
                PulseAnswer { seq: pulse_seq(first, latest, since_seq), timed_out: true, truncated: first.truncated },
            ),
            PulseWoke::Superseded => (r matches Err(e)
                && e@ == "PULSE_SUPERSEDED: a newer pulse from the same caller replaced this one"@),
        },
{
    match woke {
        PulseWoke::Woken(again) => {
            let seq = match again.last_seq {
                Some(s) => s,
                None => if latest >= since_seq { latest } else { since_seq },
            };
            Ok(PulseAnswer { seq, timed_out: false, truncated: again.truncated })
        },
        PulseWoke::TimedOut => {
            let seq = match first.last_seq {
                Some(s) => s,
                None => if latest >= since_seq { latest } else { since_seq },
            };
            Ok(PulseAnswer { seq, timed_out: true, truncated: first.truncated })
        },
        PulseWoke::Superseded => Err("PULSE_SUPERSEDED: a newer pulse from the same caller replaced this one".to_owned()),
    }
}

/// Puts a finished worker away on the orchestrator's word. `target` is what
/// the guards every orchestrator-to-worker verb shares answered (see
/// [`conducted_target`]), and `busy_refusal` the busy rule's refusal for the
/// worker, `None` when it may be put away. What it writes: the worker's
/// settled time, `now`, with a moment in the target's project.
pub fn dismiss(target: Result<String, String>, busy_refusal: Option<String>, now: i64) -> (r: Result<(String, i64), String>)
    ensures
        match target {
            Err(e) => (r matches Err(x) && x@ == e@),
            Ok(p) => match busy_refusal {
                Some(b) => (r matches Err(x) && x@ == b@),
                None => (r matches Ok((q, at)) && q@ == p@ && at == now),
            },
        },
{
    let project = target?;
    match busy_refusal {
        Some(b) => Err(b),
        None => Ok((project, now)),
    }
}

} // verus!

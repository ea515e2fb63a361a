//! The `pilot.*` domain: threads driven by protocol rather than by a
//! terminal. A call is decoded here, says what it needs and which thread it is
//! about; the session itself runs where the host keeps its runtime.

use vstd::prelude::*;

use crate::command::params::{
    bool_member, bool_param, find_member, i64_member, i64_param, member, missing, opt_str_param,
    opt_text, str_member, str_param, take_member, u64_member, u64_param, Param, Params,
};
use crate::agent::{first_with_id, ProjectRow};
use crate::command::table::all_methods;
use crate::command::{capability_in, lemma_capability_by_name, wire_shape, Capability, Wire, WireShape};
use crate::text::{chars_of, push_str, string_of, strs, text_is};

verus! {

/// How much a chat agent may do on its own.
#[derive(Debug, Clone, Copy, PartialEq, Eq, Structural)]
pub enum ExecMode {
    /// Ask before every action.
    Ask,
    /// Edit files without asking; ask for anything else.
    EditAlone,
    /// Do anything without asking.
    Yolo,
}

/// The mode a pilot call names: `ask` when it names none.
pub open spec fn mode_verdict(raw: Option<Seq<char>>) -> Result<ExecMode, Seq<char>> {
    let m = match raw {
        Some(r) => r,
        None => "ask"@,
    };
    if m == "ask"@ {
        Ok(ExecMode::Ask)
    } else if m == "editAlone"@ || m == "edit_alone"@ {
        Ok(ExecMode::EditAlone)
    } else if m == "yolo"@ {
        Ok(ExecMode::Yolo)
    } else {
        Err("unknown pilot mode: "@ + m)
    }
}

pub fn mode_of(raw: Option<&str>) -> (r: Result<ExecMode, String>)
    ensures
        match r {
            Ok(m) => mode_verdict(match raw {
                Some(x) => Some(x@),
                None => None,
            }) == Ok::<ExecMode, Seq<char>>(m),
            Err(e) => mode_verdict(match raw {
                Some(x) => Some(x@),
                None => None,
            }) == Err::<ExecMode, Seq<char>>(e@),
        },
{
    let m = match raw {
        Some(x) => chars_of(x),
        None => chars_of("ask"),
    };
    if text_is(&m, "ask") {
        Ok(ExecMode::Ask)
    } else if text_is(&m, "editAlone") || text_is(&m, "edit_alone") {
        Ok(ExecMode::EditAlone)
    } else if text_is(&m, "yolo") {
        Ok(ExecMode::Yolo)
    } else {
        let mut msg: Vec<char> = Vec::new();
        push_str(&mut msg, "unknown pilot mode: ");
        crate::text::push_chars(&mut msg, &m);
        Err(string_of(&msg))
    }
}

/// The timeline position a read starts after: `afterSeq` when it is a
/// whole number that fits an `i64`, never below zero.
pub open spec fn cursor_of(p: Params) -> i64 {
    match i64_member(p, "afterSeq"@) {
        Some(n) => if n < 0 {
            0
        } else {
            n
        },
        None => 0,
    }
}

pub fn cursor(params: &Params) -> (r: i64)
    ensures
        r == cursor_of(*params),
        r >= 0,
{
    match i64_param(params, "afterSeq") {
        Some(n) => if n < 0 {
            0
        } else {
            n
        },
        None => 0,
    }
}

/// How many timeline items a read returns: `limit` or 200, held between 1
/// and 1000.
pub open spec fn read_limit(p: Params) -> usize {
    let asked: usize = match u64_member(p, "limit"@) {
        Some(n) => n as usize,
        None => 200,
    };
    if asked < 1 {
        1
    } else if asked > 1000 {
        1000
    } else {
        asked
    }
}

pub fn limit(params: &Params) -> (r: usize)
    ensures
        r == read_limit(*params),
        1 <= r <= 1000,
{
    let asked: usize = match u64_param(params, "limit") {
        Some(n) => n as usize,
        None => 200,
    };
    if asked < 1 {
        1
    } else if asked > 1000 {
        1000
    } else {
        asked
    }
}

/// One call on a thread driven by protocol rather than by a terminal.
#[derive(Debug)]
pub enum Pilot {
    /// The drivers this build ships with their capabilities, the instances the
    /// settings declare, and the fastpick routes merged in as virtual ones.
    Catalog {
        refresh: bool,
    },
    /// Start or resume the native session of a chat thread.
    Open {
        thread_id: String,
    },
    /// A user turn. A turn already running receives the text as steering.
    TurnStart {
        thread_id: String,
        text: String,
        model: Option<String>,
    },
    TurnInterrupt {
        thread_id: String,
    },
    /// The answer to an open request, by the option the driver offered.
    Respond {
        thread_id: String,
        request_id: String,
        option: String,
    },
    /// A model for the thread, and the account to answer on as the client sent
    /// it: absent or null is the one the thread already runs on.
    ModelSet {
        thread_id: String,
        model: Option<String>,
        instance: Option<Param>,
    },
    ModeSet {
        thread_id: String,
        mode: ExecMode,
    },
    /// Polite stop. The native session stays resumable.
    Stop {
        thread_id: String,
    },
    Items {
        thread_id: String,
        after_seq: i64,
        limit: usize,
    },
    Events {
        thread_id: String,
        after_seq: i64,
        limit: usize,
    },
    /// A device asks to be pushed this thread's events, or to stop being pushed
    /// them. Which socket to push at is the transport's own bookkeeping.
    Subscribe {
        thread_id: String,
        on: bool,
    },
}

pub open spec fn pilot_name(x: Pilot) -> Seq<char> {
    match x {
        Pilot::Catalog { .. } => "pilot.catalog"@,
        Pilot::Open { .. } => "pilot.thread.open"@,
        Pilot::TurnStart { .. } => "pilot.turn.start"@,
        Pilot::TurnInterrupt { .. } => "pilot.turn.interrupt"@,
        Pilot::Respond { .. } => "pilot.request.respond"@,
        Pilot::ModelSet { .. } => "pilot.model.set"@,
        Pilot::ModeSet { .. } => "pilot.mode.set"@,
        Pilot::Stop { .. } => "pilot.session.stop"@,
        Pilot::Items { .. } => "pilot.items"@,
        Pilot::Events { .. } => "pilot.events"@,
        Pilot::Subscribe { on: true, .. } => "pilot.subscribe"@,
        Pilot::Subscribe { on: false, .. } => "pilot.unsubscribe"@,
    }
}

pub open spec fn pilot_wire(x: Pilot) -> WireShape {
    match x {
        Pilot::Catalog { .. } => WireShape::Bare,
        Pilot::Open { .. } => WireShape::Bare,
        Pilot::TurnStart { .. } => WireShape::Bare,
        Pilot::TurnInterrupt { .. } => WireShape::Bare,
        Pilot::Respond { .. } => WireShape::Bare,
        Pilot::ModelSet { .. } => WireShape::Bare,
        Pilot::ModeSet { .. } => WireShape::Bare,
        Pilot::Stop { .. } => WireShape::Bare,
        Pilot::Items { .. } => WireShape::Key("items"@),
        Pilot::Events { .. } => WireShape::Key("events"@),
        Pilot::Subscribe { on: true, .. } => WireShape::Ack,
        Pilot::Subscribe { on: false, .. } => WireShape::Ack,
    }
}

/// Reading a timeline is a read, and so is asking to be pushed what is about
/// to be written to it. Everything else spends the machine: a turn is an
/// agent running tools in a checkout, and answering a request is what lets
/// one run.
pub open spec fn pilot_capability(x: Pilot) -> Capability {
    match x {
        Pilot::Catalog { .. } => Capability::ReadProject,
        Pilot::Open { .. } => Capability::MutateProject,
        Pilot::TurnStart { .. } => Capability::MutateProject,
        Pilot::TurnInterrupt { .. } => Capability::MutateProject,
        Pilot::Respond { .. } => Capability::MutateProject,
        Pilot::ModelSet { .. } => Capability::MutateProject,
        Pilot::ModeSet { .. } => Capability::MutateProject,
        Pilot::Stop { .. } => Capability::MutateProject,
        Pilot::Items { .. } => Capability::ReadProject,
        Pilot::Events { .. } => Capability::ReadProject,
        Pilot::Subscribe { on: true, .. } => Capability::ReadProject,
        Pilot::Subscribe { on: false, .. } => Capability::ReadProject,
    }
}

/// Whether `x` is what method `m` with parameters `p` decodes into: the
/// method's own variant, each argument read from the member of its name.
pub open spec fn pilot_decoded(m: Seq<char>, p: Params, x: Pilot) -> bool {
    if m == "pilot.catalog"@ {
        match x {
            Pilot::Catalog { refresh } => {
                &&& refresh == bool_member(p, "refresh"@, false)
            },
            _ => false,
        }
    } else if m == "pilot.thread.open"@ {
        match x {
            Pilot::Open { thread_id } => {
                &&& str_member(p, "threadId"@) == Some(thread_id@)
            },
            _ => false,
        }
    } else if m == "pilot.turn.start"@ {
        match x {
            Pilot::TurnStart { thread_id, text, model } => {
                &&& str_member(p, "threadId"@) == Some(thread_id@)
                &&& str_member(p, "text"@) == Some(text@)
                &&& str_member(p, "model"@) == opt_text(model)
            },
            _ => false,
        }
    } else if m == "pilot.turn.interrupt"@ {
        match x {
            Pilot::TurnInterrupt { thread_id } => {
                &&& str_member(p, "threadId"@) == Some(thread_id@)
            },
            _ => false,
        }
    } else if m == "pilot.request.respond"@ {
        match x {
            Pilot::Respond { thread_id, request_id, option } => {
                &&& str_member(p, "threadId"@) == Some(thread_id@)
                &&& str_member(p, "requestId"@) == Some(request_id@)
                &&& str_member(p, "option"@) == Some(option@)
            },
            _ => false,
        }
    } else if m == "pilot.model.set"@ {
        match x {
            Pilot::ModelSet { thread_id, model, instance } => {
                &&& str_member(p, "threadId"@) == Some(thread_id@)
                &&& str_member(p, "model"@) == opt_text(model)
                &&& (match member(p.fields@, "instance"@) { Some(Param::Null) => instance is None, Some(v) => instance == Some(v), None => instance is None })
            },
            _ => false,
        }
    } else if m == "pilot.mode.set"@ {
        match x {
            Pilot::ModeSet { thread_id, mode } => {
                &&& str_member(p, "threadId"@) == Some(thread_id@)
                &&& mode_verdict(str_member(p, "mode"@)) == Ok::<ExecMode, Seq<char>>(mode)
            },
            _ => false,
        }
    } else if m == "pilot.session.stop"@ {
        match x {
            Pilot::Stop { thread_id } => {
                &&& str_member(p, "threadId"@) == Some(thread_id@)
            },
            _ => false,
        }
    } else if m == "pilot.items"@ {
        match x {
            Pilot::Items { thread_id, after_seq, limit } => {
                &&& str_member(p, "threadId"@) == Some(thread_id@)
                &&& after_seq == cursor_of(p)
                &&& limit == read_limit(p)
            },
            _ => false,
        }
    } else if m == "pilot.events"@ {
        match x {
            Pilot::Events { thread_id, after_seq, limit } => {
                &&& str_member(p, "threadId"@) == Some(thread_id@)
                &&& after_seq == cursor_of(p)
                &&& limit == read_limit(p)
            },
            _ => false,
        }
    } else if m == "pilot.subscribe"@ {
        match x {
            Pilot::Subscribe { thread_id, on } => {
                &&& str_member(p, "threadId"@) == Some(thread_id@)
                &&& on == true
            },
            _ => false,
        }
    } else if m == "pilot.unsubscribe"@ {
        match x {
            Pilot::Subscribe { thread_id, on } => {
                &&& str_member(p, "threadId"@) == Some(thread_id@)
                &&& on == false
            },
            _ => false,
        }
    } else {
        false
    }
}

/// Why method `m` with parameters `p` does not decode: the first argument
/// that cannot be read, or a method this domain does not serve.
pub open spec fn pilot_decode_error(m: Seq<char>, p: Params) -> Option<Seq<char>> {
    if m == "pilot.catalog"@ {
        None
    } else if m == "pilot.thread.open"@ {
        if str_member(p, "threadId"@) is None {
            Some(missing("threadId"@))
        } else {
            None
        }
    } else if m == "pilot.turn.start"@ {
        if str_member(p, "threadId"@) is None {
            Some(missing("threadId"@))
        } else if str_member(p, "text"@) is None {
            Some(missing("text"@))
        } else {
            None
        }
    } else if m == "pilot.turn.interrupt"@ {
        if str_member(p, "threadId"@) is None {
            Some(missing("threadId"@))
        } else {
            None
        }
    } else if m == "pilot.request.respond"@ {
        if str_member(p, "threadId"@) is None {
            Some(missing("threadId"@))
        } else if str_member(p, "requestId"@) is None {
            Some(missing("requestId"@))
        } else if str_member(p, "option"@) is None {
            Some(missing("option"@))
        } else {
            None
        }
    } else if m == "pilot.model.set"@ {
        if str_member(p, "threadId"@) is None {
            Some(missing("threadId"@))
        } else {
            None
        }
    } else if m == "pilot.mode.set"@ {
        if str_member(p, "threadId"@) is None {
            Some(missing("threadId"@))
        } else if mode_verdict(str_member(p, "mode"@)) is Err {
            Some(mode_verdict(str_member(p, "mode"@))->Err_0)
        } else {
            None
        }
    } else if m == "pilot.session.stop"@ {
        if str_member(p, "threadId"@) is None {
            Some(missing("threadId"@))
        } else {
            None
        }
    } else if m == "pilot.items"@ {
        if str_member(p, "threadId"@) is None {
            Some(missing("threadId"@))
        } else {
            None
        }
    } else if m == "pilot.events"@ {
        if str_member(p, "threadId"@) is None {
            Some(missing("threadId"@))
        } else {
            None
        }
    } else if m == "pilot.subscribe"@ {
        if str_member(p, "threadId"@) is None {
            Some(missing("threadId"@))
        } else {
            None
        }
    } else if m == "pilot.unsubscribe"@ {
        if str_member(p, "threadId"@) is None {
            Some(missing("threadId"@))
        } else {
            None
        }
    } else {
        Some("unknown pilot method: "@ + m)
    }
}

/// The thread a call is about.
pub open spec fn pilot_thread(x: Pilot) -> Option<Seq<char>> {
    match x {
        Pilot::Catalog { .. } => None,
        Pilot::Open { thread_id } => Some(thread_id@),
        Pilot::TurnStart { thread_id, .. } => Some(thread_id@),
        Pilot::TurnInterrupt { thread_id } => Some(thread_id@),
        Pilot::Respond { thread_id, .. } => Some(thread_id@),
        Pilot::ModelSet { thread_id, .. } => Some(thread_id@),
        Pilot::ModeSet { thread_id, .. } => Some(thread_id@),
        Pilot::Stop { thread_id } => Some(thread_id@),
        Pilot::Items { thread_id, .. } => Some(thread_id@),
        Pilot::Events { thread_id, .. } => Some(thread_id@),
        Pilot::Subscribe { thread_id, .. } => Some(thread_id@),
    }
}

impl Pilot {
    /// Reads a method name and its parameters into a command. The refusal
    /// names the first argument that cannot be read, or the method nobody
    /// serves.
    pub fn decode(method: &str, params: Params) -> (r: Result<Pilot, String>)
        ensures
            match r {
                Ok(x) => pilot_decode_error(method@, params) is None && pilot_decoded(method@, params, x)
                    && pilot_name(x) == method@,
                Err(e) => pilot_decode_error(method@, params) == Some(e@),
            },
    {
        let m = chars_of(method);
        if text_is(&m, "pilot.catalog") {
            let refresh = bool_param(&params, "refresh", false);
            return Ok(Pilot::Catalog { refresh });
        }
        if text_is(&m, "pilot.thread.open") {
            let thread_id = match str_param(&params, "threadId") {
                Ok(v) => v,
                Err(e) => return Err(e),
            };
            return Ok(Pilot::Open { thread_id });
        }
        if text_is(&m, "pilot.turn.start") {
            let thread_id = match str_param(&params, "threadId") {
                Ok(v) => v,
                Err(e) => return Err(e),
            };
            let text = match str_param(&params, "text") {
                Ok(v) => v,
                Err(e) => return Err(e),
            };
            let model = opt_str_param(&params, "model");
            return Ok(Pilot::TurnStart { thread_id, text, model });
        }
        if text_is(&m, "pilot.turn.interrupt") {
            let thread_id = match str_param(&params, "threadId") {
                Ok(v) => v,
                Err(e) => return Err(e),
            };
            return Ok(Pilot::TurnInterrupt { thread_id });
        }
        if text_is(&m, "pilot.request.respond") {
            let thread_id = match str_param(&params, "threadId") {
                Ok(v) => v,
                Err(e) => return Err(e),
            };
            let request_id = match str_param(&params, "requestId") {
                Ok(v) => v,
                Err(e) => return Err(e),
            };
            let option = match str_param(&params, "option") {
                Ok(v) => v,
                Err(e) => return Err(e),
            };
            return Ok(Pilot::Respond { thread_id, request_id, option });
        }
        if text_is(&m, "pilot.model.set") {
            let thread_id = match str_param(&params, "threadId") {
                Ok(v) => v,
                Err(e) => return Err(e),
            };
            let model = opt_str_param(&params, "model");
            let instance = match take_member(params, "instance") {
                Some(Param::Null) => None,
                Some(v) => Some(v),
                None => None,
            };
            return Ok(Pilot::ModelSet { thread_id, model, instance });
        }
        if text_is(&m, "pilot.mode.set") {
            let thread_id = match str_param(&params, "threadId") {
                Ok(v) => v,
                Err(e) => return Err(e),
            };
            let raw_mode = opt_str_param(&params, "mode");
            let mode = match mode_of(match &raw_mode {
                Some(s) => Some(s.as_str()),
                None => None,
            }) {
                Ok(m) => m,
                Err(e) => return Err(e),
            };
            return Ok(Pilot::ModeSet { thread_id, mode });
        }
        if text_is(&m, "pilot.session.stop") {
            let thread_id = match str_param(&params, "threadId") {
                Ok(v) => v,
                Err(e) => return Err(e),
            };
            return Ok(Pilot::Stop { thread_id });
        }
        if text_is(&m, "pilot.items") {
            let thread_id = match str_param(&params, "threadId") {
                Ok(v) => v,
                Err(e) => return Err(e),
            };
            let after_seq = cursor(&params);
            let limit = limit(&params);
            return Ok(Pilot::Items { thread_id, after_seq, limit });
        }
        if text_is(&m, "pilot.events") {
            let thread_id = match str_param(&params, "threadId") {
                Ok(v) => v,
                Err(e) => return Err(e),
            };
            let after_seq = cursor(&params);
            let limit = limit(&params);
            return Ok(Pilot::Events { thread_id, after_seq, limit });
        }
        if text_is(&m, "pilot.subscribe") {
            let thread_id = match str_param(&params, "threadId") {
                Ok(v) => v,
                Err(e) => return Err(e),
            };
            let on = true;
            return Ok(Pilot::Subscribe { thread_id, on });
        }
        if text_is(&m, "pilot.unsubscribe") {
            let thread_id = match str_param(&params, "threadId") {
                Ok(v) => v,
                Err(e) => return Err(e),
            };
            let on = false;
            return Ok(Pilot::Subscribe { thread_id, on });
        }
        let mut msg: Vec<char> = Vec::new();
        push_str(&mut msg, "unknown pilot method: ");
        push_str(&mut msg, method);
        Err(string_of(&msg))
    }

    /// The wire name this command answers to.
    pub fn name(&self) -> (r: &'static str)
        ensures
            r@ == pilot_name(*self),
    {
        match self {
            Pilot::Catalog { .. } => "pilot.catalog",
            Pilot::Open { .. } => "pilot.thread.open",
            Pilot::TurnStart { .. } => "pilot.turn.start",
            Pilot::TurnInterrupt { .. } => "pilot.turn.interrupt",
            Pilot::Respond { .. } => "pilot.request.respond",
            Pilot::ModelSet { .. } => "pilot.model.set",
            Pilot::ModeSet { .. } => "pilot.mode.set",
            Pilot::Stop { .. } => "pilot.session.stop",
            Pilot::Items { .. } => "pilot.items",
            Pilot::Events { .. } => "pilot.events",
            Pilot::Subscribe { on: true, .. } => "pilot.subscribe",
            Pilot::Subscribe { on: false, .. } => "pilot.unsubscribe",
        }
    }

    /// How the WebSocket protocol wraps this command's answer.
    pub fn wire(&self) -> (r: Wire)
        ensures
            wire_shape(r) == pilot_wire(*self),
    {
        match self {
            Pilot::Catalog { .. } => Wire::Bare,
            Pilot::Open { .. } => Wire::Bare,
            Pilot::TurnStart { .. } => Wire::Bare,
            Pilot::TurnInterrupt { .. } => Wire::Bare,
            Pilot::Respond { .. } => Wire::Bare,
            Pilot::ModelSet { .. } => Wire::Bare,
            Pilot::ModeSet { .. } => Wire::Bare,
            Pilot::Stop { .. } => Wire::Bare,
            Pilot::Items { .. } => Wire::Key("items"),
            Pilot::Events { .. } => Wire::Key("events"),
            Pilot::Subscribe { on: true, .. } => Wire::Ack,
            Pilot::Subscribe { on: false, .. } => Wire::Ack,
        }
    }

    /// What a caller needs to hold to ask for this.
    pub fn capability(&self) -> (r: Capability)
        ensures
            r == pilot_capability(*self),
    {
        match self {
            Pilot::Catalog { .. } => Capability::ReadProject,
            Pilot::Open { .. } => Capability::MutateProject,
            Pilot::TurnStart { .. } => Capability::MutateProject,
            Pilot::TurnInterrupt { .. } => Capability::MutateProject,
            Pilot::Respond { .. } => Capability::MutateProject,
            Pilot::ModelSet { .. } => Capability::MutateProject,
            Pilot::ModeSet { .. } => Capability::MutateProject,
            Pilot::Stop { .. } => Capability::MutateProject,
            Pilot::Items { .. } => Capability::ReadProject,
            Pilot::Events { .. } => Capability::ReadProject,
            Pilot::Subscribe { on: true, .. } => Capability::ReadProject,
            Pilot::Subscribe { on: false, .. } => Capability::ReadProject,
        }
    }

    /// The thread this call is about, or `None` for the one method that is
    /// about the machine rather than a thread.
    pub fn thread_id(&self) -> (r: Option<&String>)
        ensures
            r matches Some(t) ==> pilot_thread(*self) == Some(t@),
            r is None ==> pilot_thread(*self) is None,
    {
        match self {
            Pilot::Catalog { .. } => None,
            Pilot::Open { thread_id } => Some(thread_id),
            Pilot::TurnStart { thread_id, .. } => Some(thread_id),
            Pilot::TurnInterrupt { thread_id } => Some(thread_id),
            Pilot::Respond { thread_id, .. } => Some(thread_id),
            Pilot::ModelSet { thread_id, .. } => Some(thread_id),
            Pilot::ModeSet { thread_id, .. } => Some(thread_id),
            Pilot::Stop { thread_id } => Some(thread_id),
            Pilot::Items { thread_id, .. } => Some(thread_id),
            Pilot::Events { thread_id, .. } => Some(thread_id),
            Pilot::Subscribe { thread_id, .. } => Some(thread_id),
        }
    }
}

/// Every pilot command names a method the bus serves, and the name-only table
/// answers for it exactly what the command itself declares.
pub proof fn lemma_pilot_declares_what_it_needs(x: Pilot)
    ensures
        all_methods().contains(pilot_name(x)),
        capability_in(pilot_name(x)) == Some(pilot_capability(x)),
{
    match x {
        Pilot::Catalog { .. } => {
            assert(all_methods()[131] == "pilot.catalog"@);
            lemma_capability_by_name(131);
        },
        Pilot::Open { .. } => {
            assert(all_methods()[132] == "pilot.thread.open"@);
            lemma_capability_by_name(132);
        },
        Pilot::TurnStart { .. } => {
            assert(all_methods()[133] == "pilot.turn.start"@);
            lemma_capability_by_name(133);
        },
        Pilot::TurnInterrupt { .. } => {
            assert(all_methods()[134] == "pilot.turn.interrupt"@);
            lemma_capability_by_name(134);
        },
        Pilot::Respond { .. } => {
            assert(all_methods()[135] == "pilot.request.respond"@);
            lemma_capability_by_name(135);
        },
        Pilot::ModelSet { .. } => {
            assert(all_methods()[136] == "pilot.model.set"@);
            lemma_capability_by_name(136);
        },
        Pilot::ModeSet { .. } => {
            assert(all_methods()[137] == "pilot.mode.set"@);
            lemma_capability_by_name(137);
        },
        Pilot::Stop { .. } => {
            assert(all_methods()[138] == "pilot.session.stop"@);
            lemma_capability_by_name(138);
        },
        Pilot::Items { .. } => {
            assert(all_methods()[139] == "pilot.items"@);
            lemma_capability_by_name(139);
        },
        Pilot::Events { .. } => {
            assert(all_methods()[140] == "pilot.events"@);
            lemma_capability_by_name(140);
        },
        Pilot::Subscribe { on: true, .. } => {
            assert(all_methods()[141] == "pilot.subscribe"@);
            lemma_capability_by_name(141);
        },
        Pilot::Subscribe { on: false, .. } => {
            assert(all_methods()[142] == "pilot.unsubscribe"@);
            lemma_capability_by_name(142);
        },
    }
}


/// The providers a `fastpick --list --json` answer declares, in the order it
/// wrote them: each entry of `providers` with a string `id`.
pub open spec fn provider_ids(items: Seq<Param>) -> Seq<Seq<char>>
    decreases items.len(),
{
    if items.len() == 0 {
        Seq::<Seq<char>>::empty()
    } else {
        let before = provider_ids(items.drop_last());
        match items.last() {
            Param::Object(o) => match str_member(o, "id"@) {
                Some(id) => before.push(id),
                None => before,
            },
            _ => before,
        }
    }
}

pub open spec fn listing_providers(listing: Param) -> Seq<Seq<char>> {
    match listing {
        Param::Object(o) => match member(o.fields@, "providers"@) {
            Some(Param::List(items)) => provider_ids(items@),
            _ => Seq::<Seq<char>>::empty(),
        },
        _ => Seq::<Seq<char>>::empty(),
    }
}

/// Which providers a fastpick listing declares. Read off the document
/// rather than assumed, so a provider fastpick grows appears without a
/// release of this library.
pub fn fastpick_providers(listing: &Param) -> (r: Vec<String>)
    ensures
        strs(r@) == listing_providers(*listing),
{
    let mut out: Vec<String> = Vec::new();
    if let Param::Object(o) = listing {
        if let Some(Param::List(items)) = find_member(o, "providers") {
            let mut i: usize = 0;
            proof {
                assert(items@.take(0) =~= Seq::<Param>::empty());
                assert(strs(out@) =~= Seq::<Seq<char>>::empty());
            }
            while i < items.len()
                invariant
                    i <= items@.len(),
                    strs(out@) == provider_ids(items@.take(i as int)),
                decreases items.len() - i,
            {
                proof {
                    assert(items@.take(i + 1).drop_last() =~= items@.take(i as int));
                }
                if let Param::Object(entry) = &items[i] {
                    if let Some(Param::Str(id)) = find_member(entry, "id") {
                        let ghost before = out@;
                        out.push(id.clone());
                        proof {
                            assert(strs(out@) =~= strs(before).push(id@));
                        }
                    }
                }
                i = i + 1;
            }
            proof {
                assert(items@.take(items@.len() as int) =~= items@);
            }
        }
    }
    out
}

/// One fastpick route, as an instance a thread can be opened on. `name` is
/// the string the launcher's combo carries, `fastpick:<provider>:<model>`, and
/// `label` what the fastpick menu draws, `<model> · <where>`.
#[derive(Debug, Clone)]
pub struct FastpickRoute {
    pub name: String,
    pub provider: String,
    pub model: String,
    pub label: String,
}

pub struct RouteSpec {
    pub name: Seq<char>,
    pub provider: Seq<char>,
    pub model: Seq<char>,
    pub label: Seq<char>,
}

pub open spec fn route_view(r: FastpickRoute) -> RouteSpec {
    RouteSpec { name: r.name@, provider: r.provider@, model: r.model@, label: r.label@ }
}

pub open spec fn routes_view(v: Seq<FastpickRoute>) -> Seq<RouteSpec> {
    Seq::new(v.len(), |i: int| route_view(v[i]))
}

/// Where a route runs: the provider, or `<provider>.<key>` when the model
/// names a credential of its own that is not the provider's only one.
pub open spec fn where_it_runs(provider: Seq<char>, key: Option<Seq<char>>) -> Seq<char> {
    match key {
        Some(k) => if k.len() > 0 && k != provider {
            provider + "."@ + k
        } else {
            provider
        },
        None => provider,
    }
}

/// The route one model entry becomes, or nothing when it has no string `id`.
pub open spec fn route_of(provider: Seq<char>, item: Param) -> Option<RouteSpec> {
    match item {
        Param::Object(o) => match str_member(o, "id"@) {
            Some(id) => Some(
                RouteSpec {
                    name: "fastpick:"@ + provider + ":"@ + id,
                    provider,
                    model: id,
                    label: id + seq![' ', '\u{b7}', ' '] + where_it_runs(provider, str_member(o, "key"@)),
                },
            ),
            None => None,
        },
        _ => None,
    }
}

pub open spec fn routes_of(provider: Seq<char>, items: Seq<Param>) -> Seq<RouteSpec>
    decreases items.len(),
{
    if items.len() == 0 {
        Seq::<RouteSpec>::empty()
    } else {
        let before = routes_of(provider, items.drop_last());
        match route_of(provider, items.last()) {
            Some(r) => before.push(r),
            None => before,
        }
    }
}

/// The model entries of a provider's listing: `models.items`, or `items` at
/// the root, which is what an older fastpick wrote.
pub open spec fn model_items(models: Param) -> Seq<Param> {
    match models {
        Param::Object(o) => {
            let nested = match member(o.fields@, "models"@) {
                Some(Param::Object(m)) => member(m.fields@, "items"@),
                _ => None,
            };
            let chosen = match nested {
                Some(v) => Some(v),
                None => member(o.fields@, "items"@),
            };
            match chosen {
                Some(Param::List(items)) => items@,
                _ => Seq::<Param>::empty(),
            }
        },
        _ => Seq::<Param>::empty(),
    }
}

fn listed_items(models: &Param) -> (r: Option<&Vec<Param>>)
    ensures
        match r {
            Some(items) => items@ == model_items(*models),
            None => model_items(*models).len() == 0,
        },
{
    if let Param::Object(o) = models {
        let nested = match find_member(o, "models") {
            Some(Param::Object(m)) => find_member(m, "items"),
            _ => None,
        };
        let chosen = match nested {
            Some(v) => Some(v),
            None => find_member(o, "items"),
        };
        match chosen {
            Some(Param::List(items)) => Some(items),
            _ => None,
        }
    } else {
        None
    }
}

fn route(provider: &str, item: &Param) -> (r: Option<FastpickRoute>)
    ensures
        match r {
            Some(x) => route_of(provider@, *item) == Some(route_view(x)),
            None => route_of(provider@, *item) is None,
        },
{
    let o = match item {
        Param::Object(o) => o,
        _ => return None,
    };
    let id = match find_member(o, "id") {
        Some(Param::Str(id)) => id,
        _ => return None,
    };
    let p = chars_of(provider);
    let mut place: Vec<char> = p.clone();
    if let Some(Param::Str(key)) = find_member(o, "key") {
        let k = chars_of(key.as_str());
        if k.len() > 0 && !crate::text::chars_eq(&k, &p) {
            push_str(&mut place, ".");
            crate::text::push_chars(&mut place, &k);
        }
    }
    let mut name: Vec<char> = Vec::new();
    push_str(&mut name, "fastpick:");
    push_str(&mut name, provider);
    push_str(&mut name, ":");
    push_str(&mut name, id.as_str());
    let mut label: Vec<char> = chars_of(id.as_str());
    label.push(' ');
    label.push('\u{b7}');
    label.push(' ');
    crate::text::push_chars(&mut label, &place);
    let r = FastpickRoute {
        name: string_of(&name),
        provider: string_of(&p),
        model: id.clone(),
        label: string_of(&label),
    };
    proof {
        assert(route_view(r).label =~= id@ + seq![' ', '\u{b7}', ' '] + where_it_runs(
            provider@,
            str_member(*o, "key"@),
        ));
        assert(route_view(r).name =~= "fastpick:"@ + provider@ + ":"@ + id@);
    }
    Some(r)
}

/// One provider's models, as routes the picker can open a thread on, in the
/// order the listing wrote them; an entry with no `id` is skipped.
pub fn fastpick_models(provider: &str, models: &Param) -> (r: Vec<FastpickRoute>)
    ensures
        routes_view(r@) == routes_of(provider@, model_items(*models)),
{
    let mut out: Vec<FastpickRoute> = Vec::new();
    match listed_items(models) {
        None => {
            assert(routes_view(out@) =~= routes_of(provider@, model_items(*models)));
        },
        Some(items) => {
            let mut i: usize = 0;
            proof {
                assert(items@.take(0) =~= Seq::<Param>::empty());
                assert(routes_view(out@) =~= Seq::<RouteSpec>::empty());
            }
            while i < items.len()
                invariant
                    i <= items@.len(),
                    routes_view(out@) == routes_of(provider@, items@.take(i as int)),
                decreases items.len() - i,
            {
                proof {
                    assert(items@.take(i + 1).drop_last() =~= items@.take(i as int));
                    assert(items@.take(i + 1).last() == items@[i as int]);
                }
                match route(provider, &items[i]) {
                    Some(x) => {
                        let ghost before = out@;
                        out.push(x);
                        proof {
                            assert(routes_view(out@) =~= routes_view(before).push(route_view(x)));
                        }
                    },
                    None => {},
                }
                i = i + 1;
            }
            proof {
                assert(items@.take(items@.len() as int) =~= items@);
            }
        },
    }
    out
}

/// Where a thread row says its child runs: its own worktree, when it has
/// one, and the project it is filed under.
#[derive(Debug, Clone)]
pub struct ThreadPlace {
    pub worktree: Option<String>,
    pub project_id: String,
}

/// Where a thread's child runs: its own worktree, or its project's folder.
/// The same answer the terminal runtime uses, so a thread that reopens as a
/// chat lands in the checkout it was already working in.
pub open spec fn thread_cwd_of(thread_id: Seq<char>, row: Option<ThreadPlace>, projects: Seq<ProjectRow>) -> Result<
    Seq<char>,
    Seq<char>,
> {
    match row {
        None => Err("no thread "@ + thread_id),
        Some(t) => match t.worktree {
            Some(w) if w@.len() > 0 => Ok(w@),
            _ => match first_with_id(projects, t.project_id@) {
                Some(p) => Ok(p.cwd@),
                None => Err("thread "@ + thread_id + " names a project that is gone"@),
            },
        },
    }
}

/// The directory a pilot thread's child runs in, or why there is none.
pub fn thread_cwd(thread_id: &str, row: Option<ThreadPlace>, projects: &Vec<ProjectRow>) -> (r: Result<String, String>)
    ensures
        match r {
            Ok(d) => thread_cwd_of(thread_id@, row, projects@) == Ok::<Seq<char>, Seq<char>>(d@),
            Err(e) => thread_cwd_of(thread_id@, row, projects@) == Err::<Seq<char>, Seq<char>>(e@),
        },
{
    let t = match row {
        None => {
            let mut msg: Vec<char> = Vec::new();
            push_str(&mut msg, "no thread ");
            push_str(&mut msg, thread_id);
            return Err(string_of(&msg));
        },
        Some(t) => t,
    };
    if let Some(w) = &t.worktree {
        if w.as_str().unicode_len() > 0 {
            return Ok(w.clone());
        }
    }
    let want = chars_of(t.project_id.as_str());
    let mut i: usize = 0;
    proof {
        assert(projects@.skip(0) =~= projects@);
    }
    let ghost verdict = thread_cwd_of(thread_id@, row, projects@);
    assert(verdict == match first_with_id(projects@, t.project_id@) {
        Some(p) => Ok(p.cwd@),
        None => Err("thread "@ + thread_id@ + " names a project that is gone"@),
    });
    while i < projects.len()
        invariant
            i <= projects@.len(),
            want@ == t.project_id@,
            verdict == thread_cwd_of(thread_id@, row, projects@),
            verdict == match first_with_id(projects@, t.project_id@) {
                Some(p) => Ok(p.cwd@),
                None => Err("thread "@ + thread_id@ + " names a project that is gone"@),
            },
            first_with_id(projects@, t.project_id@) == first_with_id(projects@.skip(i as int), t.project_id@),
        decreases projects.len() - i,
    {
        proof {
            assert(projects@.skip(i as int)[0] == projects@[i as int]);
            assert(projects@.skip(i as int).drop_first() =~= projects@.skip(i + 1));
        }
        if crate::text::chars_eq(&chars_of(projects[i].id.as_str()), &want) {
            return Ok(projects[i].cwd.clone());
        }
        i = i + 1;
    }
    let mut msg: Vec<char> = Vec::new();
    push_str(&mut msg, "thread ");
    push_str(&mut msg, thread_id);
    push_str(&mut msg, " names a project that is gone");
    Err(string_of(&msg))
}

} // verus!

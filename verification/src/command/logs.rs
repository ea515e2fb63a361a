//! Reading this Boite's log, and writing the webview's half of it.
//!
//! The webview logs through the bus rather than to a file of its own, so a
//! phone's records land on the server it is talking to. What a client sends is
//! taken apart here: a record says what happened, never who it was.

use vstd::prelude::*;

use crate::command::params::{
    bool_member, bool_param, find_member, member, opt_str_param, opt_text, or_text, str_member,
    take_member, text_or, u64_member, u64_param, Param, Params,
};
use crate::command::table::all_methods;
use crate::command::{capability_in, lemma_capability_by_name, wire_shape, Capability, Wire, WireShape};
use crate::text::{chars_of, push_str, string_of, text_is};

verus! {

/// The most records one `logs.write` batch keeps. The webview batches every
/// half second, so a client sending more is wedged in a loop or is not the
/// webview; the excess is dropped rather than the whole batch refused.
pub const MAX_BATCH: usize = 500;

/// Every filter a query over the log files can carry.
#[derive(Debug, Clone)]
pub struct Query {
    pub since: Option<u64>,
    pub until: Option<u64>,
    pub level: Option<String>,
    pub host: Option<String>,
    pub thread: Option<String>,
    pub turn: Option<String>,
    pub target: Option<String>,
    pub text: Option<String>,
    pub limit: Option<usize>,
}

/// One logs command, carrying its arguments.
#[derive(Debug)]
pub enum Logs {
    /// The last records this host wrote, from memory.
    Tail {
        limit: usize,
        level: Option<String>,
        host: Option<String>,
    },
    /// Every host's files, merged on one clock.
    Query(Query),
    /// The filter directive: read it with nothing, set it with a string.
    Level {
        directives: Option<String>,
    },
    /// Records a client produced, to be written into this host's file.
    Write {
        records: Vec<Param>,
        device: Option<String>,
    },
    /// Ask this host to push `log.record` events at this device, or to stop.
    Subscribe {
        on: bool,
    },
}

pub open spec fn logs_name(x: Logs) -> Seq<char> {
    match x {
        Logs::Tail { .. } => "logs.tail"@,
        Logs::Query(..) => "logs.query"@,
        Logs::Level { .. } => "logs.level"@,
        Logs::Write { .. } => "logs.write"@,
        Logs::Subscribe { .. } => "logs.subscribe"@,
    }
}

pub open spec fn logs_wire(x: Logs) -> WireShape {
    match x {
        Logs::Tail { .. } => WireShape::Key("records"@),
        Logs::Query(..) => WireShape::Key("records"@),
        Logs::Level { .. } => WireShape::Bare,
        Logs::Write { .. } => WireShape::Ack,
        Logs::Subscribe { .. } => WireShape::Ack,
    }
}

/// Reading a log is reading, and so is asking to be pushed what is about to be
/// written to it; writing records and changing the level are writes.
pub open spec fn logs_capability(x: Logs) -> Capability {
    match x {
        Logs::Tail { .. } => Capability::ReadProject,
        Logs::Query(..) => Capability::ReadProject,
        Logs::Level { .. } => Capability::MutateProject,
        Logs::Write { .. } => Capability::MutateProject,
        Logs::Subscribe { .. } => Capability::ReadProject,
    }
}

/// Member `key` as a count, or `fallback`.
pub open spec fn count_member(p: Params, key: Seq<char>, fallback: usize) -> usize {
    match u64_member(p, key) {
        Some(n) => n as usize,
        None => fallback,
    }
}

/// Whether `q` carries every filter the parameters name.
pub open spec fn query_read(p: Params, q: Query) -> bool {
    &&& q.since == u64_member(p, "since"@)
    &&& q.until == u64_member(p, "until"@)
    &&& opt_text(q.level) == str_member(p, "level"@)
    &&& opt_text(q.host) == str_member(p, "host"@)
    &&& opt_text(q.thread) == str_member(p, "thread"@)
    &&& opt_text(q.turn) == str_member(p, "turn"@)
    &&& opt_text(q.target) == str_member(p, "target"@)
    &&& opt_text(q.text) == str_member(p, "text"@)
    &&& q.limit == match u64_member(p, "limit"@) {
        Some(n) => Some(n as usize),
        None => None::<usize>,
    }
}

/// Whether `x` is what method `m` with parameters `p` decodes into. A
/// subscription with nothing said is a subscription: asking to be pushed to
/// is the only reason to call.
pub open spec fn logs_decoded(m: Seq<char>, p: Params, x: Logs) -> bool {
    if m == "logs.tail"@ {
        match x {
            Logs::Tail { limit, level, host } => {
                &&& limit == count_member(p, "limit"@, 200)
                &&& opt_text(level) == str_member(p, "level"@)
                &&& opt_text(host) == str_member(p, "host"@)
            },
            _ => false,
        }
    } else if m == "logs.query"@ {
        match x {
            Logs::Query(q) => query_read(p, q),
            _ => false,
        }
    } else if m == "logs.level"@ {
        match x {
            Logs::Level { directives } => opt_text(directives) == str_member(p, "directives"@),
            _ => false,
        }
    } else if m == "logs.write"@ {
        match x {
            Logs::Write { records, device } => {
                &&& opt_text(device) == str_member(p, "device"@)
                &&& match member(p.fields@, "records"@) {
                    Some(Param::List(items)) => records == items,
                    _ => records@.len() == 0,
                }
            },
            _ => false,
        }
    } else if m == "logs.subscribe"@ {
        match x {
            Logs::Subscribe { on } => on == bool_member(p, "on"@, true),
            _ => false,
        }
    } else {
        false
    }
}

pub open spec fn logs_method(m: Seq<char>) -> bool {
    m == "logs.tail"@ || m == "logs.query"@ || m == "logs.level"@ || m == "logs.write"@ || m
        == "logs.subscribe"@
}

impl Logs {
    /// Reads a method name and its parameters into a command. Every argument
    /// has a default, so only a method this domain does not serve is refused.
    pub fn decode(method: &str, params: Params) -> (r: Result<Logs, String>)
        ensures
            match r {
                Ok(x) => logs_method(method@) && logs_decoded(method@, params, x) && logs_name(x)
                    == method@,
                Err(e) => !logs_method(method@) && e@ == "unknown logs method: "@ + method@,
            },
    {
        let m = chars_of(method);
        if text_is(&m, "logs.tail") {
            let limit: usize = match u64_param(&params, "limit") {
                Some(n) => n as usize,
                None => 200,
            };
            let level = opt_str_param(&params, "level");
            let host = opt_str_param(&params, "host");
            return Ok(Logs::Tail { limit, level, host });
        }
        if text_is(&m, "logs.query") {
            let limit: Option<usize> = match u64_param(&params, "limit") {
                Some(n) => Some(n as usize),
                None => None,
            };
            let q = Query {
                since: u64_param(&params, "since"),
                until: u64_param(&params, "until"),
                level: opt_str_param(&params, "level"),
                host: opt_str_param(&params, "host"),
                thread: opt_str_param(&params, "thread"),
                turn: opt_str_param(&params, "turn"),
                target: opt_str_param(&params, "target"),
                text: opt_str_param(&params, "text"),
                limit,
            };
            return Ok(Logs::Query(q));
        }
        if text_is(&m, "logs.level") {
            let directives = opt_str_param(&params, "directives");
            return Ok(Logs::Level { directives });
        }
        if text_is(&m, "logs.write") {
            let device = opt_str_param(&params, "device");
            let records = match take_member(params, "records") {
                Some(Param::List(items)) => items,
                _ => Vec::new(),
            };
            return Ok(Logs::Write { records, device });
        }
        if text_is(&m, "logs.subscribe") {
            let on = bool_param(&params, "on", true);
            return Ok(Logs::Subscribe { on });
        }
        let mut msg: Vec<char> = Vec::new();
        push_str(&mut msg, "unknown logs method: ");
        push_str(&mut msg, method);
        Err(string_of(&msg))
    }

    /// The wire name this command answers to.
    pub fn name(&self) -> (r: &'static str)
        ensures
            r@ == logs_name(*self),
    {
        match self {
            Logs::Tail { .. } => "logs.tail",
            Logs::Query(..) => "logs.query",
            Logs::Level { .. } => "logs.level",
            Logs::Write { .. } => "logs.write",
            Logs::Subscribe { .. } => "logs.subscribe",
        }
    }

    /// How the WebSocket protocol wraps this command's answer.
    pub fn wire(&self) -> (r: Wire)
        ensures
            wire_shape(r) == logs_wire(*self),
    {
        match self {
            Logs::Tail { .. } => Wire::Key("records"),
            Logs::Query(..) => Wire::Key("records"),
            Logs::Level { .. } => Wire::Bare,
            Logs::Write { .. } => Wire::Ack,
            Logs::Subscribe { .. } => Wire::Ack,
        }
    }

    /// What a caller needs to hold to ask for this.
    pub fn capability(&self) -> (r: Capability)
        ensures
            r == logs_capability(*self),
    {
        match self {
            Logs::Tail { .. } => Capability::ReadProject,
            Logs::Query(..) => Capability::ReadProject,
            Logs::Level { .. } => Capability::MutateProject,
            Logs::Write { .. } => Capability::MutateProject,
            Logs::Subscribe { .. } => Capability::ReadProject,
        }
    }
}

/// Every logs command names a method the bus serves, and the name-only table
/// answers for it exactly what the command itself declares.
pub proof fn lemma_logs_declares_what_it_needs(x: Logs)
    ensures
        all_methods().contains(logs_name(x)),
        capability_in(logs_name(x)) == Some(logs_capability(x)),
{
    match x {
        Logs::Tail { .. } => {
            assert(all_methods()[126] == "logs.tail"@);
            lemma_capability_by_name(126);
        },
        Logs::Query(..) => {
            assert(all_methods()[127] == "logs.query"@);
            lemma_capability_by_name(127);
        },
        Logs::Level { .. } => {
            assert(all_methods()[128] == "logs.level"@);
            lemma_capability_by_name(128);
        },
        Logs::Write { .. } => {
            assert(all_methods()[129] == "logs.write"@);
            lemma_capability_by_name(129);
        },
        Logs::Subscribe { .. } => {
            assert(all_methods()[130] == "logs.subscribe"@);
            lemma_capability_by_name(130);
        },
    }
}

/// One record a client sent, as this host keeps it.
#[derive(Debug)]
pub struct ClientRecord {
    /// Always `webview`: a client does not get to name itself `server`.
    pub host: String,
    pub level: String,
    pub target: String,
    pub msg: String,
    /// When it happened, when the client said; otherwise the moment it is
    /// written.
    pub ts: Option<u64>,
    pub thread: Option<String>,
    pub turn: Option<String>,
    pub request: Option<String>,
    /// The device the transport authenticated, whatever the body said; the
    /// body's own only when the transport named none.
    pub device: Option<String>,
    pub span: Option<String>,
    /// The record's structured fields, as sent.
    pub fields: Vec<(String, Param)>,
}

/// Member `key` of a record as text, when it is a string with something in
/// it.
pub open spec fn record_text(v: Param, key: Seq<char>) -> Option<Seq<char>> {
    match v {
        Param::Object(o) => match str_member(o, key) {
            Some(s) => if s.len() > 0 {
                Some(s)
            } else {
                None
            },
            None => None,
        },
        _ => None,
    }
}

/// Whether `r` is the record kept of what a client sent as `v`, through a
/// transport that authenticated `device`.
pub open spec fn client_record(v: Param, device: Option<Seq<char>>, r: ClientRecord) -> bool {
    let msg = match record_text(v, "msg"@) {
        Some(s) => Some(s),
        None => record_text(v, "message"@),
    };
    &&& r.host@ == "webview"@
    &&& r.level@ == or_text(record_text(v, "level"@), "info"@)
    &&& r.target@ == or_text(record_text(v, "target"@), "webview"@)
    &&& r.msg@ == or_text(msg, ""@)
    &&& r.ts == match v {
        Param::Object(o) => u64_member(o, "ts"@),
        _ => None::<u64>,
    }
    &&& opt_text(r.thread) == record_text(v, "thread"@)
    &&& opt_text(r.turn) == record_text(v, "turn"@)
    &&& opt_text(r.request) == record_text(v, "request"@)
    &&& opt_text(r.device) == match device {
        Some(d) => Some(d),
        None => record_text(v, "device"@),
    }
    &&& opt_text(r.span) == record_text(v, "span"@)
    &&& match v {
        Param::Object(o) => match member(o.fields@, "fields"@) {
            Some(Param::Object(f)) => r.fields == f.fields,
            _ => r.fields@.len() == 0,
        },
        _ => r.fields@.len() == 0,
    }
}

fn nonempty_text(o: &Params, key: &str) -> (r: Option<String>)
    ensures
        opt_text(r) == record_text(Param::Object(*o), key@),
{
    match find_member(o, key) {
        Some(Param::Str(s)) => if s.as_str().unicode_len() > 0 {
            Some(s.clone())
        } else {
            None
        },
        _ => None,
    }
}

fn copy_text(o: &Option<String>) -> (r: Option<String>)
    ensures
        opt_text(r) == opt_text(*o),
{
    match o {
        Some(s) => Some(s.clone()),
        None => None,
    }
}

/// One record a client sent, made safe to keep: the host forced to
/// `webview`, the device to the one the transport authenticated, and the
/// level, target and message defaulted when the body left them out.
pub fn from_client(value: Param, device: &Option<String>) -> (r: ClientRecord)
    ensures
        client_record(value, opt_text(*device), r),
{
    let host = string_of(&chars_of("webview"));
    match value {
        Param::Object(o) => {
            let msg = match nonempty_text(&o, "msg") {
                Some(s) => Some(s),
                None => nonempty_text(&o, "message"),
            };
            let dev = match device {
                Some(d) => Some(d.clone()),
                None => nonempty_text(&o, "device"),
            };
            let level = text_or(nonempty_text(&o, "level"), "info");
            let target = text_or(nonempty_text(&o, "target"), "webview");
            let ts = u64_param(&o, "ts");
            let thread = nonempty_text(&o, "thread");
            let turn = nonempty_text(&o, "turn");
            let request = nonempty_text(&o, "request");
            let span = nonempty_text(&o, "span");
            let fields = match take_member(o, "fields") {
                Some(Param::Object(f)) => f.fields,
                _ => Vec::new(),
            };
            ClientRecord {
                host,
                level,
                target,
                msg: text_or(msg, ""),
                ts,
                thread,
                turn,
                request,
                device: dev,
                span,
                fields,
            }
        },
        _ => ClientRecord {
            host,
            level: string_of(&chars_of("info")),
            target: string_of(&chars_of("webview")),
            msg: string_of(&chars_of("")),
            ts: None,
            thread: None,
            turn: None,
            request: None,
            device: copy_text(device),
            span: None,
            fields: Vec::new(),
        },
    }
}

/// What one `logs.write` call writes: its first `MAX_BATCH` records, each
/// made safe to keep, in the order they came.
pub fn records_to_write(records: Vec<Param>, device: &Option<String>) -> (out: Vec<ClientRecord>)
    ensures
        out@.len() == if records@.len() < MAX_BATCH {
            records@.len()
        } else {
            MAX_BATCH as nat
        },
        forall|i: int|
            0 <= i < out@.len() ==> client_record(records@[i], opt_text(*device), #[trigger] out@[i]),
{
    let mut out: Vec<ClientRecord> = Vec::new();
    let mut rest = records;
    let ghost all = records@;
    while out.len() < MAX_BATCH && rest.len() > 0
        invariant
            out@.len() <= MAX_BATCH,
            out@.len() <= all.len(),
            rest@ == all.skip(out@.len() as int),
            forall|i: int| 0 <= i < out@.len() ==> client_record(all[i], opt_text(*device), #[trigger] out@[i]),
        decreases rest@.len(),
    {
        let v = rest.remove(0);
        proof {
            assert(v == all[out@.len() as int]);
            assert(rest@ =~= all.skip(out@.len() as int + 1));
        }
        let r = from_client(v, device);
        out.push(r);
    }
    out
}

} // verus!

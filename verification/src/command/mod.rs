//! One named surface for what a client may ask Boite to do.
//!
//! A capability is a value here, and the two front doors (desktop commands and
//! the WebSocket RPC) are codecs over it: a method name and its parameters
//! decode into a command, the command names itself back, declares what a
//! caller must hold to ask for it, and says how the protocol dresses its
//! answer.

use vstd::prelude::*;

use crate::text::{chars_eq, chars_of};

pub mod conduct;
pub mod git;
pub mod params;
pub mod logs;
pub mod pilot;
pub mod records;
pub mod sessions;
pub mod table;

use crate::command::table::{
    all_capabilities, all_methods, capability_list, lemma_no_method_claimed_twice, method_list,
    method_literals,
};

verus! {

/// What a caller has to hold to be allowed to ask for a method.
#[derive(Debug, Clone, Copy, PartialEq, Eq, Structural)]
pub enum Capability {
    /// Reads what a project holds.
    ReadProject,
    /// Changes what a project holds.
    MutateProject,
    /// Changes something past any one project: the machine, another
    /// project, every agent's configuration.
    MutateAcross,
}

/// How the WebSocket protocol dresses an answer.
#[derive(Debug, Clone, Copy, PartialEq, Eq)]
pub enum Wire {
    /// The value as the domain produced it.
    Bare,
    /// Wrapped under one key.
    Key(&'static str),
    /// The command answers nothing; the protocol says so with `{"ok": true}`.
    Ack,
}

/// A wire envelope as a value.
pub enum WireShape {
    Bare,
    Key(Seq<char>),
    Ack,
}

pub open spec fn wire_shape(w: Wire) -> WireShape {
    match w {
        Wire::Bare => WireShape::Bare,
        Wire::Key(k) => WireShape::Key(k@),
        Wire::Ack => WireShape::Ack,
    }
}

/// What the first entry from position `i` on that is named `m` needs.
pub open spec fn capability_from(i: int, m: Seq<char>) -> Option<Capability>
    decreases all_methods().len() - i,
{
    if i < 0 || i >= all_methods().len() {
        None
    } else if all_methods()[i] == m {
        Some(all_capabilities()[i])
    } else {
        capability_from(i + 1, m)
    }
}

/// What method `m` needs, or `None` for a method the bus does not serve.
pub open spec fn capability_in(m: Seq<char>) -> Option<Capability> {
    capability_from(0, m)
}

proof fn lemma_capability_from_at(i: int, k: int)
    requires
        0 <= i <= k < all_methods().len(),
        all_capabilities().len() == all_methods().len(),
        forall|a: int, b: int| 0 <= a < b < all_methods().len() ==> all_methods()[a] != all_methods()[b],
    ensures
        capability_from(i, all_methods()[k]) == Some(all_capabilities()[k]),
    decreases k - i,
{
    if i < k {
        assert(all_methods()[i] != all_methods()[k]);
        lemma_capability_from_at(i + 1, k);
    }
}

proof fn lemma_capability_from_some(i: int, m: Seq<char>)
    requires
        0 <= i,
    ensures
        capability_from(i, m) is Some <==> exists|j: int| i <= j < all_methods().len() && all_methods()[j] == m,
    decreases all_methods().len() - i,
{
    if i < all_methods().len() && all_methods()[i] != m {
        lemma_capability_from_some(i + 1, m);
        if exists|j: int| i <= j < all_methods().len() && all_methods()[j] == m {
            let j = choose|j: int| i <= j < all_methods().len() && all_methods()[j] == m;
            assert(i + 1 <= j);
        }
    }
}

/// Each method in the table needs exactly the capability listed beside it:
/// a lookup by name finds its own row, never another's.
pub proof fn lemma_capability_by_name(k: int)
    requires
        0 <= k < all_methods().len(),
    ensures
        capability_in(all_methods()[k]) == Some(all_capabilities()[k]),
{
    lemma_no_method_claimed_twice();
    assert(all_capabilities().len() == all_methods().len());
    lemma_capability_from_at(0, k);
}

/// A name has a capability exactly when the bus serves it.
pub proof fn lemma_capability_iff_served(m: Seq<char>)
    ensures
        capability_in(m) is Some <==> all_methods().contains(m),
{
    lemma_capability_from_some(0, m);
}

pub open spec fn method_names(v: Seq<&'static str>) -> Seq<Seq<char>> {
    v.map_values(|s: &'static str| s@)
}

/// Every method the bus serves, across every domain, domain by domain.
pub fn methods() -> (r: Vec<&'static str>)
    ensures
        method_names(r@) == all_methods(),
{
    method_list()
}

/// Whether the bus answers for this method.
pub fn handles(method: &str) -> (r: bool)
    ensures
        r == all_methods().contains(method@),
{
    let all = method_list();
    let m = chars_of(method);
    let mut i: usize = 0;
    while i < all.len()
        invariant
            i <= all@.len(),
            all@ == method_literals(),
            m@ == method@,
            forall|j: int| 0 <= j < i ==> all_methods()[j] != method@,
        decreases all.len() - i,
    {
        let name = chars_of(all[i]);
        if chars_eq(&name, &m) {
            assert(all_methods()[i as int] == method@);
            return true;
        }
        i = i + 1;
    }
    false
}

/// What each method needs, by name, for a caller that has to answer before
/// it has parameters in hand.
pub fn capabilities() -> (r: Vec<(&'static str, Capability)>)
    ensures
        r@.len() == all_methods().len(),
        forall|k: int| 0 <= k < r@.len() ==> (#[trigger] r@[k]).0@ == all_methods()[k] && r@[k].1
            == all_capabilities()[k],
{
    let names = method_list();
    let caps = capability_list();
    let mut r: Vec<(&'static str, Capability)> = Vec::new();
    let mut i: usize = 0;
    while i < names.len()
        invariant
            i <= names@.len(),
            names@ == method_literals(),
            caps@ == all_capabilities(),
            caps@.len() == names@.len(),
            r@.len() == i,
            forall|k: int| 0 <= k < i ==> (#[trigger] r@[k]).0@ == all_methods()[k] && r@[k].1
                == all_capabilities()[k],
        decreases names.len() - i,
    {
        r.push((names[i], caps[i]));
        i = i + 1;
    }
    r
}

/// What a method needs, or `None` for a method the bus does not serve.
pub fn capability_of(method: &str) -> (r: Option<Capability>)
    ensures
        r == capability_in(method@),
{
    let names = method_list();
    let caps = capability_list();
    let m = chars_of(method);
    let mut i: usize = 0;
    while i < names.len()
        invariant
            i <= names@.len(),
            names@ == method_literals(),
            caps@ == all_capabilities(),
            caps@.len() == names@.len(),
            m@ == method@,
            capability_in(method@) == capability_from(i as int, method@),
        decreases names.len() - i,
    {
        let name = chars_of(names[i]);
        if chars_eq(&name, &m) {
            return Some(caps[i]);
        }
        i = i + 1;
    }
    None
}


/// The user's home folder, when the platform names one.
///
/// Wraps `dirs::home_dir`, taken as text with invalid UTF-8 replaced. The
/// answer comes from the environment and the platform, so nothing is stated
/// of it.
#[verifier::external_body]
fn home_dir() -> (r: Option<String>) {
    dirs::home_dir().map(|home| home.to_string_lossy().to_string())
}

/// A host with a boundary and nothing else behind it: what a transport
/// builds per call when it has no legacy directory to declare.
#[derive(Debug, Clone)]
pub struct Scoped {
    /// The registered project roots.
    pub roots: Vec<String>,
    /// Where an earlier layout put thread worktrees, when this host had one.
    pub legacy_worktree_base: Option<String>,
    /// Places a new project may go besides the parents of the roots; `None`
    /// keeps the default, the user's home.
    pub extra_project_parents: Option<Vec<String>>,
}

impl Scoped {
    pub fn new(roots: Vec<String>) -> (s: Scoped)
        ensures
            s.roots@ == roots@,
            s.legacy_worktree_base is None,
            s.extra_project_parents is None,
    {
        Scoped { roots, legacy_worktree_base: None, extra_project_parents: None }
    }

    /// Declares where this host's earlier layout left worktrees behind.
    pub fn with_legacy_worktree_base(self, base: Option<String>) -> (s: Scoped)
        ensures
            s.roots == self.roots,
            s.legacy_worktree_base == base,
            s.extra_project_parents == self.extra_project_parents,
    {
        Scoped { legacy_worktree_base: base, ..self }
    }

    /// Replaces the places a new project may go beyond the roots; an empty
    /// list means the parents of the roots are the whole of it.
    pub fn with_extra_project_parents(self, parents: Vec<String>) -> (s: Scoped)
        ensures
            s.roots == self.roots,
            s.legacy_worktree_base == self.legacy_worktree_base,
            s.extra_project_parents == Some(parents),
    {
        Scoped { extra_project_parents: Some(parents), ..self }
    }

    /// The places a new project may go beyond the parents of the roots: the
    /// ones declared, or else the user's home when the platform names one.
    pub fn extra_project_parents(&self) -> (r: Vec<String>)
        ensures
            self.extra_project_parents matches Some(p) ==> crate::text::strs(r@) == crate::text::strs(p@),
            self.extra_project_parents is None ==> r@.len() <= 1,
    {
        match &self.extra_project_parents {
            Some(_) => parents_or_home(&self.extra_project_parents, None),
            None => parents_or_home(&self.extra_project_parents, home_dir()),
        }
    }
}

/// The declared places a new project may go, or else the home folder when
/// there is one.
pub fn parents_or_home(declared: &Option<Vec<String>>, home: Option<String>) -> (r: Vec<String>)
    ensures
        match declared {
            Some(p) => crate::text::strs(r@) == crate::text::strs(p@),
            None => match home {
                Some(h) => r@.len() == 1 && crate::text::strs(r@) == seq![h@],
                None => r@.len() == 0,
            },
        },
{
    match declared {
        Some(parents) => {
            let mut r: Vec<String> = Vec::new();
            let mut i: usize = 0;
            while i < parents.len()
                invariant
                    i <= parents@.len(),
                    crate::text::strs(r@) == crate::text::strs(parents@).take(i as int),
                decreases parents.len() - i,
            {
                let ghost before = r@;
                r.push(parents[i].clone());
                proof {
                    assert(crate::text::strs(r@) =~= crate::text::strs(before).push(parents@[i as int]@));
                    assert(crate::text::strs(parents@).take(i + 1) =~= crate::text::strs(parents@).take(
                        i as int,
                    ).push(parents@[i as int]@));
                }
                i = i + 1;
            }
            proof {
                assert(crate::text::strs(parents@).take(parents@.len() as int) =~= crate::text::strs(parents@));
            }
            r
        },
        None => match home {
            Some(h) => {
                let mut r: Vec<String> = Vec::new();
                r.push(h);
                assert(crate::text::strs(r@) =~= seq![r@[0]@]);
                r
            },
            None => Vec::new(),
        },
    }
}

/// The methods that reach past the project they are called in: creating and
/// deleting a project, deleting a thread, the four sync calls that write into
/// every agent's own configuration, and installing or uninstalling a CLI.
pub open spec fn reaches_across(m: Seq<char>) -> bool {
    ||| m == "cli.install"@
    ||| m == "cli.uninstall"@
    ||| m == "project.create"@
    ||| m == "project.delete"@
    ||| m == "thread.delete"@
    ||| m == "sync.pull"@
    ||| m == "sync.resolve"@
    ||| m == "sync.push"@
    ||| m == "sync.repair"@
}

proof fn lemma_across_row(k: int)
    requires
        0 <= k < all_methods().len(),
    ensures
        all_capabilities()[k] == Capability::MutateAcross <==> reaches_across(all_methods()[k]),
{
    lemma_no_method_claimed_twice();
    assert(all_methods()[63] == "cli.install"@);
    assert(all_methods()[64] == "cli.uninstall"@);
    assert(all_methods()[69] == "project.create"@);
    assert(all_methods()[71] == "project.delete"@);
    assert(all_methods()[77] == "thread.delete"@);
    assert(all_methods()[109] == "sync.pull"@);
    assert(all_methods()[111] == "sync.resolve"@);
    assert(all_methods()[113] == "sync.push"@);
    assert(all_methods()[116] == "sync.repair"@);
    assert(reaches_across(all_methods()[k]) <==> (k == 63 || k == 64 || k == 69 || k == 71 || k == 77 || k == 109 || k == 111 || k == 113 || k == 116));
    if k == 0 {
        assert(all_capabilities()[0] == Capability::ReadProject);
    } else if k == 1 {
        assert(all_capabilities()[1] == Capability::ReadProject);
    } else if k == 2 {
        assert(all_capabilities()[2] == Capability::ReadProject);
    } else if k == 3 {
        assert(all_capabilities()[3] == Capability::MutateProject);
    } else if k == 4 {
        assert(all_capabilities()[4] == Capability::ReadProject);
    } else if k == 5 {
        assert(all_capabilities()[5] == Capability::ReadProject);
    } else if k == 6 {
        assert(all_capabilities()[6] == Capability::ReadProject);
    } else if k == 7 {
        assert(all_capabilities()[7] == Capability::ReadProject);
    } else if k == 8 {
        assert(all_capabilities()[8] == Capability::ReadProject);
    } else if k == 9 {
        assert(all_capabilities()[9] == Capability::MutateProject);
    } else if k == 10 {
        assert(all_capabilities()[10] == Capability::MutateProject);
    } else if k == 11 {
        assert(all_capabilities()[11] == Capability::MutateProject);
    } else if k == 12 {
        assert(all_capabilities()[12] == Capability::MutateProject);
    } else if k == 13 {
        assert(all_capabilities()[13] == Capability::MutateProject);
    } else if k == 14 {
        assert(all_capabilities()[14] == Capability::MutateProject);
    } else if k == 15 {
        assert(all_capabilities()[15] == Capability::MutateProject);
    } else if k == 16 {
        assert(all_capabilities()[16] == Capability::MutateProject);
    } else if k == 17 {
        assert(all_capabilities()[17] == Capability::ReadProject);
    } else if k == 18 {
        assert(all_capabilities()[18] == Capability::MutateProject);
    } else if k == 19 {
        assert(all_capabilities()[19] == Capability::MutateProject);
    } else if k == 20 {
        assert(all_capabilities()[20] == Capability::MutateProject);
    } else if k == 21 {
        assert(all_capabilities()[21] == Capability::MutateProject);
    } else if k == 22 {
        assert(all_capabilities()[22] == Capability::MutateProject);
    } else if k == 23 {
        assert(all_capabilities()[23] == Capability::ReadProject);
    } else if k == 24 {
        assert(all_capabilities()[24] == Capability::MutateProject);
    } else if k == 25 {
        assert(all_capabilities()[25] == Capability::MutateProject);
    } else if k == 26 {
        assert(all_capabilities()[26] == Capability::ReadProject);
    } else if k == 27 {
        assert(all_capabilities()[27] == Capability::MutateProject);
    } else if k == 28 {
        assert(all_capabilities()[28] == Capability::ReadProject);
    } else if k == 29 {
        assert(all_capabilities()[29] == Capability::ReadProject);
    } else if k == 30 {
        assert(all_capabilities()[30] == Capability::ReadProject);
    } else if k == 31 {
        assert(all_capabilities()[31] == Capability::ReadProject);
    } else if k == 32 {
        assert(all_capabilities()[32] == Capability::MutateProject);
    } else if k == 33 {
        assert(all_capabilities()[33] == Capability::ReadProject);
    } else if k == 34 {
        assert(all_capabilities()[34] == Capability::ReadProject);
    } else if k == 35 {
        assert(all_capabilities()[35] == Capability::ReadProject);
    } else if k == 36 {
        assert(all_capabilities()[36] == Capability::MutateProject);
    } else if k == 37 {
        assert(all_capabilities()[37] == Capability::ReadProject);
    } else if k == 38 {
        assert(all_capabilities()[38] == Capability::ReadProject);
    } else if k == 39 {
        assert(all_capabilities()[39] == Capability::ReadProject);
    } else if k == 40 {
        assert(all_capabilities()[40] == Capability::ReadProject);
    } else if k == 41 {
        assert(all_capabilities()[41] == Capability::MutateProject);
    } else if k == 42 {
        assert(all_capabilities()[42] == Capability::ReadProject);
    } else if k == 43 {
        assert(all_capabilities()[43] == Capability::MutateProject);
    } else if k == 44 {
        assert(all_capabilities()[44] == Capability::ReadProject);
    } else if k == 45 {
        assert(all_capabilities()[45] == Capability::ReadProject);
    } else if k == 46 {
        assert(all_capabilities()[46] == Capability::ReadProject);
    } else if k == 47 {
        assert(all_capabilities()[47] == Capability::ReadProject);
    } else if k == 48 {
        assert(all_capabilities()[48] == Capability::ReadProject);
    } else if k == 49 {
        assert(all_capabilities()[49] == Capability::ReadProject);
    } else if k == 50 {
        assert(all_capabilities()[50] == Capability::MutateProject);
    } else if k == 51 {
        assert(all_capabilities()[51] == Capability::MutateProject);
    } else if k == 52 {
        assert(all_capabilities()[52] == Capability::ReadProject);
    } else if k == 53 {
        assert(all_capabilities()[53] == Capability::ReadProject);
    } else if k == 54 {
        assert(all_capabilities()[54] == Capability::ReadProject);
    } else if k == 55 {
        assert(all_capabilities()[55] == Capability::MutateProject);
    } else if k == 56 {
        assert(all_capabilities()[56] == Capability::MutateProject);
    } else if k == 57 {
        assert(all_capabilities()[57] == Capability::ReadProject);
    } else if k == 58 {
        assert(all_capabilities()[58] == Capability::ReadProject);
    } else if k == 59 {
        assert(all_capabilities()[59] == Capability::ReadProject);
    } else if k == 60 {
        assert(all_capabilities()[60] == Capability::ReadProject);
    } else if k == 61 {
        assert(all_capabilities()[61] == Capability::ReadProject);
    } else if k == 62 {
        assert(all_capabilities()[62] == Capability::ReadProject);
    } else if k == 63 {
        assert(all_capabilities()[63] == Capability::MutateAcross);
    } else if k == 64 {
        assert(all_capabilities()[64] == Capability::MutateAcross);
    } else if k == 65 {
        assert(all_capabilities()[65] == Capability::MutateProject);
    } else if k == 66 {
        assert(all_capabilities()[66] == Capability::MutateProject);
    } else if k == 67 {
        assert(all_capabilities()[67] == Capability::ReadProject);
    } else if k == 68 {
        assert(all_capabilities()[68] == Capability::ReadProject);
    } else if k == 69 {
        assert(all_capabilities()[69] == Capability::MutateAcross);
    } else if k == 70 {
        assert(all_capabilities()[70] == Capability::MutateProject);
    } else if k == 71 {
        assert(all_capabilities()[71] == Capability::MutateAcross);
    } else if k == 72 {
        assert(all_capabilities()[72] == Capability::ReadProject);
    } else if k == 73 {
        assert(all_capabilities()[73] == Capability::MutateProject);
    } else if k == 74 {
        assert(all_capabilities()[74] == Capability::MutateProject);
    } else if k == 75 {
        assert(all_capabilities()[75] == Capability::MutateProject);
    } else if k == 76 {
        assert(all_capabilities()[76] == Capability::MutateProject);
    } else if k == 77 {
        assert(all_capabilities()[77] == Capability::MutateAcross);
    } else if k == 78 {
        assert(all_capabilities()[78] == Capability::ReadProject);
    } else if k == 79 {
        assert(all_capabilities()[79] == Capability::MutateProject);
    } else if k == 80 {
        assert(all_capabilities()[80] == Capability::MutateProject);
    } else if k == 81 {
        assert(all_capabilities()[81] == Capability::ReadProject);
    } else if k == 82 {
        assert(all_capabilities()[82] == Capability::MutateProject);
    } else if k == 83 {
        assert(all_capabilities()[83] == Capability::ReadProject);
    } else if k == 84 {
        assert(all_capabilities()[84] == Capability::MutateProject);
    } else if k == 85 {
        assert(all_capabilities()[85] == Capability::ReadProject);
    } else if k == 86 {
        assert(all_capabilities()[86] == Capability::MutateProject);
    } else if k == 87 {
        assert(all_capabilities()[87] == Capability::ReadProject);
    } else if k == 88 {
        assert(all_capabilities()[88] == Capability::ReadProject);
    } else if k == 89 {
        assert(all_capabilities()[89] == Capability::ReadProject);
    } else if k == 90 {
        assert(all_capabilities()[90] == Capability::MutateProject);
    } else if k == 91 {
        assert(all_capabilities()[91] == Capability::MutateProject);
    } else if k == 92 {
        assert(all_capabilities()[92] == Capability::ReadProject);
    } else if k == 93 {
        assert(all_capabilities()[93] == Capability::MutateProject);
    } else if k == 94 {
        assert(all_capabilities()[94] == Capability::MutateProject);
    } else if k == 95 {
        assert(all_capabilities()[95] == Capability::MutateProject);
    } else if k == 96 {
        assert(all_capabilities()[96] == Capability::ReadProject);
    } else if k == 97 {
        assert(all_capabilities()[97] == Capability::MutateProject);
    } else if k == 98 {
        assert(all_capabilities()[98] == Capability::ReadProject);
    } else if k == 99 {
        assert(all_capabilities()[99] == Capability::ReadProject);
    } else if k == 100 {
        assert(all_capabilities()[100] == Capability::MutateProject);
    } else if k == 101 {
        assert(all_capabilities()[101] == Capability::MutateProject);
    } else if k == 102 {
        assert(all_capabilities()[102] == Capability::MutateProject);
    } else if k == 103 {
        assert(all_capabilities()[103] == Capability::MutateProject);
    } else if k == 104 {
        assert(all_capabilities()[104] == Capability::MutateProject);
    } else if k == 105 {
        assert(all_capabilities()[105] == Capability::ReadProject);
    } else if k == 106 {
        assert(all_capabilities()[106] == Capability::ReadProject);
    } else if k == 107 {
        assert(all_capabilities()[107] == Capability::ReadProject);
    } else if k == 108 {
        assert(all_capabilities()[108] == Capability::ReadProject);
    } else if k == 109 {
        assert(all_capabilities()[109] == Capability::MutateAcross);
    } else if k == 110 {
        assert(all_capabilities()[110] == Capability::ReadProject);
    } else if k == 111 {
        assert(all_capabilities()[111] == Capability::MutateAcross);
    } else if k == 112 {
        assert(all_capabilities()[112] == Capability::MutateProject);
    } else if k == 113 {
        assert(all_capabilities()[113] == Capability::MutateAcross);
    } else if k == 114 {
        assert(all_capabilities()[114] == Capability::MutateProject);
    } else if k == 115 {
        assert(all_capabilities()[115] == Capability::MutateProject);
    } else if k == 116 {
        assert(all_capabilities()[116] == Capability::MutateAcross);
    } else if k == 117 {
        assert(all_capabilities()[117] == Capability::ReadProject);
    } else if k == 118 {
        assert(all_capabilities()[118] == Capability::MutateProject);
    } else if k == 119 {
        assert(all_capabilities()[119] == Capability::MutateProject);
    } else if k == 120 {
        assert(all_capabilities()[120] == Capability::MutateProject);
    } else if k == 121 {
        assert(all_capabilities()[121] == Capability::ReadProject);
    } else if k == 122 {
        assert(all_capabilities()[122] == Capability::MutateProject);
    } else if k == 123 {
        assert(all_capabilities()[123] == Capability::MutateProject);
    } else if k == 124 {
        assert(all_capabilities()[124] == Capability::MutateProject);
    } else if k == 125 {
        assert(all_capabilities()[125] == Capability::MutateProject);
    } else if k == 126 {
        assert(all_capabilities()[126] == Capability::ReadProject);
    } else if k == 127 {
        assert(all_capabilities()[127] == Capability::ReadProject);
    } else if k == 128 {
        assert(all_capabilities()[128] == Capability::MutateProject);
    } else if k == 129 {
        assert(all_capabilities()[129] == Capability::MutateProject);
    } else if k == 130 {
        assert(all_capabilities()[130] == Capability::ReadProject);
    } else if k == 131 {
        assert(all_capabilities()[131] == Capability::ReadProject);
    } else if k == 132 {
        assert(all_capabilities()[132] == Capability::MutateProject);
    } else if k == 133 {
        assert(all_capabilities()[133] == Capability::MutateProject);
    } else if k == 134 {
        assert(all_capabilities()[134] == Capability::MutateProject);
    } else if k == 135 {
        assert(all_capabilities()[135] == Capability::MutateProject);
    } else if k == 136 {
        assert(all_capabilities()[136] == Capability::MutateProject);
    } else if k == 137 {
        assert(all_capabilities()[137] == Capability::MutateProject);
    } else if k == 138 {
        assert(all_capabilities()[138] == Capability::MutateProject);
    } else if k == 139 {
        assert(all_capabilities()[139] == Capability::ReadProject);
    } else if k == 140 {
        assert(all_capabilities()[140] == Capability::ReadProject);
    } else if k == 141 {
        assert(all_capabilities()[141] == Capability::ReadProject);
    } else if k == 142 {
        assert(all_capabilities()[142] == Capability::ReadProject);
    }
}

/// Only the calls that change the machine reach across: a method needs
/// `MutateAcross` exactly when it is one of the calls `reaches_across` names.
pub proof fn lemma_only_machine_changes_reach_across(m: Seq<char>)
    ensures
        capability_in(m) == Some(Capability::MutateAcross) <==> reaches_across(m),
{
    lemma_capability_iff_served(m);
    if all_methods().contains(m) {
        let k = choose|k: int| 0 <= k < all_methods().len() && all_methods()[k] == m;
        lemma_capability_by_name(k);
        lemma_across_row(k);
    } else {
        assert(all_methods()[63] == "cli.install"@);
        assert(all_methods()[64] == "cli.uninstall"@);
        assert(all_methods()[69] == "project.create"@);
        assert(all_methods()[71] == "project.delete"@);
        assert(all_methods()[77] == "thread.delete"@);
        assert(all_methods()[109] == "sync.pull"@);
        assert(all_methods()[111] == "sync.resolve"@);
        assert(all_methods()[113] == "sync.push"@);
        assert(all_methods()[116] == "sync.repair"@);
    }
}

/// The calls that change a repository, a file, a row or an agent's own
/// configuration on disk.
pub open spec fn changes_something(m: Seq<char>) -> bool {
    ||| m == "git.switchBranch"@
    ||| m == "git.stage"@
    ||| m == "git.unstage"@
    ||| m == "git.discard"@
    ||| m == "git.commit"@
    ||| m == "git.fetch"@
    ||| m == "git.push"@
    ||| m == "git.pull"@
    ||| m == "git.init"@
    ||| m == "file.write"@
    ||| m == "project.createFolder"@
    ||| m == "session.stopClaude"@
    ||| m == "session.migrate"@
    ||| m == "project.create"@
    ||| m == "project.archive"@
    ||| m == "project.delete"@
    ||| m == "thread.create"@
    ||| m == "thread.update"@
    ||| m == "thread.started"@
    ||| m == "thread.settle"@
    ||| m == "thread.delete"@
    ||| m == "todo.save"@
    ||| m == "todo.delete"@
    ||| m == "settings.set"@
    ||| m == "workspace.setInfo"@
    ||| m == "checkpoint.capture"@
    ||| m == "checkpoint.restore"@
    ||| m == "checkpoint.forget"@
    ||| m == "sync.pull"@
    ||| m == "sync.push"@
    ||| m == "sync.resolve"@
    ||| m == "sync.repair"@
    ||| m == "sync.skip"@
    ||| m == "sync.cancel"@
    ||| m == "sync.dismiss"@
}

/// A read that changes something is still a write: nothing that reaches the
/// network, rewrites the index or writes a row needs only `ReadProject`.
pub proof fn lemma_writes_are_never_reads(m: Seq<char>)
    requires
        changes_something(m),
    ensures
        capability_in(m) is Some,
        capability_in(m) != Some(Capability::ReadProject),
{
    if m == "git.switchBranch"@ {
        assert(all_methods()[3] == "git.switchBranch"@);
        lemma_capability_by_name(3);
        assert(all_capabilities()[3] == Capability::MutateProject);
    } else if m == "git.stage"@ {
        assert(all_methods()[9] == "git.stage"@);
        lemma_capability_by_name(9);
        assert(all_capabilities()[9] == Capability::MutateProject);
    } else if m == "git.unstage"@ {
        assert(all_methods()[10] == "git.unstage"@);
        lemma_capability_by_name(10);
        assert(all_capabilities()[10] == Capability::MutateProject);
    } else if m == "git.discard"@ {
        assert(all_methods()[11] == "git.discard"@);
        lemma_capability_by_name(11);
        assert(all_capabilities()[11] == Capability::MutateProject);
    } else if m == "git.commit"@ {
        assert(all_methods()[12] == "git.commit"@);
        lemma_capability_by_name(12);
        assert(all_capabilities()[12] == Capability::MutateProject);
    } else if m == "git.fetch"@ {
        assert(all_methods()[13] == "git.fetch"@);
        lemma_capability_by_name(13);
        assert(all_capabilities()[13] == Capability::MutateProject);
    } else if m == "git.push"@ {
        assert(all_methods()[14] == "git.push"@);
        lemma_capability_by_name(14);
        assert(all_capabilities()[14] == Capability::MutateProject);
    } else if m == "git.pull"@ {
        assert(all_methods()[15] == "git.pull"@);
        lemma_capability_by_name(15);
        assert(all_capabilities()[15] == Capability::MutateProject);
    } else if m == "git.init"@ {
        assert(all_methods()[16] == "git.init"@);
        lemma_capability_by_name(16);
        assert(all_capabilities()[16] == Capability::MutateProject);
    } else if m == "file.write"@ {
        assert(all_methods()[32] == "file.write"@);
        lemma_capability_by_name(32);
        assert(all_capabilities()[32] == Capability::MutateProject);
    } else if m == "project.createFolder"@ {
        assert(all_methods()[36] == "project.createFolder"@);
        lemma_capability_by_name(36);
        assert(all_capabilities()[36] == Capability::MutateProject);
    } else if m == "session.stopClaude"@ {
        assert(all_methods()[41] == "session.stopClaude"@);
        lemma_capability_by_name(41);
        assert(all_capabilities()[41] == Capability::MutateProject);
    } else if m == "session.migrate"@ {
        assert(all_methods()[43] == "session.migrate"@);
        lemma_capability_by_name(43);
        assert(all_capabilities()[43] == Capability::MutateProject);
    } else if m == "project.create"@ {
        assert(all_methods()[69] == "project.create"@);
        lemma_capability_by_name(69);
        assert(all_capabilities()[69] == Capability::MutateAcross);
    } else if m == "project.archive"@ {
        assert(all_methods()[70] == "project.archive"@);
        lemma_capability_by_name(70);
        assert(all_capabilities()[70] == Capability::MutateProject);
    } else if m == "project.delete"@ {
        assert(all_methods()[71] == "project.delete"@);
        lemma_capability_by_name(71);
        assert(all_capabilities()[71] == Capability::MutateAcross);
    } else if m == "thread.create"@ {
        assert(all_methods()[73] == "thread.create"@);
        lemma_capability_by_name(73);
        assert(all_capabilities()[73] == Capability::MutateProject);
    } else if m == "thread.update"@ {
        assert(all_methods()[74] == "thread.update"@);
        lemma_capability_by_name(74);
        assert(all_capabilities()[74] == Capability::MutateProject);
    } else if m == "thread.started"@ {
        assert(all_methods()[75] == "thread.started"@);
        lemma_capability_by_name(75);
        assert(all_capabilities()[75] == Capability::MutateProject);
    } else if m == "thread.settle"@ {
        assert(all_methods()[76] == "thread.settle"@);
        lemma_capability_by_name(76);
        assert(all_capabilities()[76] == Capability::MutateProject);
    } else if m == "thread.delete"@ {
        assert(all_methods()[77] == "thread.delete"@);
        lemma_capability_by_name(77);
        assert(all_capabilities()[77] == Capability::MutateAcross);
    } else if m == "todo.save"@ {
        assert(all_methods()[79] == "todo.save"@);
        lemma_capability_by_name(79);
        assert(all_capabilities()[79] == Capability::MutateProject);
    } else if m == "todo.delete"@ {
        assert(all_methods()[80] == "todo.delete"@);
        lemma_capability_by_name(80);
        assert(all_capabilities()[80] == Capability::MutateProject);
    } else if m == "settings.set"@ {
        assert(all_methods()[82] == "settings.set"@);
        lemma_capability_by_name(82);
        assert(all_capabilities()[82] == Capability::MutateProject);
    } else if m == "workspace.setInfo"@ {
        assert(all_methods()[84] == "workspace.setInfo"@);
        lemma_capability_by_name(84);
        assert(all_capabilities()[84] == Capability::MutateProject);
    } else if m == "checkpoint.capture"@ {
        assert(all_methods()[86] == "checkpoint.capture"@);
        lemma_capability_by_name(86);
        assert(all_capabilities()[86] == Capability::MutateProject);
    } else if m == "checkpoint.restore"@ {
        assert(all_methods()[90] == "checkpoint.restore"@);
        lemma_capability_by_name(90);
        assert(all_capabilities()[90] == Capability::MutateProject);
    } else if m == "checkpoint.forget"@ {
        assert(all_methods()[91] == "checkpoint.forget"@);
        lemma_capability_by_name(91);
        assert(all_capabilities()[91] == Capability::MutateProject);
    } else if m == "sync.pull"@ {
        assert(all_methods()[109] == "sync.pull"@);
        lemma_capability_by_name(109);
        assert(all_capabilities()[109] == Capability::MutateAcross);
    } else if m == "sync.push"@ {
        assert(all_methods()[113] == "sync.push"@);
        lemma_capability_by_name(113);
        assert(all_capabilities()[113] == Capability::MutateAcross);
    } else if m == "sync.resolve"@ {
        assert(all_methods()[111] == "sync.resolve"@);
        lemma_capability_by_name(111);
        assert(all_capabilities()[111] == Capability::MutateAcross);
    } else if m == "sync.repair"@ {
        assert(all_methods()[116] == "sync.repair"@);
        lemma_capability_by_name(116);
        assert(all_capabilities()[116] == Capability::MutateAcross);
    } else if m == "sync.skip"@ {
        assert(all_methods()[112] == "sync.skip"@);
        lemma_capability_by_name(112);
        assert(all_capabilities()[112] == Capability::MutateProject);
    } else if m == "sync.cancel"@ {
        assert(all_methods()[114] == "sync.cancel"@);
        lemma_capability_by_name(114);
        assert(all_capabilities()[114] == Capability::MutateProject);
    } else if m == "sync.dismiss"@ {
        assert(all_methods()[115] == "sync.dismiss"@);
        lemma_capability_by_name(115);
        assert(all_capabilities()[115] == Capability::MutateProject);
    }
}

} // verus!

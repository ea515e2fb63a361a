//! What a project shares with its worktrees, and what it keeps to itself.
//!
//! A fresh worktree with no `node_modules` is a worktree an agent cannot build
//! in, and copying one is minutes and gigabytes. These are linked instead, from
//! a list the project declares. The care here is all in the failure modes: a
//! link followed by `git worktree remove` deletes the *original*, so the links
//! come out before git touches the directory, and a name the policy may not hold
//! is refused rather than silently dropped.
//!
//! The filesystem half (reading the policy file, probing for manifests,
//! cloning, linking) belongs to the host; what is decided from what it found
//! is here.

use vstd::prelude::*;

use crate::git::glob::{glob_match, glob_matches_chars};
use crate::git::ops::{has_drive, path_seps};
use crate::text::{
    chars_eq, chars_of, copy_range, drop_empty, drop_empty_exec, ends_with, first_index,
    first_index_exec, has_prefix, has_suffix, last_index, last_index_exec, lines, lines_exec,
    split_by, split_by_exec, starts_with, string_of, trim, trim_exec, trim_set,
    trim_set_exec, views, strs, text_is, contains_char, push_str, push_chars, trim_end_of, trim_end_index,
};

verus! {

/// How a worktree takes one directory from the main checkout.
#[derive(Debug, Clone, Copy, PartialEq, Eq, Structural)]
pub enum ShareMode {
    /// One junction or symlink for the whole directory.
    Link,
    /// A hard link per file, minus what a build rewrites.
    Hardlink,
}

/// One directory a worktree takes from the main checkout, and the terms.
#[derive(Debug, Clone)]
pub struct SharedDir {
    pub dir: String,
    pub mode: ShareMode,
    /// Globs, relative to `dir`, of what a build rewrites and a hard link must
    /// therefore not cover. `*` stops at a separator, `**` does not. Ignored
    /// for `Link`, where the whole directory is one link either way.
    pub exclude: Vec<String>,
    /// Whether cargo's layout rule applies: whether an artifact belongs to a
    /// workspace member is read from the manifests, not from its path.
    pub cargo_workspace: bool,
}

/// What a project shares with its worktrees.
#[derive(Debug, Clone)]
pub struct ArtifactPolicy {
    pub shared: Vec<SharedDir>,
}

/// A policy, and whether it is the project's own rule or a detected one.
#[derive(Debug, Clone)]
pub struct EffectivePolicy {
    pub shared: Vec<SharedDir>,
    /// True when the policy file decided, including a file that failed to
    /// parse: detection does not run behind one.
    pub declared: bool,
}


/// Whether `c` is an ASCII hexadecimal digit.
pub open spec fn is_hex_digit(c: char) -> bool {
    ||| ('0' as u32 <= c as u32 && c as u32 <= '9' as u32)
    ||| ('a' as u32 <= c as u32 && c as u32 <= 'f' as u32)
    ||| ('A' as u32 <= c as u32 && c as u32 <= 'F' as u32)
}

/// An artifact name up to its first dot.
pub open spec fn artifact_stem(name: Seq<char>) -> Seq<char> {
    split_by(name, seq!['.'])[0]
}

/// A stem with cargo's `-<16 hex>` suffix taken off, when it has one.
pub open spec fn artifact_base(stem: Seq<char>) -> Seq<char> {
    let k = last_index(stem, '-');
    if k >= 0 && stem.len() - (k + 1) == 16 && (forall|j: int|
        k < j < stem.len() ==> #[trigger] is_hex_digit(stem[j])) {
        stem.take(k)
    } else {
        stem
    }
}

pub open spec fn lib_prefix() -> Seq<char> {
    seq!['l', 'i', 'b']
}

/// Whether an artifact belongs to one of the packages named in `locals`.
pub open spec fn is_local(name: Seq<char>, locals: Seq<Seq<char>>) -> bool {
    let base = artifact_base(artifact_stem(name));
    locals.contains(base) || (has_prefix(base, lib_prefix()) && locals.contains(base.skip(3)))
}

/// Whether `c` is an ASCII hexadecimal digit.
pub fn hex_digit(c: char) -> (r: bool)
    ensures
        r == is_hex_digit(c),
{
    (c >= '0' && c <= '9') || (c >= 'a' && c <= 'f') || (c >= 'A' && c <= 'F')
}

/// Whether `v` is one of `list`.
pub fn contains_text(list: &[String], v: &[char]) -> (r: bool)
    ensures
        r == strs(list@).contains(v@),
{
    let mut i: usize = 0;
    while i < list.len()
        invariant
            i <= list@.len(),
            forall|j: int| 0 <= j < i ==> list@[j]@ != v@,
        decreases list.len() - i,
    {
        let item = chars_of(list[i].as_str());
        if chars_eq(&item, v) {
            assert(strs(list@)[i as int] == v@);
            return true;
        }
        i = i + 1;
    }
    proof {
        if strs(list@).contains(v@) {
            let j = choose|j: int| 0 <= j < strs(list@).len() && strs(list@)[j] == v@;
            assert(list@[j]@ == v@);
        }
    }
    false
}

/// Whether an artifact file or directory belongs to one of this repository's
/// own packages.
///
/// Cargo suffixes almost everything with `-<16 hex>`, so the name is compared
/// with that stripped. A leading `lib` goes too: `libboite_core-<hash>.rlib`
/// and `boite-core-<hash>/` are the same package wearing two spellings.
pub fn is_local_artifact(name: &str, locals: &[String]) -> (r: bool)
    ensures
        r == is_local(name@, strs(locals@)),
{
    let name_chars = chars_of(name);
    let dot: [char; 1] = ['.'];
    proof {
        assert(dot@ =~= seq!['.']);
        crate::text::lemma_split_count(name@, seq!['.']);
    }
    let pieces = split_by_exec(&name_chars, &dot);
    let stem = &pieces[0];
    let base = match last_index_exec(stem, '-') {
        Some(k) => {
            proof {
                crate::text::lemma_last_index(stem@, '-');
            }
            let tail_len = stem.len() - (k + 1);
            let mut all_hex = tail_len == 16;
            let mut j = k + 1;
            while j < stem.len() && all_hex
                invariant
                    k < stem@.len(),
                    k + 1 <= j <= stem@.len(),
                    all_hex ==> stem@.len() - (k + 1) == 16,
                    all_hex ==> forall|q: int| k < q < j ==> #[trigger] is_hex_digit(stem@[q]),
                    !all_hex ==> !(stem@.len() - (k + 1) == 16 && (forall|q: int|
                        k < q < stem@.len() ==> #[trigger] is_hex_digit(stem@[q]))),
                decreases stem.len() - j,
            {
                if !hex_digit(stem[j]) {
                    all_hex = false;
                }
                j = j + 1;
            }
            if all_hex {
                let b = copy_range(stem, 0, k);
                proof {
                    assert(b@ =~= stem@.take(k as int));
                    assert(b@ == artifact_base(stem@));
                }
                b
            } else {
                let b = copy_range(stem, 0, stem.len());
                proof {
                    assert(b@ =~= stem@);
                    assert(b@ == artifact_base(stem@));
                }
                b
            }
        },
        None => {
            let b = copy_range(stem, 0, stem.len());
            proof {
                assert(b@ =~= stem@);
            }
            b
        },
    };
    proof {
        assert(stem@ == artifact_stem(name@));
        assert(base@ == artifact_base(stem@));
    }
    if contains_text(locals, &base) {
        return true;
    }
    let lib: [char; 3] = ['l', 'i', 'b'];
    proof {
        assert(lib@ =~= lib_prefix());
    }
    if starts_with(&base, &lib) {
        let rest = copy_range(&base, 3, base.len());
        proof {
            assert(rest@ =~= base@.skip(3));
        }
        return contains_text(locals, &rest);
    }
    false
}

/// The components of a path relative to a shared directory: split on `/`,
/// empty ones dropped.
pub open spec fn rel_parts(rel: Seq<char>) -> Seq<Seq<char>> {
    drop_empty(split_by(rel, seq!['/']))
}

/// Segments joined with a separator, as `[&str]::join` does.
pub open spec fn join(parts: Seq<Seq<char>>, sep: char) -> Seq<char>
    decreases parts.len(),
{
    if parts.len() == 0 {
        Seq::<char>::empty()
    } else if parts.len() == 1 {
        parts[0]
    } else {
        join(parts.drop_last(), sep).push(sep) + parts.last()
    }
}

pub open spec fn cargo_lock_prefix() -> Seq<char> {
    seq!['.', 'c', 'a', 'r', 'g', 'o', '-']
}

pub open spec fn lock_suffix() -> Seq<char> {
    seq!['l', 'o', 'c', 'k']
}

pub open spec fn incremental() -> Seq<char> {
    seq!['i', 'n', 'c', 'r', 'e', 'm', 'e', 'n', 't', 'a', 'l']
}

/// The three directories under `debug/` or `release/` whose entries are
/// per-package.
pub open spec fn is_package_dir(name: Seq<char>) -> bool {
    ||| name == seq!['d', 'e', 'p', 's']
    ||| name == seq!['b', 'u', 'i', 'l', 'd']
    ||| name == seq!['.', 'f', 'i', 'n', 'g', 'e', 'r', 'p', 'r', 'i', 'n', 't']
}

/// Cargo's own rule for what a build rewrites inside `target`.
pub open spec fn cargo_rewrites(parts: Seq<Seq<char>>, is_dir: bool, locals: Seq<Seq<char>>) -> bool {
    ||| (parts.len() > 0 && has_prefix(parts.last(), cargo_lock_prefix()) && has_suffix(
        parts.last(),
        lock_suffix(),
    ))
    ||| parts.contains(incremental())
    ||| (parts.len() == 2 && !is_dir)
    ||| (parts.len() >= 3 && is_package_dir(parts[1]) && is_local(parts[2], locals))
}

/// In a cargo workspace, what sits in `deps`, `build` or `.fingerprint` one
/// level below a profile and belongs to a package of this workspace is
/// rewritten by every build of it, so the worktree owns it, whatever the
/// exclusions say.
pub proof fn lemma_local_package_artifacts_are_mutable(
    rel: Seq<char>,
    is_dir: bool,
    exclude: Seq<Seq<char>>,
    locals: Seq<Seq<char>>,
)
    requires
        rel_parts(rel).len() >= 3,
        rel_parts(rel)[1] == seq!['d', 'e', 'p', 's'] || rel_parts(rel)[1] == seq!['b', 'u', 'i', 'l', 'd']
            || rel_parts(rel)[1] == seq!['.', 'f', 'i', 'n', 'g', 'e', 'r', 'p', 'r', 'i', 'n', 't'],
        is_local(rel_parts(rel)[2], locals),
    ensures
        is_mutable(rel, is_dir, exclude, true, locals),
{
}

/// The rest of cargo's layout, in a cargo workspace: a file directly in a
/// profile directory (an uplifted final artifact), anything under an
/// `incremental` directory, and cargo's own `.cargo-…lock` files are the
/// worktree's own.
pub proof fn lemma_cargo_per_worktree_paths_are_mutable(
    rel: Seq<char>,
    is_dir: bool,
    exclude: Seq<Seq<char>>,
    locals: Seq<Seq<char>>,
)
    ensures
        rel_parts(rel).len() == 2 && !is_dir ==> is_mutable(rel, is_dir, exclude, true, locals),
        rel_parts(rel).contains(seq!['i', 'n', 'c', 'r', 'e', 'm', 'e', 'n', 't', 'a', 'l']) ==> is_mutable(
            rel,
            is_dir,
            exclude,
            true,
            locals,
        ),
        rel_parts(rel).len() > 0 && has_prefix(rel_parts(rel).last(), seq!['.', 'c', 'a', 'r', 'g', 'o', '-'])
            && has_suffix(rel_parts(rel).last(), seq!['l', 'o', 'c', 'k']) ==> is_mutable(
            rel,
            is_dir,
            exclude,
            true,
            locals,
        ),
{
}

/// What cargo shares safely stays shared: with no exclusion, a directory
/// directly in a profile, and anything under `deps`, `build` or
/// `.fingerprint` that belongs to no package of this workspace, is not the
/// worktree's own unless it is a lock file or under `incremental`.
pub proof fn lemma_foreign_package_artifacts_stay_shared(rel: Seq<char>, is_dir: bool, locals: Seq<Seq<char>>)
    requires
        !rel_parts(rel).contains(seq!['i', 'n', 'c', 'r', 'e', 'm', 'e', 'n', 't', 'a', 'l']),
        rel_parts(rel).len() > 0 ==> !has_suffix(rel_parts(rel).last(), seq!['l', 'o', 'c', 'k']),
        rel_parts(rel).len() == 2 ==> is_dir,
        rel_parts(rel).len() >= 3 ==> !is_local(rel_parts(rel)[2], locals),
    ensures
        !is_mutable(rel, is_dir, Seq::<Seq<char>>::empty(), true, locals),
{
}

/// Outside a cargo workspace only an exclusion makes a path the worktree's
/// own: with none, nothing is.
pub proof fn lemma_without_cargo_only_exclusions_count(rel: Seq<char>, is_dir: bool, locals: Seq<Seq<char>>)
    ensures
        !is_mutable(rel, is_dir, Seq::<Seq<char>>::empty(), false, locals),
{
}

/// Whether a path inside a shared build directory is one the worktree has to
/// own outright: an exclusion names it, or cargo's layout says a build
/// rewrites it.
pub open spec fn is_mutable(
    rel: Seq<char>,
    is_dir: bool,
    exclude: Seq<Seq<char>>,
    cargo_workspace: bool,
    locals: Seq<Seq<char>>,
) -> bool {
    let parts = rel_parts(rel);
    ||| (exists|g: int| 0 <= g < exclude.len() && #[trigger] glob_match(exclude[g], join(parts, '/')))
    ||| (cargo_workspace && cargo_rewrites(parts, is_dir, locals))
}

/// Segments joined with a separator.
pub fn join_exec(parts: &Vec<Vec<char>>, sep: char) -> (out: Vec<char>)
    ensures
        out@ == join(views(parts@), sep),
{
    let mut out: Vec<char> = Vec::new();
    let ghost all = views(parts@);
    let mut i: usize = 0;
    while i < parts.len()
        invariant
            all == views(parts@),
            i <= parts@.len(),
            out@ == join(all.take(i as int), sep),
        decreases parts.len() - i,
    {
        proof {
            assert(all.take(i + 1).drop_last() =~= all.take(i as int));
            assert(all.take(i + 1).last() == parts@[i as int]@);
        }
        if i > 0 {
            out.push(sep);
        }
        let piece = &parts[i];
        let mut j: usize = 0;
        let ghost start = out@;
        while j < piece.len()
            invariant
                j <= piece@.len(),
                out@ == start + piece@.take(j as int),
            decreases piece.len() - j,
        {
            out.push(piece[j]);
            proof {
                assert(piece@.take(j + 1) =~= piece@.take(j as int).push(piece@[j as int]));
            }
            j = j + 1;
        }
        proof {
            assert(piece@.take(piece@.len() as int) =~= piece@);
            if i == 0 {
                assert(out@ =~= piece@);
            }
        }
        i = i + 1;
    }
    proof {
        assert(all.take(parts@.len() as int) =~= all);
    }
    out
}

/// Whether some string in `list` equals the literal characters `lit`.
fn contains_seq(list: &Vec<Vec<char>>, lit: &[char]) -> (r: bool)
    ensures
        r == views(list@).contains(lit@),
{
    let mut i: usize = 0;
    while i < list.len()
        invariant
            i <= list@.len(),
            forall|j: int| 0 <= j < i ==> list@[j]@ != lit@,
        decreases list.len() - i,
    {
        if chars_eq(&list[i], lit) {
            assert(views(list@)[i as int] == lit@);
            return true;
        }
        i = i + 1;
    }
    proof {
        if views(list@).contains(lit@) {
            let j = choose|j: int| 0 <= j < views(list@).len() && views(list@)[j] == lit@;
            assert(list@[j]@ == lit@);
        }
    }
    false
}

/// Whether a path inside a shared build directory is one the worktree has to
/// own outright.
///
/// Everything a build rewrites stays out: a hard link is not copy-on-write, so
/// writing through one writes the main checkout's copy too. What is left is the
/// dependency artifacts, which the toolchain only ever creates, never edits.
///
/// `rel` is relative to the shared directory itself, `/`-separated, which is
/// what the policy file's globs are documented against.
pub fn is_mutable_build_artifact(
    rel: &str,
    is_dir: bool,
    entry: &SharedDir,
    locals: &[String],
) -> (r: bool)
    ensures
        r == is_mutable(rel@, is_dir, strs(entry.exclude@), entry.cargo_workspace, strs(locals@)),
{
    let rel_chars = chars_of(rel);
    let slash: [char; 1] = ['/'];
    proof {
        assert(slash@ =~= seq!['/']);
    }
    let pieces = split_by_exec(&rel_chars, &slash);
    proof {
        assert(views(pieces@) =~= split_by(rel@, seq!['/']));
    }
    let parts = drop_empty_exec(&pieces);
    let ghost ps = views(parts@);
    let ghost exclude = strs(entry.exclude@);
    assert(ps == rel_parts(rel@));

    if entry.exclude.len() > 0 {
        let joined = join_exec(&parts, '/');
        let mut g: usize = 0;
        while g < entry.exclude.len()
            invariant
                g <= entry.exclude@.len(),
                exclude == strs(entry.exclude@),
                ps == rel_parts(rel@),
                joined@ == join(ps, '/'),
                forall|q: int| 0 <= q < g ==> !#[trigger] glob_match(exclude[q], join(ps, '/')),
            decreases entry.exclude.len() - g,
        {
            let pattern = chars_of(entry.exclude[g].as_str());
            if glob_matches_chars(&pattern, &joined) {
                assert(glob_match(exclude[g as int], join(ps, '/')));
                assert(glob_match(exclude[g as int], join(rel_parts(rel@), '/')));
                assert(exists|q: int|
                    0 <= q < exclude.len() && #[trigger] glob_match(exclude[q], join(rel_parts(rel@), '/')));
                return true;
            }
            g = g + 1;
        }
    }
    let ghost excluded = exists|g: int|
        0 <= g < exclude.len() && #[trigger] glob_match(exclude[g], join(ps, '/'));
    assert(!excluded);

    if !entry.cargo_workspace {
        return false;
    }
    let n = parts.len();
    if n > 0 {
        let last = &parts[n - 1];
        let prefix: [char; 7] = ['.', 'c', 'a', 'r', 'g', 'o', '-'];
        let suffix: [char; 4] = ['l', 'o', 'c', 'k'];
        proof {
            assert(prefix@ =~= cargo_lock_prefix());
            assert(suffix@ =~= lock_suffix());
        }
        if starts_with(last, &prefix) && ends_with(last, &suffix) {
            return true;
        }
    }
    let inc: [char; 11] = ['i', 'n', 'c', 'r', 'e', 'm', 'e', 'n', 't', 'a', 'l'];
    proof {
        assert(inc@ =~= incremental());
    }
    if contains_seq(&parts, &inc) {
        return true;
    }
    if n == 2 && !is_dir {
        return true;
    }
    if n >= 3 {
        let deps: [char; 4] = ['d', 'e', 'p', 's'];
        let build: [char; 5] = ['b', 'u', 'i', 'l', 'd'];
        let fingerprint: [char; 12] = ['.', 'f', 'i', 'n', 'g', 'e', 'r', 'p', 'r', 'i', 'n', 't'];
        proof {
            assert(deps@ =~= seq!['d', 'e', 'p', 's']);
            assert(build@ =~= seq!['b', 'u', 'i', 'l', 'd']);
            assert(fingerprint@ =~= seq!['.', 'f', 'i', 'n', 'g', 'e', 'r', 'p', 'r', 'i', 'n', 't']);
        }
        let second = &parts[1];
        if chars_eq(second, &deps) || chars_eq(second, &build) || chars_eq(second, &fingerprint) {
            let name = string_of(&parts[2]);
            return is_local_artifact(name.as_str(), locals);
        }
    }
    false
}

} // verus!

verus! {

/// Which manifests sit at the top of a repository, as detection asks.
#[derive(Debug, Clone, Copy)]
pub struct Manifests {
    pub package_json: bool,
    pub pyproject_toml: bool,
    pub requirements_txt: bool,
    pub setup_py: bool,
    pub go_mod: bool,
    pub composer_json: bool,
    pub build_gradle: bool,
    pub build_gradle_kts: bool,
    pub settings_gradle: bool,
}

/// What reading the policy file found.
#[derive(Debug, Clone)]
pub enum PolicyFile {
    /// No file could be read: detection decides.
    Absent,
    /// A file that parsed.
    Declared(ArtifactPolicy),
    /// A file that is there and did not parse. Someone wrote it on purpose, so
    /// detection does not run behind it.
    Malformed,
}

/// A whole-directory link share of `dir`.
pub open spec fn is_link_of(entry: SharedDir, dir: Seq<char>) -> bool {
    &&& entry.dir@ == dir
    &&& entry.mode == ShareMode::Link
    &&& entry.exclude@.len() == 0
    &&& !entry.cargo_workspace
}

/// One directory linked whole.
pub fn link(dir: &str) -> (entry: SharedDir)
    ensures
        is_link_of(entry, dir@),
{
    SharedDir { dir: dir.to_owned(), mode: ShareMode::Link, exclude: Vec::new(), cargo_workspace: false }
}

/// The directories detection shares, in the order it lists them.
pub open spec fn detected_dirs(m: Manifests) -> Seq<Seq<char>> {
    let js: Seq<Seq<char>> = if m.package_json { seq!["node_modules"@] } else { seq![] };
    let py: Seq<Seq<char>> = if m.pyproject_toml || m.requirements_txt || m.setup_py {
        seq![".venv"@, "venv"@]
    } else {
        seq![]
    };
    let vendor: Seq<Seq<char>> = if m.go_mod || m.composer_json { seq!["vendor"@] } else { seq![] };
    let gradle: Seq<Seq<char>> = if m.build_gradle || m.build_gradle_kts || m.settings_gradle {
        seq![".gradle"@]
    } else {
        seq![]
    };
    js + py + vendor + gradle
}

/// The entries are exactly whole-directory links of `dirs`, in order.
pub open spec fn links_of(entries: Seq<SharedDir>, dirs: Seq<Seq<char>>) -> bool {
    &&& entries.len() == dirs.len()
    &&& forall|i: int| 0 <= i < dirs.len() ==> #[trigger] is_link_of(entries[i], dirs[i])
}

fn push_link(shared: &mut Vec<SharedDir>, dir: &str, Ghost(dirs): Ghost<Seq<Seq<char>>>)
    requires
        links_of(old(shared)@, dirs),
    ensures
        links_of(final(shared)@, dirs.push(dir@)),
{
    shared.push(link(dir));
    proof {
        assert forall|i: int| 0 <= i < dirs.push(dir@).len() implies #[trigger] is_link_of(
            final(shared)@[i],
            dirs.push(dir@)[i],
        ) by {
            if i < dirs.len() {
                assert(final(shared)@[i] == old(shared)@[i]);
            }
        }
    }
}

/// What detection shares for a project with these manifests: the install
/// directories one link makes usable, and never build output.
pub fn detected_policy(m: &Manifests) -> (shared: Vec<SharedDir>)
    ensures
        links_of(shared@, detected_dirs(*m)),
{
    let mut shared: Vec<SharedDir> = Vec::new();
    let ghost mut dirs: Seq<Seq<char>> = seq![];
    if m.package_json {
        push_link(&mut shared, "node_modules", Ghost(dirs));
        proof {
            dirs = dirs.push("node_modules"@);
        }
    }
    if m.pyproject_toml || m.requirements_txt || m.setup_py {
        push_link(&mut shared, ".venv", Ghost(dirs));
        proof {
            dirs = dirs.push(".venv"@);
        }
        push_link(&mut shared, "venv", Ghost(dirs));
        proof {
            dirs = dirs.push("venv"@);
        }
    }
    if m.go_mod || m.composer_json {
        push_link(&mut shared, "vendor", Ghost(dirs));
        proof {
            dirs = dirs.push("vendor"@);
        }
    }
    if m.build_gradle || m.build_gradle_kts || m.settings_gradle {
        push_link(&mut shared, ".gradle", Ghost(dirs));
        proof {
            dirs = dirs.push(".gradle"@);
        }
    }
    assert(dirs =~= detected_dirs(*m));
    shared
}

/// What this project shares with its worktrees: the policy file when one was
/// read, nothing when one was there and did not parse, detection otherwise.
pub fn artifact_policy(file: PolicyFile, m: &Manifests) -> (shared: Vec<SharedDir>)
    ensures
        match file {
            PolicyFile::Declared(policy) => shared@ == policy.shared@,
            PolicyFile::Malformed => shared@.len() == 0,
            PolicyFile::Absent => links_of(shared@, detected_dirs(*m)),
        },
{
    match file {
        PolicyFile::Declared(policy) => policy.shared,
        PolicyFile::Malformed => Vec::new(),
        PolicyFile::Absent => detected_policy(m),
    }
}

/// The policy `provision_shared_artifacts` acts on, and whether the project
/// declared it.
pub fn effective_artifact_policy(file: PolicyFile, m: &Manifests) -> (e: EffectivePolicy)
    ensures
        e.declared == !(file is Absent),
        match file {
            PolicyFile::Declared(policy) => e.shared@ == policy.shared@,
            PolicyFile::Malformed => e.shared@.len() == 0,
            PolicyFile::Absent => links_of(e.shared@, detected_dirs(*m)),
        },
{
    let declared = match &file {
        PolicyFile::Absent => false,
        _ => true,
    };
    EffectivePolicy { declared, shared: artifact_policy(file, m) }
}

/// One plain name at the top of a repository: not empty, no separator,
/// neither `.` nor `..`, and no drive. Checked the same on every platform: a
/// policy written on one machine is read back on another.
pub open spec fn is_plain_name(dir: Seq<char>) -> bool {
    &&& dir.len() > 0
    &&& !dir.contains('/')
    &&& !dir.contains('\\')
    &&& dir != "."@
    &&& dir != ".."@
    &&& !has_drive(dir)
}

pub open spec fn not_plain_message(dir: Seq<char>) -> Seq<char> {
    "'"@ + dir
        + "' is not a directory this can share: one plain name at the top of the repository, no separator, no '..' and no drive"@
}

pub open spec fn link_with_exclusions_message(dir: Seq<char>) -> Seq<char> {
    "'"@ + dir
        + "' asks for 'link' with build-output exclusions, which link ignores. Build output has to be 'hardlink', or two worktrees share one artifact slot and each build overwrites the other's."@
}

pub open spec fn cargo_target_message() -> Seq<char> {
    "'target' is cargo's build output and cannot be shared with 'link': two worktrees would resolve to one artifact slot. Use 'hardlink', which is what detection writes."@
}

/// Why one entry cannot be written, if it cannot.
pub open spec fn entry_error(entry: SharedDir, cargo_manifest: bool) -> Option<Seq<char>> {
    if !is_plain_name(entry.dir@) {
        Some(not_plain_message(entry.dir@))
    } else if entry.mode == ShareMode::Link && (entry.cargo_workspace || entry.exclude@.len() > 0) {
        Some(link_with_exclusions_message(entry.dir@))
    } else if entry.mode == ShareMode::Link && entry.dir@ == "target"@ && cargo_manifest {
        Some(cargo_target_message())
    } else {
        None
    }
}

/// The first entry's refusal, in the order the policy lists them.
pub open spec fn policy_error(entries: Seq<SharedDir>, cargo_manifest: bool) -> Option<Seq<char>>
    decreases entries.len(),
{
    if entries.len() == 0 {
        None
    } else {
        match entry_error(entries[0], cargo_manifest) {
            Some(e) => Some(e),
            None => policy_error(entries.drop_first(), cargo_manifest),
        }
    }
}

/// Why this entry cannot be written, if it cannot.
fn check_entry(entry: &SharedDir, cargo_manifest: bool) -> (r: Option<String>)
    ensures
        match r {
            Some(msg) => entry_error(*entry, cargo_manifest) == Some(msg@),
            None => entry_error(*entry, cargo_manifest) is None,
        },
{
    let dir = chars_of(entry.dir.as_str());
    let drive = dir.len() >= 2 && (('a' <= dir[0] && dir[0] <= 'z') || ('A' <= dir[0] && dir[0] <= 'Z')) && dir[1]
        == ':';
    let plain = dir.len() > 0 && !contains_char(&dir, '/') && !contains_char(&dir, '\\')
        && !text_is(&dir, ".") && !text_is(&dir, "..") && !drive;
    if !plain {
        let mut msg: Vec<char> = Vec::new();
        push_str(&mut msg, "'");
        push_chars(&mut msg, &dir);
        push_str(
            &mut msg,
            "' is not a directory this can share: one plain name at the top of the repository, no separator, no '..' and no drive",
        );
        return Some(string_of(&msg));
    }
    if entry.mode == ShareMode::Link && (entry.cargo_workspace || entry.exclude.len() > 0) {
        let mut msg: Vec<char> = Vec::new();
        push_str(&mut msg, "'");
        push_chars(&mut msg, &dir);
        push_str(
            &mut msg,
            "' asks for 'link' with build-output exclusions, which link ignores. Build output has to be 'hardlink', or two worktrees share one artifact slot and each build overwrites the other's.",
        );
        return Some(string_of(&msg));
    }
    if entry.mode == ShareMode::Link && text_is(&dir, "target") && cargo_manifest {
        let msg = chars_of(
            "'target' is cargo's build output and cannot be shared with 'link': two worktrees would resolve to one artifact slot. Use 'hardlink', which is what detection writes.",
        );
        return Some(string_of(&msg));
    }
    None
}

/// Whether a policy may be written, and if not, the refusal its author reads.
///
/// The names are checked when the policy is written rather than only when it
/// is used, because a name refused at provisioning time is skipped in silence
/// and the project quietly stops sharing the directory it configured.
/// `cargo_manifest` is whether the repository has a `Cargo.toml` file.
pub fn check_artifact_policy(policy: &ArtifactPolicy, cargo_manifest: bool) -> (r: Result<(), String>)
    ensures
        match r {
            Ok(()) => policy_error(policy.shared@, cargo_manifest) is None,
            Err(msg) => policy_error(policy.shared@, cargo_manifest) == Some(msg@),
        },
{
    let mut i: usize = 0;
    assert(policy.shared@.skip(0) =~= policy.shared@);
    while i < policy.shared.len()
        invariant
            i <= policy.shared@.len(),
            policy_error(policy.shared@, cargo_manifest) == policy_error(
                policy.shared@.skip(i as int),
                cargo_manifest,
            ),
        decreases policy.shared.len() - i,
    {
        proof {
            assert(policy.shared@.skip(i as int)[0] == policy.shared@[i as int]);
            assert(policy.shared@.skip(i as int).drop_first() =~= policy.shared@.skip(i + 1));
        }
        match check_entry(&policy.shared[i], cargo_manifest) {
            Some(msg) => return Err(msg),
            None => {},
        }
        i = i + 1;
    }
    Ok(())
}

} // verus!

verus! {

/// Every directory name a worktree might hold a link to, across all
/// ecosystems: the list unlinking falls back on when the policy that made the
/// links can no longer be read.
pub open spec fn shared_artifacts() -> Seq<Seq<char>> {
    seq![
        "node_modules"@, "target"@, ".venv"@, "venv"@, "vendor"@, ".gradle"@, "bin"@, "obj"@
    ]
}

/// The names unlinking walks: the static list, then each policy directory
/// that is a single name and not already listed.
pub open spec fn unlink_list(entries: Seq<SharedDir>) -> Seq<Seq<char>>
    decreases entries.len(),
{
    if entries.len() == 0 {
        shared_artifacts()
    } else {
        let before = unlink_list(entries.drop_last());
        let dir = entries.last().dir@;
        if dir.len() == 0 || dir.contains('/') || dir.contains('\\') || before.contains(dir) {
            before
        } else {
            before.push(dir)
        }
    }
}

/// The names whose links have to come out of a worktree before git removes
/// it. Only a link is ever removed under one of these names, so naming too
/// many costs a failed lookup and naming too few leaks a link into
/// `git worktree remove`.
pub fn unlink_shared_artifacts(policy: &Vec<SharedDir>) -> (names: Vec<String>)
    ensures
        strs(names@) == unlink_list(policy@),
{
    let mut names: Vec<String> = Vec::new();
    let statics = [
        "node_modules", "target", ".venv", "venv", "vendor", ".gradle", "bin", "obj",
    ];
    let mut k: usize = 0;
    while k < 8
        invariant
            k <= 8,
            statics@ == seq![
                "node_modules", "target", ".venv", "venv", "vendor", ".gradle", "bin", "obj"
            ],
            strs(names@) == shared_artifacts().take(k as int),
        decreases 8 - k,
    {
        let ghost before = names@;
        names.push(statics[k].to_owned());
        proof {
            assert(strs(names@) =~= strs(before).push(statics@[k as int]@));
            assert(shared_artifacts().take(k + 1) =~= shared_artifacts().take(k as int).push(
                shared_artifacts()[k as int],
            ));
        }
        k = k + 1;
    }
    proof {
        assert(shared_artifacts().take(8) =~= shared_artifacts());
        assert(policy@.take(0) =~= Seq::<SharedDir>::empty());
    }
    let mut i: usize = 0;
    while i < policy.len()
        invariant
            i <= policy@.len(),
            strs(names@) == unlink_list(policy@.take(i as int)),
        decreases policy.len() - i,
    {
        let dir = chars_of(policy[i].dir.as_str());
        proof {
            assert(policy@.take(i + 1).drop_last() =~= policy@.take(i as int));
            assert(policy@.take(i + 1).last() == policy@[i as int]);
        }
        if dir.len() > 0 && !contains_char(&dir, '/') && !contains_char(&dir, '\\')
            && !contains_text(&names, &dir) {
            let ghost before = names@;
            names.push(policy[i].dir.clone());
            proof {
                assert(strs(names@) =~= strs(before).push(dir@));
            }
        }
        i = i + 1;
    }
    proof {
        assert(policy@.take(policy@.len() as int) =~= policy@);
    }
    names
}

/// Whether `Path::components` of a relative name yields only normal
/// components, on the platform this runs on (`windows`): not empty, not
/// rooted (nor, on Windows, rooted at a backslash or a drive), not starting
/// with `.`, and no `..` anywhere.
pub open spec fn only_normal_components(dir: Seq<char>, windows: bool) -> bool {
    let pieces = split_by(dir, path_seps(windows));
    &&& dir.len() > 0
    &&& dir[0] != '/'
    &&& !(windows && (dir[0] == '\\' || has_drive(dir)))
    &&& pieces[0] != "."@
    &&& forall|i: int| 0 <= i < pieces.len() ==> #[trigger] pieces[i] != ".."@
}

/// Whether a policy directory may be provisioned at all: the name reaches a
/// `join` from a file the project controls, so only normal components get
/// that far.
pub fn provisionable(dir: &str, windows: bool) -> (r: bool)
    ensures
        r == only_normal_components(dir@, windows),
{
    let chars = chars_of(dir);
    if chars.len() == 0 || chars[0] == '/' {
        return false;
    }
    if windows && (chars[0] == '\\' || (chars.len() >= 2 && (('a' <= chars[0] && chars[0] <= 'z') || ('A' <= chars[0]
        && chars[0] <= 'Z')) && chars[1] == ':')) {
        return false;
    }
    let seps: Vec<char> = if windows {
        let v = vec!['/', '\\'];
        assert(v@ =~= seq!['/', '\\']);
        v
    } else {
        let v = vec!['/'];
        assert(v@ =~= seq!['/']);
        v
    };
    proof {
        crate::text::lemma_split_count(dir@, path_seps(windows));
    }
    let pieces = split_by_exec(&chars, &seps);
    if text_is(&pieces[0], ".") {
        return false;
    }
    let mut i: usize = 0;
    while i < pieces.len()
        invariant
            i <= pieces@.len(),
            pieces@.len() == split_by(dir@, path_seps(windows)).len(),
            forall|k: int| 0 <= k < pieces@.len() ==> #[trigger] pieces@[k]@ == split_by(dir@, path_seps(windows))[k],
            forall|k: int| 0 <= k < i ==> #[trigger] split_by(dir@, path_seps(windows))[k] != ".."@,
        decreases pieces.len() - i,
    {
        if text_is(&pieces[i], "..") {
            return false;
        }
        i = i + 1;
    }
    true
}

/// Which entries of a policy are provisioned into a new worktree, by
/// position: those whose directory is a plain relative name on the platform
/// this runs on (`windows`). The host then
/// fills each one whose source exists and whose destination does not, by a
/// clone, or else as the entry's mode says.
pub fn provision_shared_artifacts(policy: &Vec<SharedDir>, windows: bool) -> (picked: Vec<usize>)
    ensures
        forall|a: int, b: int| 0 <= a < b < picked@.len() ==> picked@[a] < picked@[b],
        forall|k: int| 0 <= k < picked@.len() ==> #[trigger] picked@[k] < policy@.len()
            && only_normal_components(policy@[picked@[k] as int].dir@, windows),
        forall|i: int| 0 <= i < policy@.len() && only_normal_components(#[trigger] policy@[i].dir@, windows)
            ==> picked@.contains(i as usize),
{
    let mut picked: Vec<usize> = Vec::new();
    let mut i: usize = 0;
    while i < policy.len()
        invariant
            i <= policy@.len(),
            forall|a: int, b: int| 0 <= a < b < picked@.len() ==> picked@[a] < picked@[b],
            forall|k: int| 0 <= k < picked@.len() ==> #[trigger] picked@[k] < i
                && only_normal_components(policy@[picked@[k] as int].dir@, windows),
            forall|m: int| 0 <= m < i && only_normal_components(#[trigger] policy@[m].dir@, windows)
                ==> picked@.contains(m as usize),
        decreases policy.len() - i,
    {
        if provisionable(policy[i].dir.as_str(), windows) {
            let ghost before = picked@;
            picked.push(i);
            proof {
                assert forall|m: int| 0 <= m < i + 1 && only_normal_components(#[trigger] policy@[m].dir@, windows)
                    implies picked@.contains(m as usize) by {
                    if m < i {
                        let w = choose|w: int| 0 <= w < before.len() && before[w] == m as usize;
                        assert(picked@[w] == m as usize);
                    } else {
                        assert(picked@[before.len() as int] == i);
                    }
                }
            }
        }
        i = i + 1;
    }
    picked
}

} // verus!

verus! {

/// The inside of a `[header]` line, when the trimmed line is one.
pub open spec fn header_of(t: Seq<char>) -> Option<Seq<char>> {
    if t.len() >= 2 && t[0] == '[' && t.last() == ']' {
        Some(t.subrange(1, t.len() - 1))
    } else {
        None
    }
}

/// A table name with the brackets of an array-of-tables header trimmed off.
pub open spec fn section_name(header: Seq<char>) -> Seq<char> {
    trim_set(trim_set(header, seq!['[']), seq![']'])
}

/// The first `key = value` under `[section]`, read line by line from `ls`
/// with `current` the table the previous lines left open.
pub open spec fn value_scan(ls: Seq<Seq<char>>, current: Seq<char>, section: Seq<char>, key: Seq<char>) -> Option<Seq<char>>
    decreases ls.len(),
{
    if ls.len() == 0 {
        None
    } else {
        let t = trim(ls[0]);
        match header_of(t) {
            Some(h) => value_scan(ls.drop_first(), section_name(h), section, key),
            None => {
                let k = first_index(t, '=');
                if current == section && k >= 0 && trim(t.take(k)) == key {
                    Some(trim_set(trim(t.skip(k + 1)), seq!['"']))
                } else {
                    value_scan(ls.drop_first(), current, section, key)
                }
            },
        }
    }
}

/// The value of `key` in `[section]` of a manifest, quotes taken off.
pub open spec fn manifest_value(text: Seq<char>, section: Seq<char>, key: Seq<char>) -> Option<Seq<char>> {
    value_scan(lines(text), Seq::<char>::empty(), section, key)
}

fn header_exec(t: &[char]) -> (r: Option<Vec<char>>)
    ensures
        match r {
            Some(h) => header_of(t@) == Some(h@),
            None => header_of(t@) is None,
        },
{
    if t.len() >= 2 && t[0] == '[' && t[t.len() - 1] == ']' {
        Some(copy_range(t, 1, t.len() - 1))
    } else {
        None
    }
}

/// The value of `key` in `[section]` of a manifest's text.
///
/// Hand-read rather than through a TOML parser: two keys are needed, and
/// anything this cannot make sense of yields nothing, which makes the caller
/// provision nothing.
pub fn manifest_value_exec(text: &str, section: &str, key: &str) -> (r: Option<String>)
    ensures
        match r {
            Some(v) => manifest_value(text@, section@, key@) == Some(v@),
            None => manifest_value(text@, section@, key@) is None,
        },
{
    let text_chars = chars_of(text);
    let section_chars = chars_of(section);
    let key_chars = chars_of(key);
    let ls = lines_exec(&text_chars);
    let ghost all = views(ls@);
    let mut current: Vec<char> = Vec::new();
    let open: [char; 1] = ['['];
    let close: [char; 1] = [']'];
    let quote: [char; 1] = ['"'];
    proof {
        assert(open@ =~= seq!['[']);
        assert(close@ =~= seq![']']);
        assert(quote@ =~= seq!['"']);
        assert(all.skip(0) =~= all);
        assert(current@ =~= Seq::<char>::empty());
    }
    let mut i: usize = 0;
    while i < ls.len()
        invariant
            all == views(ls@),
            all == lines(text@),
            i <= ls@.len(),
            open@ == seq!['['],
            close@ == seq![']'],
            quote@ == seq!['"'],
            section_chars@ == section@,
            key_chars@ == key@,
            manifest_value(text@, section@, key@) == value_scan(all.skip(i as int), current@, section@, key@),
        decreases ls.len() - i,
    {
        proof {
            assert(all.skip(i as int)[0] == ls@[i as int]@);
            assert(all.skip(i as int).drop_first() =~= all.skip(i + 1));
        }
        let t = trim_exec(&ls[i]);
        match header_exec(&t) {
            Some(h) => {
                let inner = trim_set_exec(&h, &open);
                current = trim_set_exec(&inner, &close);
            },
            None => {
                if chars_eq(&current, &section_chars) {
                    match first_index_exec(&t, '=') {
                        Some(k) => {
                            proof {
                                crate::text::lemma_first_index(t@, '=');
                            }
                            assert(k < t.len());
                            let left = copy_range(&t, 0, k);
                            let left = trim_exec(&left);
                            if chars_eq(&left, &key_chars) {
                                let right = copy_range(&t, k + 1, t.len());
                                let right = trim_exec(&right);
                                let value = trim_set_exec(&right, &quote);
                                proof {
                                    assert(t@.subrange(0, k as int) =~= t@.take(k as int));
                                    assert(t@.subrange(k + 1, t@.len() as int) =~= t@.skip(k + 1));
                                }
                                return Some(string_of(&value));
                            }
                            proof {
                                assert(t@.subrange(0, k as int) =~= t@.take(k as int));
                            }
                        },
                        None => {},
                    }
                }
            },
        }
        i = i + 1;
    }
    None
}

/// What a `[workspace]` table's `members = [...]` holds, read across lines:
/// everything after the `=` up to the line that closes the bracket.
pub open spec fn members_scan(ls: Seq<Seq<char>>, in_ws: bool, collecting: bool, buf: Seq<char>) -> Seq<char>
    decreases ls.len(),
{
    if ls.len() == 0 {
        buf
    } else {
        let t = trim(ls[0]);
        match header_of(t) {
            Some(h) => members_scan(ls.drop_first(), h == "workspace"@, collecting, buf),
            None => if !in_ws {
                members_scan(ls.drop_first(), in_ws, collecting, buf)
            } else {
                let k = first_index(t, '=');
                let starts = !collecting && k >= 0 && trim(t.take(k)) == "members"@;
                let c2 = collecting || starts;
                let b2 = if collecting {
                    buf + t
                } else if starts {
                    buf + t.skip(k + 1)
                } else {
                    buf
                };
                if c2 && b2.contains(']') {
                    b2
                } else {
                    members_scan(ls.drop_first(), in_ws, c2, b2)
                }
            },
        }
    }
}

/// One member entry with its blanks and quotes taken off.
pub open spec fn member_entry(m: Seq<char>) -> Seq<char> {
    trim_set(trim(m), seq!['"'])
}

/// The members a manifest's text lists, in order, blanks skipped.
pub open spec fn workspace_members(text: Seq<char>) -> Seq<Seq<char>> {
    let buf = members_scan(lines(text), false, false, Seq::<char>::empty());
    drop_empty(
        split_by(trim_set(trim(buf), seq!['[', ']']), seq![',']).map_values(
            |m: Seq<char>| member_entry(m),
        ),
    )
}

fn append(buf: &mut Vec<char>, s: &[char])
    ensures
        final(buf)@ == old(buf)@ + s@,
{
    push_chars(buf, s)
}

/// Where a workspace member's packages are: a member with a `*` (a glob such
/// as `crates/*`) stands for every entry of the directory before its first
/// star, trailing `/` trimmed; any other member is a package directory itself
/// (`None`).
pub open spec fn member_glob_parent(member: Seq<char>) -> Option<Seq<char>> {
    let k = first_index(member, '*');
    if k < 0 {
        None
    } else {
        Some(trim_end_of(member.take(k), seq!['/']))
    }
}

/// The directory a glob member's packages are listed from, or `None` for a
/// member that names one package directory.
pub fn glob_member_parent(member: &str) -> (r: Option<String>)
    ensures
        match r {
            Some(p) => member_glob_parent(member@) == Some(p@),
            None => member_glob_parent(member@) is None,
        },
{
    let c = chars_of(member);
    match first_index_exec(&c, '*') {
        None => None,
        Some(k) => {
            proof {
                crate::text::lemma_first_index(c@, '*');
            }
            let pre = copy_range(&c, 0, k);
            let slash: [char; 1] = ['/'];
            assert(slash@ =~= seq!['/']);
            assert(pre@.skip(0) =~= pre@);
            assert(pre@ =~= member@.take(k as int));
            let hi = trim_end_index(&pre, 0, &slash);
            let kept = copy_range(&pre, 0, hi);
            Some(string_of(&kept))
        },
    }
}

/// The members a workspace manifest lists, as written: a glob member such as
/// `crates/*` comes back as it is, for the host to expand.
pub fn workspace_members_exec(text: &str) -> (members: Vec<String>)
    ensures
        strs(members@) == workspace_members(text@),
{
    let text_chars = chars_of(text);
    let ls = lines_exec(&text_chars);
    let ghost all = views(ls@);
    let mut in_ws = false;
    let mut collecting = false;
    let mut buf: Vec<char> = Vec::new();
    let ghost target = members_scan(all, false, false, Seq::<char>::empty());
    proof {
        assert(all.skip(0) =~= all);
        assert(buf@ =~= Seq::<char>::empty());
    }
    let mut i: usize = 0;
    let mut done = false;
    while i < ls.len() && !done
        invariant
            all == views(ls@),
            all == lines(text@),
            i <= ls@.len(),
            !done ==> target == members_scan(all.skip(i as int), in_ws, collecting, buf@),
            done ==> target == buf@,
        decreases ls.len() - i,
    {
        proof {
            assert(all.skip(i as int)[0] == ls@[i as int]@);
            assert(all.skip(i as int).drop_first() =~= all.skip(i + 1));
        }
        let t = trim_exec(&ls[i]);
        match header_exec(&t) {
            Some(h) => {
                in_ws = text_is(&h, "workspace");
            },
            None => {
                if in_ws {
                    if !collecting {
                        match first_index_exec(&t, '=') {
                            Some(k) => {
                                proof {
                                    crate::text::lemma_first_index(t@, '=');
                                    assert(t@.subrange(0, k as int) =~= t@.take(k as int));
                                    assert(t@.subrange(k + 1, t@.len() as int) =~= t@.skip(k + 1));
                                }
                                assert(k < t.len());
                                let left = copy_range(&t, 0, k);
                                let left = trim_exec(&left);
                                if text_is(&left, "members") {
                                    collecting = true;
                                    let right = copy_range(&t, k + 1, t.len());
                                    append(&mut buf, &right);
                                }
                            },
                            None => {},
                        }
                    } else {
                        append(&mut buf, &t);
                    }
                    if collecting && contains_char(&buf, ']') {
                        done = true;
                    }
                }
            },
        }
        i = i + 1;
    }
    proof {
        if !done {
            assert(all.skip(i as int).len() == 0);
        }
    }
    let open_close: [char; 2] = ['[', ']'];
    let comma: [char; 1] = [','];
    let quote: [char; 1] = ['"'];
    proof {
        assert(open_close@ =~= seq!['[', ']']);
        assert(comma@ =~= seq![',']);
        assert(quote@ =~= seq!['"']);
    }
    let trimmed = trim_exec(&buf);
    let inner = trim_set_exec(&trimmed, &open_close);
    let pieces = split_by_exec(&inner, &comma);
    let ghost ps = split_by(inner@, seq![',']).map_values(|m: Seq<char>| member_entry(m));
    let mut entries: Vec<Vec<char>> = Vec::new();
    let mut j: usize = 0;
    while j < pieces.len()
        invariant
            j <= pieces@.len(),
            pieces@.len() == split_by(inner@, seq![',']).len(),
            forall|k: int| 0 <= k < pieces@.len() ==> #[trigger] pieces@[k]@ == split_by(inner@, seq![','])[k],
            ps == split_by(inner@, seq![',']).map_values(|m: Seq<char>| member_entry(m)),
            quote@ == seq!['"'],
            views(entries@) == ps.take(j as int),
        decreases pieces.len() - j,
    {
        let m = trim_exec(&pieces[j]);
        let m = trim_set_exec(&m, &quote);
        let ghost before = entries@;
        entries.push(m);
        proof {
            assert(views(entries@) =~= views(before).push(ps[j as int]));
            assert(ps.take(j + 1) =~= ps.take(j as int).push(ps[j as int]));
        }
        j = j + 1;
    }
    proof {
        assert(ps.take(pieces@.len() as int) =~= ps);
    }
    let kept = drop_empty_exec(&entries);
    let mut members: Vec<String> = Vec::new();
    let mut q: usize = 0;
    while q < kept.len()
        invariant
            q <= kept@.len(),
            strs(members@) == views(kept@).take(q as int),
        decreases kept.len() - q,
    {
        let ghost before = members@;
        members.push(string_of(&kept[q]));
        proof {
            assert(strs(members@) =~= strs(before).push(kept@[q as int]@));
            assert(views(kept@).take(q + 1) =~= views(kept@).take(q as int).push(kept@[q as int]@));
        }
        q = q + 1;
    }
    proof {
        assert(views(kept@).take(kept@.len() as int) =~= views(kept@));
    }
    members
}

/// A package name as cargo spells it in a library artifact: `-` becomes `_`.
pub open spec fn underscored(name: Seq<char>) -> Seq<char> {
    name.map_values(|c: char| if c == '-' { '_' } else { c })
}

/// The names a package contributes to the local set: its library spelling
/// and its own, or nothing for an empty name.
pub open spec fn package_spellings(name: Seq<char>) -> Set<Seq<char>> {
    if name.len() == 0 {
        Set::<Seq<char>>::empty()
    } else {
        set![underscored(name), name]
    }
}

/// Adds a package's two spellings to the set of local names, which holds no
/// name twice.
pub fn add_package_name(names: &mut Vec<String>, name: &str)
    requires
        strs(old(names)@).no_duplicates(),
    ensures
        strs(final(names)@).no_duplicates(),
        strs(final(names)@).to_set() == strs(old(names)@).to_set() + package_spellings(name@),
{
    let chars = chars_of(name);
    if chars.len() == 0 {
        assert(package_spellings(name@) =~= Set::<Seq<char>>::empty());
        assert(strs(names@).to_set() + package_spellings(name@) =~= strs(names@).to_set());
        return;
    }
    let mut under: Vec<char> = Vec::new();
    let mut i: usize = 0;
    while i < chars.len()
        invariant
            i <= chars@.len(),
            under@ == underscored(chars@.take(i as int)),
        decreases chars.len() - i,
    {
        under.push(if chars[i] == '-' { '_' } else { chars[i] });
        proof {
            assert(chars@.take(i + 1) =~= chars@.take(i as int).push(chars@[i as int]));
            assert(underscored(chars@.take(i + 1)) =~= underscored(chars@.take(i as int)).push(
                if chars@[i as int] == '-' { '_' } else { chars@[i as int] },
            ));
        }
        i = i + 1;
    }
    proof {
        assert(chars@.take(chars@.len() as int) =~= chars@);
    }
    insert_name(names, &under);
    insert_name(names, &chars);
    proof {
        assert(strs(final(names)@).to_set() =~= strs(old(names)@).to_set() + package_spellings(name@));
    }
}

/// Adds one name unless it is already there.
fn insert_name(names: &mut Vec<String>, name: &[char])
    requires
        strs(old(names)@).no_duplicates(),
    ensures
        strs(final(names)@).no_duplicates(),
        strs(final(names)@).to_set() == strs(old(names)@).to_set().insert(name@),
{
    if contains_text(names, name) {
        assert(strs(names@).to_set().insert(name@) =~= strs(names@).to_set());
        return;
    }
    let ghost before = strs(names@);
    names.push(string_of(name));
    proof {
        assert(strs(names@) =~= before.push(name@));
        assert forall|a: int, b: int| 0 <= a < strs(names@).len() && 0 <= b < strs(names@).len() && a != b
            implies strs(names@)[a] != strs(names@)[b] by {
            if a < before.len() && b < before.len() {
            } else if a == before.len() {
                assert(strs(names@)[b] == before[b]);
            } else {
                assert(strs(names@)[a] == before[a]);
            }
        }
        assert forall|x: Seq<char>| #[trigger] strs(names@).to_set().contains(x)
            == before.to_set().insert(name@).contains(x) by {
            if x == name@ {
                assert(strs(names@)[before.len() as int] == x);
            } else if before.contains(x) {
                let j = choose|j: int| 0 <= j < before.len() && before[j] == x;
                assert(strs(names@)[j] == x);
            } else if strs(names@).contains(x) {
                let j = choose|j: int| 0 <= j < strs(names@).len() && strs(names@)[j] == x;
                assert(j < before.len());
                assert(before[j] == x);
            }
        }
        assert(strs(names@).to_set() =~= before.to_set().insert(name@));
    }
}

} // verus!

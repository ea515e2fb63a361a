use boite_core::git::branch::{answer_line, branches_blocking, current_branch};
use boite_core::git::changes::{changed_paths_blocking, porcelain_complete, rank, status_blocking};
use boite_core::git::log::{log_args, log_blocking, revision_set, upstream_ref};
use boite_core::git::number::{parse_i64_exec, parse_u32_exec};
use boite_core::git::ops::{
    bytes_binary, commit_blocking, discard_blocking, discard_next, DiscardNext, file_paths, file_versions, git_show,
    has_remote_blocking, init_blocking, repo_relative, run_files, run_outcome, unstage_blocking,
};
use boite_core::git::repo::{commit_count, empty_repo, is_not_a_repo, repo_info_blocking};
use boite_core::git::status::parse_porcelain_v2;
use boite_core::git::switch::{switch_branch_blocking, Answer, Ask};

fn chars(s: &str) -> Vec<char> {
    s.chars().collect()
}

fn strings(items: &[&str]) -> Vec<String> {
    items.iter().map(|s| s.to_string()).collect()
}

#[test]
fn only_a_missing_repository_reads_as_no_repository() {
    assert!(is_not_a_repo(
        "fatal: not a git repository (or any of the parent directories): .git"
    ));
    assert!(is_not_a_repo("fatal: this operation must be run in a work tree"));
    assert!(!is_not_a_repo(
        "fatal: detected dubious ownership in repository at 'D:/not a git repository'\n\
         To add an exception for this directory, call:"
    ));
    assert!(!is_not_a_repo("git not found or failed to start: program not found"));
}

#[test]
fn repo_relative_rejects_escapes() {
    assert!(repo_relative("src/lib.rs", false).is_ok());
    assert!(repo_relative("./src/lib.rs", false).is_ok());
    assert!(repo_relative("../../etc/passwd", false).is_err());
    assert!(repo_relative("src/../../etc/passwd", false).is_err());
    assert!(repo_relative("/etc/passwd", false).is_err());
    assert!(repo_relative("C:/Windows/win.ini", true).is_err());
    assert!(repo_relative("//server/share/x", true).is_err());
}

#[test]
fn a_plain_folder_and_a_missing_one_answer_no_repository() {
    let info = repo_info_blocking(false, Ok(Vec::new()), None, 0).unwrap();
    assert!(!info.is_repo);
    let refused = Err("fatal: not a git repository (or any of the parent directories): .git".to_string());
    let info = repo_info_blocking(true, refused, Some("v".into()), 7).unwrap();
    assert!(!info.is_repo);
    assert_eq!(info.commit_count, 0);
    let other = Err("fatal: detected dubious ownership in repository at '/r'".to_string());
    assert!(repo_info_blocking(true, other, None, 0).is_err());
    assert!(!empty_repo().is_repo);
}

#[test]
fn the_branch_header_is_read_into_repo_info() {
    let out = b"# branch.oid 0123abcd\n# branch.head main\n# branch.upstream origin/main\n# branch.ab +2 -13\n1 .M N... 100644 100644 100644 a b src/lib.rs\n".to_vec();
    let info = repo_info_blocking(true, Ok(out), Some("00ff".into()), 42).unwrap();
    assert!(info.is_repo);
    assert_eq!(info.branch.as_deref(), Some("main"));
    assert_eq!(info.upstream.as_deref(), Some("origin/main"));
    assert_eq!(info.ahead, 2);
    assert_eq!(info.behind, 13);
    assert_eq!(info.refs_version.as_deref(), Some("00ff"));
    assert_eq!(info.commit_count, 42);

    let detached = b"# branch.head (detached)\n# branch.ab +x -4\n".to_vec();
    let info = repo_info_blocking(true, Ok(detached), None, 0).unwrap();
    assert_eq!(info.branch, None);
    assert_eq!(info.ahead, 0);
    assert_eq!(info.behind, 4);
}

#[test]
fn a_commit_count_reads_what_rev_list_printed() {
    assert_eq!(commit_count(Ok(b"  128\n".to_vec())), 128);
    assert_eq!(commit_count(Ok(b"fatal".to_vec())), 0);
    assert_eq!(commit_count(Err("unborn".into())), 0);
    assert_eq!(commit_count(Ok(b"4294967296\n".to_vec())), 0);
}

#[test]
fn numbers_read_as_from_str_reads_them() {
    assert_eq!(parse_u32_exec(&chars("+42")), Some(42));
    assert_eq!(parse_u32_exec(&chars("4294967295")), Some(u32::MAX));
    assert_eq!(parse_u32_exec(&chars("4294967296")), None);
    assert_eq!(parse_u32_exec(&chars("")), None);
    assert_eq!(parse_u32_exec(&chars("-1")), None);
    assert_eq!(parse_i64_exec(&chars("-9223372036854775808")), Some(i64::MIN));
    assert_eq!(parse_i64_exec(&chars("9223372036854775808")), None);
    assert_eq!(parse_i64_exec(&chars("1700000000")), Some(1_700_000_000));
    assert_eq!(parse_i64_exec(&chars("+")), None);
}

fn porcelain() -> Vec<u8> {
    let mut b = Vec::new();
    b.extend_from_slice(b"1 MM N... 100644 100644 100644 aaa bbb src/a b.rs\0");
    b.extend_from_slice(b"2 R. N... 100644 100644 100644 aaa bbb R100 new.rs\0old.rs\0");
    b.extend_from_slice(b"u UU N... 100644 100644 100644 100644 a b c conflict.rs\0");
    b.extend_from_slice(b"? notes.txt\0");
    b.extend_from_slice(b"1 .D N... 100644 100644 000000 aaa aaa src/a b.rs\0");
    b
}

#[test]
fn porcelain_records_become_change_entries() {
    let entries = parse_porcelain_v2(&porcelain());
    let seen: Vec<(&str, &str, bool, bool, Option<&str>)> = entries
        .iter()
        .map(|e| (e.path.as_str(), e.status.as_str(), e.staged, e.conflicted, e.orig_path.as_deref()))
        .collect();
    assert_eq!(
        seen,
        vec![
            ("src/a b.rs", "M", true, false, None),
            ("src/a b.rs", "M", false, false, None),
            ("new.rs", "R", true, false, Some("old.rs")),
            ("conflict.rs", "U", false, true, None),
            ("notes.txt", "?", false, false, None),
            ("src/a b.rs", "D", false, false, None),
        ]
    );
    assert!(porcelain_complete(&porcelain()));
    assert!(!porcelain_complete(b"2 R. N... 100644 100644 100644 aaa bbb R100 new.rs"));
}

#[test]
fn each_changed_path_is_marked_once_with_its_weightiest_status() {
    let marks = changed_paths_blocking(true, Ok(porcelain()));
    let seen: Vec<(&str, &str)> = marks.iter().map(|m| (m.path.as_str(), m.status.as_str())).collect();
    assert_eq!(
        seen,
        vec![("conflict.rs", "U"), ("new.rs", "R"), ("notes.txt", "?"), ("src/a b.rs", "D")]
    );
    assert!(changed_paths_blocking(false, Ok(porcelain())).is_empty());
    assert!(changed_paths_blocking(true, Err("no".into())).is_empty());
    assert!(rank('U') > rank('D') && rank('D') > rank('A') && rank('A') > rank('M'));
    assert!(rank('M') > rank('R') && rank('R') == rank('C') && rank('C') > rank('?'));
    assert_eq!(rank('X'), 0);
}

#[test]
fn the_status_list_passes_git_refusals_on() {
    assert_eq!(status_blocking(true, Err("boom".into())).unwrap_err(), "boom");
    assert!(status_blocking(false, Err("boom".into())).unwrap().is_empty());
    assert_eq!(status_blocking(true, Ok(porcelain())).unwrap().len(), 6);
}

#[test]
fn the_log_is_read_into_commits_and_marked() {
    let text = "\u{1e}abc123\u{1f}abc\u{1f}p1 p2\u{1f}Ann\u{1f}ann@example.com\u{1f}1700000000\u{1f}HEAD -> main, origin/main, \u{1f}the subject\n\n3\t1\tsrc/lib.rs\n-\t-\tlogo.png\n10\t0\tREADME.md\n\u{1e}def456\u{1f}def\u{1f}\u{1f}Bob\u{1f}bob@example.com\u{1f}x\u{1f}\u{1f}first\n";
    let local = strings(&["abc123"]);
    let remote = strings(&["zzz"]);
    let commits = log_blocking(true, Ok(text.as_bytes().to_vec()), local, remote);
    assert_eq!(commits.len(), 2);
    let c = &commits[0];
    assert_eq!(c.sha, "abc123");
    assert_eq!(c.short_sha, "abc");
    assert_eq!(c.parents, strings(&["p1", "p2"]));
    assert_eq!(c.author, "Ann");
    assert_eq!(c.email, "ann@example.com");
    assert_eq!(c.time, 1_700_000_000);
    assert_eq!(c.refs, strings(&["HEAD -> main", "origin/main"]));
    assert_eq!(c.summary, "the subject");
    assert_eq!(c.additions, 13);
    assert_eq!(c.deletions, 1);
    assert!(c.local_only);
    assert!(!c.remote_only);
    let d = &commits[1];
    assert_eq!(d.sha, "def456");
    assert!(d.parents.is_empty());
    assert_eq!(d.time, 0);
    assert!(!d.local_only);
    assert!(log_blocking(false, Ok(text.as_bytes().to_vec()), vec![], vec![]).is_empty());
    assert!(log_blocking(true, Err("x".into()), vec![], vec![]).is_empty());
}

#[test]
fn numstat_totals_hold_at_the_top_rather_than_wrap() {
    let text = "\u{1e}a\u{1f}a\u{1f}\u{1f}A\u{1f}a@a\u{1f}1\u{1f}\u{1f}s\n4294967295\t0\tx\n5\t0\ty\n";
    let commits = log_blocking(true, Ok(text.as_bytes().to_vec()), vec![], vec![]);
    assert_eq!(commits[0].additions, u32::MAX);
}

#[test]
fn the_log_asks_for_a_bounded_page() {
    let args = log_args(0, 5, &Some("origin/main".into()));
    assert_eq!(
        args,
        strings(&[
            "log",
            "HEAD",
            "origin/main",
            "--topo-order",
            "--numstat",
            "-n1",
            "--skip=5",
            "--pretty=format:%x1e%H%x1f%h%x1f%P%x1f%an%x1f%ae%x1f%at%x1f%D%x1f%s%n",
        ])
    );
    assert_eq!(log_args(9999, 0, &None)[4], "-n500");
    assert_eq!(log_args(100, 0, &None)[4], "-n100");
}

#[test]
fn rev_list_answers_become_sets_of_shas() {
    assert_eq!(revision_set(Ok(b"a1\n\n  b2  \n".to_vec())), strings(&["a1", "b2"]));
    assert!(revision_set(Err("no upstream".into())).is_empty());
    assert_eq!(upstream_ref(Ok(b" origin/main\n".to_vec())).as_deref(), Some("origin/main"));
    assert_eq!(upstream_ref(Ok(b"\n".to_vec())), None);
    assert_eq!(answer_line(Ok(b"deadbeef\n".to_vec())).as_deref(), Some("deadbeef"));
}

#[test]
fn the_branch_menu_sorts_case_insensitively_and_marks_the_current_one() {
    let out = b"main\nFeature/b\n\nfeature/a\n".to_vec();
    let menu = branches_blocking(true, Some("unborn".into()), Ok(out)).unwrap();
    let seen: Vec<(&str, bool)> = menu.iter().map(|b| (b.name.as_str(), b.current)).collect();
    assert_eq!(
        seen,
        vec![("feature/a", false), ("Feature/b", false), ("main", false), ("unborn", true)]
    );
    let menu = branches_blocking(true, Some("main".into()), Ok(b"main\nzed\n".to_vec())).unwrap();
    assert_eq!(menu.len(), 2);
    assert!(menu[0].current);
    assert_eq!(branches_blocking(false, None, Ok(vec![])).unwrap_err(), "Not a directory");
    assert_eq!(current_branch(Ok(b"HEAD\n".to_vec())), None);
    assert_eq!(current_branch(Ok(b"main\n".to_vec())).as_deref(), Some("main"));
}

fn expect_run(ask: Ask) -> Vec<String> {
    match ask {
        Ask::Run(args) => args,
        other => panic!("expected a run, got {other:?}"),
    }
}

fn expect_done(ask: Ask) -> Result<bool, String> {
    match ask {
        Ask::Done(r) => r.map(|r| r.stashed),
        other => panic!("expected the end, got {other:?}"),
    }
}

#[test]
fn a_new_branch_is_checked_then_created() {
    let mut s = switch_branch_blocking(true, "feature/test".into(), true, false);
    assert!(matches!(s.step(Answer::Start), Ask::CheckName));
    assert!(matches!(s.step(Answer::Holds(true)), Ask::BranchExists));
    assert!(matches!(s.step(Answer::Holds(false)), Ask::StashId));
    assert!(matches!(s.step(Answer::Name(None)), Ask::StashId));
    assert_eq!(expect_run(s.step(Answer::Name(None))), strings(&["switch", "-c", "feature/test"]));
    assert_eq!(expect_done(s.step(Answer::Ran(Ok(())))), Ok(false));
}

#[test]
fn invalid_and_duplicate_branch_names_are_refused() {
    let mut s = switch_branch_blocking(true, " padded".into(), true, false);
    assert_eq!(
        expect_done(s.step(Answer::Start)),
        Err("Invalid branch name. Remove leading or trailing spaces.".into())
    );
    let mut s = switch_branch_blocking(true, "--help".into(), true, false);
    assert_eq!(
        expect_done(s.step(Answer::Start)),
        Err("Invalid branch name '--help'. It cannot start with '-'.".into())
    );
    let mut s = switch_branch_blocking(true, "bad:name".into(), true, false);
    assert!(matches!(s.step(Answer::Start), Ask::CheckName));
    assert_eq!(
        expect_done(s.step(Answer::Holds(false))),
        Err("Invalid branch name 'bad:name'. Use a valid Git branch name without spaces or reserved characters.".into())
    );
    let mut s = switch_branch_blocking(true, "master".into(), true, false);
    s.step(Answer::Start);
    s.step(Answer::Holds(true));
    assert_eq!(
        expect_done(s.step(Answer::Holds(true))),
        Err("A branch named 'master' already exists.".into())
    );
    let mut s = switch_branch_blocking(false, "master".into(), false, false);
    assert_eq!(expect_done(s.step(Answer::Start)), Err("Not a directory".into()));
}

#[test]
fn a_switch_to_the_current_branch_does_nothing() {
    let mut s = switch_branch_blocking(true, "main".into(), false, true);
    s.step(Answer::Start);
    assert!(matches!(s.step(Answer::Holds(true)), Ask::CurrentBranch));
    assert_eq!(expect_done(s.step(Answer::Name(Some("main".into())))), Ok(false));
}

#[test]
fn a_failed_switch_puts_the_stash_back() {
    let mut s = switch_branch_blocking(true, "master".into(), false, true);
    s.step(Answer::Start);
    assert!(matches!(s.step(Answer::Holds(true)), Ask::CurrentBranch));
    assert!(matches!(s.step(Answer::Name(Some("feature/test".into()))), Ask::BranchExists));
    assert!(matches!(s.step(Answer::Holds(true)), Ask::StashId));
    assert!(matches!(s.step(Answer::Name(None)), Ask::HeadId));
    assert!(matches!(s.step(Answer::Name(Some("abc".into()))), Ask::CurrentBranch));
    assert_eq!(
        expect_run(s.step(Answer::Name(Some("feature/test".into())))),
        strings(&[
            "stash",
            "push",
            "--include-untracked",
            "--message",
            "boite: changes before switching from feature/test to master",
        ])
    );
    assert!(matches!(s.step(Answer::Ran(Ok(()))), Ask::StashId));
    assert_eq!(expect_run(s.step(Answer::Name(Some("s1".into())))), strings(&["switch", "master"]));
    assert_eq!(
        expect_run(s.step(Answer::Ran(Err("would be overwritten".into())))),
        strings(&["stash", "pop", "--index"])
    );
    assert_eq!(
        expect_done(s.step(Answer::Ran(Ok(())))),
        Err("would be overwritten\nYour local changes were restored.".into())
    );
}

#[test]
fn a_stash_that_moved_nothing_is_not_counted() {
    let mut s = switch_branch_blocking(true, "master".into(), false, true);
    s.step(Answer::Start);
    s.step(Answer::Holds(true));
    s.step(Answer::Name(None));
    s.step(Answer::Holds(true));
    s.step(Answer::Name(Some("s0".into())));
    s.step(Answer::Name(Some("abc".into())));
    s.step(Answer::Name(None));
    s.step(Answer::Ran(Ok(())));
    expect_run(s.step(Answer::Name(Some("s0".into()))));
    assert_eq!(expect_done(s.step(Answer::Ran(Err("nope".into())))), Err("nope".into()));
}

#[test]
fn stashing_before_the_first_commit_is_refused() {
    let mut s = switch_branch_blocking(true, "other".into(), false, true);
    s.step(Answer::Start);
    s.step(Answer::Holds(true));
    s.step(Answer::Name(None));
    s.step(Answer::Holds(true));
    assert!(matches!(s.step(Answer::Name(None)), Ask::HeadId));
    assert!(expect_done(s.step(Answer::Name(None))).unwrap_err().starts_with("Git cannot stash"));
}

#[test]
fn small_operations_run_what_they_say() {
    let files = strings(&["a.txt", "b c.txt"]);
    assert_eq!(run_files("add", &files, true), strings(&["add", "--", "a.txt", "b c.txt"]));
    assert_eq!(unstage_blocking(&files), strings(&["reset", "HEAD", "--", "a.txt", "b c.txt"]));
    let runs = discard_blocking(&strings(&["a"]), &strings(&["b"]));
    assert_eq!(runs, vec![strings(&["checkout", "--", "a"]), strings(&["clean", "-fd", "--", "b"])]);
    assert!(discard_blocking(&vec![], &vec![]).is_empty());
    assert_eq!(commit_blocking("   ", Ok(vec![])).unwrap_err(), "Commit message is empty");
    assert_eq!(commit_blocking(" fix ", Ok(b"[main 1a2b] fix\n".to_vec())).unwrap(), "[main 1a2b] fix");
    assert!(has_remote_blocking(true, Ok(b"origin\n".to_vec())));
    assert!(!has_remote_blocking(true, Ok(b"\n".to_vec())));
    assert!(!has_remote_blocking(false, Ok(b"origin\n".to_vec())));
    assert_eq!(init_blocking(false, Ok(vec![])).unwrap_err(), "not a directory");
    assert!(init_blocking(true, Ok(vec![])).is_ok());
}

#[test]
fn a_failed_git_says_what_it_printed_or_its_status() {
    assert_eq!(run_outcome(false, vec![], b"  fatal: bad\n", "exit status: 128").unwrap_err(), "fatal: bad");
    assert_eq!(
        run_outcome(false, vec![], b"", "exit status: 1").unwrap_err(),
        "git exited with status exit status: 1"
    );
    assert_eq!(run_outcome(true, b"ok".to_vec(), b"", "0").unwrap(), b"ok".to_vec());
}

#[test]
fn file_versions_stay_in_the_repository_and_mark_binaries() {
    assert_eq!(
        file_paths(r"src\lib.rs", None, false).unwrap(),
        ("src/lib.rs".to_string(), "src/lib.rs".to_string())
    );
    assert_eq!(file_paths("new.rs", Some("old.rs"), false).unwrap().1, "old.rs");
    assert!(file_paths("ok.rs", Some("../x"), false).is_err());
    assert_eq!(git_show(true, b"text"), (Some("text".to_string()), false));
    assert_eq!(git_show(true, b"a\0b"), (None, true));
    assert_eq!(git_show(false, b"text"), (None, false));
    assert!(bytes_binary(b"\0"));
    assert!(!bytes_binary(b"plain"));
    let v = file_versions((Some("h".into()), false), (None, false), Some(b"w\0".to_vec()));
    assert!(v.binary);
    assert_eq!(v.work, None);
    let v = file_versions((Some("h".into()), false), (Some("i".into()), false), Some(b"w".to_vec()));
    assert!(!v.binary);
    assert_eq!(v.work.as_deref(), Some("w"));
}

#[test]
fn windows_paths_are_read_as_windows_reads_them() {
    assert!(repo_relative("src\\..\\..\\x", true).is_err());
    assert!(repo_relative("\\x", true).is_err());
    assert!(repo_relative("d:x", true).is_err());
    assert!(repo_relative("src\\lib.rs", true).is_ok());
    assert!(repo_relative("1:x", true).is_ok());
    assert!(repo_relative("C:/Windows/win.ini", false).is_ok());
    assert!(repo_relative("..\\x", false).is_ok());
    assert!(file_paths("C:/x", None, true).is_err());
}

#[test]
fn a_failed_checkout_ends_the_discard_before_the_clean() {
    assert_eq!(discard_next(2, 0, Ok(())), DiscardNext::Run(0));
    assert_eq!(discard_next(2, 1, Err("checkout failed".to_string())), DiscardNext::Finish(Err("checkout failed".to_string())));
    assert_eq!(discard_next(2, 1, Ok(())), DiscardNext::Run(1));
    assert_eq!(discard_next(2, 2, Ok(())), DiscardNext::Finish(Ok(())));
    assert_eq!(discard_next(0, 0, Ok(())), DiscardNext::Finish(Ok(())));
}

use base64::Engine;
use boite_core::editor::{check_text_size, check_view_size, looks_binary, text_file, view_document, MAX_TEXT_BYTES, MAX_VIEW_BYTES};
use boite_core::explorer::{dir_entry, order_hits, search_blocking, skips_dir, visit_entry, Search, SearchHit, SearchWalk};

#[test]
fn looks_binary_detects_nul_byte() {
    assert!(looks_binary(&[0u8]));
    assert!(looks_binary(b"hello\x00world"));
    assert!(!looks_binary(b"hello world"));
    assert!(!looks_binary(&[]));
}

#[test]
fn a_nul_past_the_first_eight_kib_does_not_count() {
    let mut bytes = vec![b'a'; 8192];
    bytes.push(0);
    assert!(!looks_binary(&bytes));
    bytes[8191] = 0;
    assert!(looks_binary(&bytes));
}

#[test]
fn text_is_refused_when_too_large_or_binary_and_marked_when_lossy() {
    let err = text_file(MAX_TEXT_BYTES + 1, vec![], false).unwrap_err();
    assert_eq!(err, "file too large (10485761 bytes > 10485760 max)");
    assert!(check_text_size(MAX_TEXT_BYTES).is_ok());
    assert_eq!(text_file(11, b"hello\x00world".to_vec(), false).unwrap_err(), "binary file");
    let ok = text_file(13, "héllo wörld\n".as_bytes().to_vec(), true).unwrap();
    assert!(!ok.lossy);
    assert!(ok.is_readonly);
    assert_eq!(ok.content, "héllo wörld\n");
    let lossy = text_file(13, b"prefix\xFFsuffix".to_vec(), false).unwrap();
    assert!(lossy.lossy);
    assert!(lossy.content.contains("prefix") && lossy.content.contains("suffix"));
}

#[test]
fn a_document_travels_as_base64_within_the_limit() {
    let bytes = b"hello\x00world\x01\x02";
    let encoded = view_document(bytes.len() as u64, bytes).unwrap();
    assert_eq!(encoded, "aGVsbG8Ad29ybGQBAg==");
    let decoded = base64::engine::general_purpose::STANDARD.decode(&encoded).unwrap();
    assert_eq!(decoded, bytes);
    assert_eq!(view_document(0, b"").unwrap(), "");
    assert_eq!(view_document(1, b"M").unwrap(), "TQ==");
    assert_eq!(view_document(2, b"Ma").unwrap(), "TWE=");
    assert!(view_document(MAX_VIEW_BYTES + 1, b"x").unwrap_err().contains("too large"));
    assert!(check_view_size(MAX_VIEW_BYTES).is_ok());
}

#[test]
fn search_blocking_rejects_non_dir() {
    let result = search_blocking(false, "foo", 10);
    assert!(result.is_err());
    assert_eq!(result.unwrap_err(), "not a directory");
}

#[test]
fn a_blank_query_finds_nothing_and_the_cap_is_held_in_range() {
    assert!(matches!(search_blocking(false, "   ", 10).unwrap(), Search::Nothing));
    match search_blocking(true, "  ReadMe ", 0).unwrap() {
        Search::Walk { needle, cap } => {
            assert_eq!(needle, "readme");
            assert_eq!(cap, 1);
        }
        Search::Nothing => panic!("a query was given"),
    }
    match search_blocking(true, "x", 99999).unwrap() {
        Search::Walk { cap, .. } => assert_eq!(cap, 2000),
        Search::Nothing => panic!("a query was given"),
    }
}

#[test]
fn known_directories_are_skipped_in_any_case() {
    assert!(skips_dir("node_modules"));
    assert!(skips_dir("NODE_MODULES"));
    assert!(skips_dir(".Git"));
    assert!(!skips_dir("src"));
}

#[test]
fn visiting_entries_matches_names_and_stops_at_the_cap() {
    let mut hits: Vec<SearchHit> = Vec::new();
    let step = visit_entry(&mut hits, 2, "match", "Match_1.txt", "/r/Match_1.txt", false);
    assert!(!step.stop && !step.descend);
    assert_eq!(hits.len(), 1);
    let step = visit_entry(&mut hits, 2, "match", "node_modules", "/r/node_modules", true);
    assert!(!step.descend);
    assert_eq!(hits.len(), 1);
    let step = visit_entry(&mut hits, 2, "match", "sub", "/r/sub", true);
    assert!(step.descend);
    assert_eq!(hits.len(), 1);
    visit_entry(&mut hits, 2, "match", "match_2.txt", "/r/match_2.txt", false);
    let step = visit_entry(&mut hits, 2, "match", "match_3.txt", "/r/match_3.txt", false);
    assert!(step.stop);
    assert_eq!(hits.len(), 2);
}

#[test]
fn hits_show_directories_first_then_by_path() {
    let hits = vec![
        SearchHit { path: "/r/a_file.txt".into(), is_dir: false },
        SearchHit { path: "/r/b_dir".into(), is_dir: true },
        SearchHit { path: "/r/A_dir".into(), is_dir: true },
    ];
    let ordered: Vec<(String, bool)> = order_hits(hits).into_iter().map(|h| (h.path, h.is_dir)).collect();
    assert_eq!(
        ordered,
        vec![
            ("/r/A_dir".to_string(), true),
            ("/r/b_dir".to_string(), true),
            ("/r/a_file.txt".to_string(), false),
        ]
    );
    let e = dir_entry(".hidden".into(), "/r/.hidden".into(), false);
    assert!(e.is_hidden);
    assert!(!dir_entry("visible".into(), "/r/visible".into(), false).is_hidden);
}

#[test]
fn a_search_walk_skips_known_dirs_stops_at_its_cap_and_shows_dirs_first() {
    let mut walk = SearchWalk::new("foo".to_string(), 2);
    let step = walk.visit("node_modules", "/r/node_modules", true);
    assert!(!step.stop && !step.descend);
    let step = walk.visit("Foo.txt", "/r/Foo.txt", false);
    assert!(!step.stop && !step.descend);
    let step = walk.visit("bar.txt", "/r/bar.txt", false);
    assert!(!step.stop && !step.descend);
    let step = walk.visit("foodir", "/r/foodir", true);
    assert!(!step.stop && step.descend);
    let step = walk.visit("food.txt", "/r/foodir/food.txt", false);
    assert!(step.stop && !step.descend);
    let hits: Vec<(bool, String)> = walk.finish().into_iter().map(|h| (h.is_dir, h.path)).collect();
    assert_eq!(hits, vec![(true, "/r/foodir".to_string()), (false, "/r/Foo.txt".to_string())]);
}

#[test]
fn a_skipped_dir_is_no_hit_even_when_its_name_matches() {
    let mut walk = SearchWalk::new("target".to_string(), 10);
    let step = walk.visit("Target", "/r/Target", true);
    assert!(!step.stop && !step.descend);
    let step = walk.visit("target.md", "/r/target.md", false);
    assert!(!step.stop && !step.descend);
    let hits: Vec<String> = walk.finish().into_iter().map(|h| h.path).collect();
    assert_eq!(hits, vec!["/r/target.md".to_string()]);
}

use chasm::rank::rank_results;
use chasm::result::{MatchKind, SearchResult};
use chasm::search::{
    approximate_message_count, classify, date_stage, evaluate_content, find_sessions_filtered,
    match_kind_by_priority, scan_candidate, search_workspaces, summarize, ScanOutcome,
    SearchCriteria, SearchError,
};
use chasm::timestamp::{
    date_bounds_from, millis_stamp, millis_to_seconds, modified_stamp, parse_date_bounds,
    BoundSide, DateBounds, DateVerdict, MAX_EPOCH_DAY, MIN_EPOCH_DAY,
};
use chasm::workspace::{index_candidates, Candidate, StoredFile, StoredWorkspace};
use chrono::{DateTime, NaiveDate};

// 2024-01-15 10:30:00 UTC
const JAN_15: i64 = 1_705_314_600;
// 2024-03-01 08:00:00 UTC
const MAR_01: i64 = 1_709_280_000;

fn file(name: &str, modified: Option<i64>, content: Option<&str>) -> StoredFile {
    StoredFile {
        name: name.to_string(),
        modified,
        content: content.map(|c| c.to_string()),
    }
}

fn workspace(hash: &str, has_sessions_dir: bool, folder: Option<&str>, files: Vec<StoredFile>) -> StoredWorkspace {
    StoredWorkspace {
        hash: hash.to_string(),
        has_sessions_dir,
        folder: folder.map(|f| f.to_string()),
        files,
    }
}

fn candidate(label: &str, id: &str) -> Candidate {
    Candidate {
        workspace_index: 0,
        file_index: 0,
        workspace_label: label.to_string(),
        session_id: id.to_string(),
    }
}

fn criteria(pattern: &str, title_only: bool, search_content: bool) -> SearchCriteria {
    SearchCriteria::new(pattern, None, title_only, search_content, DateBounds::unbounded(), 10)
}

fn result(title: &str, modified: &str) -> SearchResult {
    SearchResult {
        title: title.to_string(),
        workspace: "ws".to_string(),
        modified: modified.to_string(),
        message_count: 0,
        match_kind: MatchKind::ListAll,
    }
}

#[test]
fn one_candidate_from_the_workspace_with_a_sessions_directory() {
    let w1 = workspace(
        "aaaaaaaa11111111",
        true,
        Some("file:///home/me/projects/alpha"),
        vec![file("s1.json", Some(JAN_15), Some(r#"{"customTitle":"Fix bug"}"#))],
    );
    let w2 = workspace("bbbbbbbb22222222", false, Some("/home/me/projects/beta"), vec![]);
    let workspaces = vec![w1, w2];
    let candidates = index_candidates(&workspaces, None);
    assert_eq!(candidates.len(), 1);
    assert_eq!(candidates[0].workspace_index, 0);
    assert_eq!(candidates[0].file_index, 0);
    assert_eq!(candidates[0].workspace_label, "alpha");
    assert_eq!(candidates[0].session_id, "s1");

    let report = find_sessions_filtered("", None, false, false, None, None, 10, Some(&workspaces)).unwrap();
    assert_eq!(report.workspaces_searched, 1);
    assert_eq!(report.summary.total_candidates, 1);
    assert_eq!(report.summary.results.len(), 1);
    assert_eq!(report.summary.results[0].title, "Fix bug");
    assert_eq!(report.summary.results[0].workspace, "alpha");
    assert_eq!(report.summary.results[0].modified, "2024-01-15 10:30");
    assert_eq!(report.summary.results[0].match_kind, MatchKind::ListAll);
}

#[test]
fn empty_pattern_with_limit_one_returns_the_newer_file() {
    let workspaces = vec![workspace(
        "cafebabe00000000",
        true,
        None,
        vec![
            file("old.json", Some(JAN_15), Some(r#"{"customTitle":"Older"}"#)),
            file("new.json", Some(MAR_01), Some(r#"{"customTitle":"Newer"}"#)),
        ],
    )];
    let report = find_sessions_filtered("", None, false, false, None, None, 1, Some(&workspaces)).unwrap();
    assert_eq!(report.summary.results.len(), 1);
    assert_eq!(report.summary.results[0].title, "Newer");
    assert_eq!(report.summary.results[0].modified, "2024-03-01 08:00");
    assert_eq!(report.summary.results[0].workspace, "cafebabe");
    assert!(report.summary.limit_reached);
    assert_eq!(report.summary.scanned, 2);
    assert_eq!(report.summary.total_candidates, 2);
    assert_eq!(report.summary.matched(), 1);
}

#[test]
fn after_bound_later_than_modification_excludes_the_file() {
    let workspaces = vec![workspace(
        "feedface",
        true,
        None,
        vec![
            file("a.json", Some(JAN_15), Some(r#"{"customTitle":"January"}"#)),
            file("b.json", Some(MAR_01), Some(r#"{"customTitle":"March"}"#)),
        ],
    )];
    let unbounded = find_sessions_filtered("", None, false, false, None, None, 10, Some(&workspaces)).unwrap();
    assert_eq!(unbounded.summary.skipped_by_date, 0);
    assert_eq!(unbounded.summary.results.len(), 2);

    let bounded = find_sessions_filtered("", None, false, false, Some("2024-02-01"), None, 10, Some(&workspaces)).unwrap();
    assert_eq!(bounded.summary.skipped_by_date, 1);
    assert_eq!(bounded.summary.scanned, 1);
    assert_eq!(bounded.summary.total_candidates, 2);
    assert_eq!(bounded.summary.results.len(), 1);
    assert_eq!(bounded.summary.results[0].title, "March");
}

#[test]
fn date_bounds_are_inclusive() {
    let on_the_day = SearchCriteria::parse("", None, false, false, Some("2024-01-15"), Some("2024-01-15"), 10).unwrap();
    // 2024-01-15 00:00:00 and 23:59:59 UTC
    assert_eq!(date_stage(&on_the_day, Some(1_705_276_800)), None);
    assert_eq!(date_stage(&on_the_day, Some(1_705_363_199)), None);
    assert_eq!(date_stage(&on_the_day, Some(1_705_276_799)), Some(ScanOutcome::SkippedByDate));
    assert_eq!(date_stage(&on_the_day, Some(1_705_363_200)), Some(ScanOutcome::SkippedByDate));
    let before_only = SearchCriteria::parse("", None, false, false, None, Some("2024-01-14"), 10).unwrap();
    assert_eq!(date_stage(&before_only, Some(JAN_15)), Some(ScanOutcome::SkippedByDate));
    assert_eq!(date_stage(&before_only, Some(JAN_15 - 86_400)), None);
    let after_only = SearchCriteria::parse("", None, false, false, Some("2024-01-16"), None, 10).unwrap();
    assert_eq!(date_stage(&after_only, Some(JAN_15)), Some(ScanOutcome::SkippedByDate));
    assert_eq!(date_stage(&after_only, Some(JAN_15 + 86_400)), None);
}

#[test]
fn a_file_without_a_date_is_dropped_where_a_bound_is_set() {
    let bounded = SearchCriteria::parse("", None, false, false, Some("2024-01-15"), None, 10).unwrap();
    assert_eq!(date_stage(&bounded, None), Some(ScanOutcome::Undated));
    assert_eq!(date_stage(&bounded, Some(i64::MAX)), Some(ScanOutcome::Undated));
    assert_eq!(scan_candidate(&bounded, &candidate("ws", "abc"), None, Some("{}")), ScanOutcome::Undated);
    let unbounded = criteria("", false, false);
    assert_eq!(date_stage(&unbounded, None), None);
    assert_eq!(date_stage(&unbounded, Some(i64::MAX)), None);
    assert!(matches!(
        scan_candidate(&unbounded, &candidate("ws", "abc"), None, Some("{}")),
        ScanOutcome::Matched(_)
    ));

    let workspaces = vec![workspace(
        "feedface",
        true,
        None,
        vec![
            file("a.json", None, Some("{}")),
            file("b.json", Some(MAR_01), Some("{}")),
            file("c.json", Some(JAN_15), Some("{}")),
        ],
    )];
    let report = find_sessions_filtered("", None, false, false, Some("2024-02-01"), None, 10, Some(&workspaces)).unwrap();
    assert_eq!(report.summary.total_candidates, 3);
    assert_eq!(report.summary.skipped_by_date, 1);
    assert_eq!(report.summary.scanned, 1);
    assert_eq!(report.summary.results.len(), 1);
    assert_eq!(report.summary.results[0].modified, "2024-03-01 08:00");
}

#[test]
fn days_before_the_epoch_are_rounded_down() {
    let bounds = DateBounds { after: Some(-1), before: Some(-1) };
    assert!(bounds.admits(Some(-1)));
    assert!(bounds.admits(Some(-86_400)));
    assert!(!bounds.admits(Some(-86_401)));
    assert!(!bounds.admits(Some(0)));
    assert_eq!(bounds.verdict(Some(-86_401)), DateVerdict::Outside);
    assert_eq!(bounds.verdict(Some(0)), DateVerdict::Outside);
    assert_eq!(bounds.verdict(Some(-5)), DateVerdict::Admitted);
    assert_eq!(bounds.verdict(None), DateVerdict::Unknown);
    assert_eq!(DateBounds::unbounded().verdict(None), DateVerdict::Admitted);
    assert_eq!(modified_stamp(Some(-1)), "1969-12-31 23:59");
    assert_eq!(modified_stamp(Some(0)), "1970-01-01 00:00");
}

#[test]
fn calendar_limits_are_those_of_the_calendar() {
    assert_eq!(NaiveDate::MIN.to_epoch_days(), MIN_EPOCH_DAY);
    assert_eq!(NaiveDate::MAX.to_epoch_days(), MAX_EPOCH_DAY);

    let last_second = (MAX_EPOCH_DAY as i64) * 86_400 + 86_399;
    let last_day = DateBounds { after: Some(MAX_EPOCH_DAY), before: None };
    assert_eq!(last_day.verdict(Some(last_second)), DateVerdict::Admitted);
    assert_eq!(last_day.verdict(Some(last_second - 86_400)), DateVerdict::Outside);
    assert_eq!(last_day.verdict(Some(last_second + 1)), DateVerdict::Unknown);
    assert_ne!(modified_stamp(Some(last_second)), "unknown");
    assert_eq!(modified_stamp(Some(last_second + 1)), "unknown");

    let first_second = (MIN_EPOCH_DAY as i64) * 86_400;
    let first_day = DateBounds { after: None, before: Some(MIN_EPOCH_DAY) };
    assert_eq!(first_day.verdict(Some(first_second)), DateVerdict::Admitted);
    assert_eq!(first_day.verdict(Some(first_second + 86_400)), DateVerdict::Outside);
    assert_eq!(first_day.verdict(Some(first_second - 1)), DateVerdict::Unknown);
    assert_ne!(modified_stamp(Some(first_second)), "unknown");
    assert_eq!(modified_stamp(Some(first_second - 1)), "unknown");
    assert_eq!(modified_stamp(Some(i64::MAX)), "unknown");
    assert_eq!(modified_stamp(Some(i64::MIN)), "unknown");
    assert_eq!(modified_stamp(None), "unknown");
}

#[test]
fn days_and_stamps_agree_with_the_calendar() {
    let mut secs: i64 = -5_000_000_000;
    while secs < 5_000_000_000 {
        let instant = DateTime::from_timestamp(secs, 0).unwrap();
        let day = instant.date_naive().to_epoch_days();
        let only = DateBounds { after: Some(day), before: Some(day) };
        assert_eq!(only.verdict(Some(secs)), DateVerdict::Admitted, "{}", secs);
        let earlier = DateBounds { after: None, before: Some(day - 1) };
        assert_eq!(earlier.verdict(Some(secs)), DateVerdict::Outside, "{}", secs);
        let later = DateBounds { after: Some(day + 1), before: None };
        assert_eq!(later.verdict(Some(secs)), DateVerdict::Outside, "{}", secs);
        assert_eq!(modified_stamp(Some(secs)), instant.format("%Y-%m-%d %H:%M").to_string());
        let text = instant.format("%Y-%m-%d").to_string();
        assert_eq!(
            parse_date_bounds(Some(&text), Some(&text)),
            Ok(DateBounds { after: Some(day), before: Some(day) })
        );
        secs += 7_654_321;
    }
}

#[test]
fn stamps_are_minutes_in_utc() {
    assert_eq!(modified_stamp(Some(JAN_15)), "2024-01-15 10:30");
    assert_eq!(modified_stamp(Some(JAN_15 + 59)), "2024-01-15 10:30");
    assert_eq!(modified_stamp(Some(JAN_15 + 60)), "2024-01-15 10:31");
    assert_eq!(millis_stamp(947_638_923_004), "2000-01-12 01:02");
    assert_eq!(millis_stamp(-1), "1969-12-31 23:59");
    assert_eq!(millis_to_seconds(1_999), 1);
    assert_eq!(millis_to_seconds(-1), -1);
    assert_eq!(millis_to_seconds(-1_000), -1);
    assert_eq!(millis_to_seconds(-1_001), -2);
    assert_eq!(millis_to_seconds(i64::MIN), -9_223_372_036_854_776);
}

#[test]
fn unparseable_date_bound_is_refused() {
    assert_eq!(
        find_sessions_filtered("", None, false, false, Some("yesterday"), None, 10, None).unwrap_err(),
        SearchError::DateBoundUnparseable(BoundSide::After)
    );
    assert_eq!(
        find_sessions_filtered("", None, false, false, Some("2024-01-01"), Some("2024-13-01"), 10, Some(&vec![])).unwrap_err(),
        SearchError::DateBoundUnparseable(BoundSide::Before)
    );
    assert_eq!(
        find_sessions_filtered("", None, false, false, Some("bad"), Some("worse"), 10, None).unwrap_err(),
        SearchError::DateBoundUnparseable(BoundSide::After)
    );
    assert_eq!(parse_date_bounds(Some("2024-02-30"), None), Err(BoundSide::After));
    assert_eq!(
        parse_date_bounds(Some("1970-01-02"), Some("1970-01-11")),
        Ok(DateBounds { after: Some(1), before: Some(10) })
    );
    assert_eq!(parse_date_bounds(None, None), Ok(DateBounds::unbounded()));
    assert_eq!(date_bounds_from(Some(Some(3)), Some(None)), Err(BoundSide::Before));
    assert_eq!(date_bounds_from(None, Some(Some(7))), Ok(DateBounds { after: None, before: Some(7) }));
}

#[test]
fn missing_storage_root_is_reported() {
    assert_eq!(
        find_sessions_filtered("x", None, false, false, None, None, 10, None).unwrap_err(),
        SearchError::StorageRootMissing
    );
}

#[test]
fn id_match_has_priority_over_title_and_content() {
    let c = criteria("Bug", false, true);
    let content = r#"{"customTitle":"A bug report","requests":[{"message":{"text":"bug bug"}}]}"#;
    assert_eq!(classify(&c, "BUG-42", "A bug report", content), Some(MatchKind::Id));
    assert_eq!(classify(&c, "session-1", "A bug report", content), Some(MatchKind::Title));
    assert_eq!(classify(&c, "session-1", "Untitled", content), Some(MatchKind::Content));
    assert_eq!(classify(&c, "session-1", "Untitled", "nothing here"), None);
}

#[test]
fn kinds_are_given_by_priority() {
    for in_title in [false, true] {
        for in_content in [false, true] {
            assert_eq!(match_kind_by_priority(false, true, in_title, in_content), Some(MatchKind::Id));
            for in_id in [false, true] {
                assert_eq!(
                    match_kind_by_priority(true, in_id, in_title, in_content),
                    Some(MatchKind::ListAll)
                );
            }
        }
    }
    assert_eq!(match_kind_by_priority(false, false, true, true), Some(MatchKind::Title));
    assert_eq!(match_kind_by_priority(false, false, true, false), Some(MatchKind::Title));
    assert_eq!(match_kind_by_priority(false, false, false, true), Some(MatchKind::Content));
    assert_eq!(match_kind_by_priority(false, false, false, false), None);
}

#[test]
fn content_is_searched_only_when_asked_and_not_title_only() {
    let content = "the needle is here";
    assert_eq!(classify(&criteria("needle", false, false), "id", "title", content), None);
    assert_eq!(classify(&criteria("needle", true, true), "id", "title", content), None);
    assert_eq!(classify(&criteria("needle", false, true), "id", "title", content), Some(MatchKind::Content));
    assert_eq!(classify(&criteria("NEEDLE", false, true), "id", "title", content), Some(MatchKind::Content));
    assert_eq!(classify(&criteria("needle", false, true), "id", "title", "THE NEEDLE"), Some(MatchKind::Content));
}

#[test]
fn empty_pattern_lists_every_readable_candidate_without_a_kind() {
    let c = criteria("", true, false);
    assert_eq!(classify(&c, "id", "title", "content"), Some(MatchKind::ListAll));
    let outcome = scan_candidate(&c, &candidate("ws", "abc"), None, Some("no markers at all"));
    assert_eq!(
        outcome,
        ScanOutcome::Matched(SearchResult {
            title: "Untitled".to_string(),
            workspace: "ws".to_string(),
            modified: "unknown".to_string(),
            message_count: 0,
            match_kind: MatchKind::ListAll,
        })
    );
    assert_eq!(MatchKind::ListAll.label(), "");
    assert_eq!(MatchKind::Id.label(), "ID");
    assert_eq!(MatchKind::Title.label(), "title");
    assert_eq!(MatchKind::Content.label(), "content");
}

#[test]
fn untitled_sessions_match_the_default_title() {
    let c = criteria("untitled", false, false);
    let r = evaluate_content(&c, &candidate("ws", "abc"), Some(JAN_15), "{}").unwrap();
    assert_eq!(r.title, "Untitled");
    assert_eq!(r.match_kind, MatchKind::Title);
}

#[test]
fn unreadable_file_is_scanned_and_dropped() {
    let c = criteria("", false, false);
    assert_eq!(scan_candidate(&c, &candidate("ws", "abc"), Some(JAN_15), None), ScanOutcome::Unreadable);
    let workspaces = vec![workspace(
        "feedface",
        true,
        None,
        vec![file("a.json", Some(JAN_15), None), file("b.json", Some(MAR_01), Some("{}"))],
    )];
    let report = search_workspaces(&c, &workspaces);
    assert_eq!(report.summary.total_candidates, 2);
    assert_eq!(report.summary.scanned, 2);
    assert_eq!(report.summary.skipped_by_date, 0);
    assert_eq!(report.summary.results.len(), 1);
}

#[test]
fn date_filter_comes_before_the_content() {
    let c = SearchCriteria::parse("", None, false, false, Some("2024-02-01"), None, 10).unwrap();
    assert_eq!(scan_candidate(&c, &candidate("ws", "abc"), Some(JAN_15), None), ScanOutcome::SkippedByDate);
    assert_eq!(scan_candidate(&c, &candidate("ws", "abc"), Some(JAN_15), Some("{}")), ScanOutcome::SkippedByDate);
}

#[test]
fn messages_are_counted_by_marker() {
    assert_eq!(approximate_message_count(""), 0);
    assert_eq!(approximate_message_count(r#"{"requests":[{"message":{"text":"a"}},{"message":{"text":"b"}}]}"#), 2);
    assert_eq!(approximate_message_count(r#""message": "message":"message":"#), 3);
    assert_eq!(approximate_message_count(r#""message""message":"#), 1);
    assert_eq!(approximate_message_count(r#"{"message" :1}"#), 0);
    let quoted = r#"{"message":{"text":"he said \"message\": twice"}}"#;
    assert_eq!(approximate_message_count(quoted), quoted.matches("\"message\":").count());
}

#[test]
fn results_are_ranked_newest_first_and_stably() {
    let results = vec![
        result("a", "2024-01-01 10:00"),
        result("b", "2024-03-01 08:00"),
        result("c", "2024-01-01 10:00"),
        result("d", "unknown"),
        result("e", "2023-12-31 23:59"),
        result("f", "2024-03-01 08:00"),
    ];
    let ranked = rank_results(results.clone(), 10);
    let titles: Vec<&str> = ranked.iter().map(|r| r.title.as_str()).collect();
    assert_eq!(titles, vec!["d", "b", "f", "a", "c", "e"]);
    for pair in ranked.windows(2) {
        assert!(pair[0].modified >= pair[1].modified);
    }
    let mut expected = results.clone();
    expected.sort_by(|a, b| b.modified.cmp(&a.modified));
    assert_eq!(ranked, expected);

    let top = rank_results(results.clone(), 3);
    let titles: Vec<&str> = top.iter().map(|r| r.title.as_str()).collect();
    assert_eq!(titles, vec!["d", "b", "f"]);
    assert!(rank_results(results, 0).is_empty());
    assert!(rank_results(vec![], 5).is_empty());
}

#[test]
fn ranking_agrees_with_a_stable_sort() {
    let mut results = Vec::new();
    let mut seed: u64 = 12345;
    for i in 0..1500 {
        seed = seed.wrapping_mul(6364136223846793005).wrapping_add(1442695040888963407);
        let day = 1 + (seed >> 33) % 28;
        let hour = (seed >> 40) % 3;
        let stamp = if seed % 97 == 0 {
            "unknown".to_string()
        } else {
            format!("2024-01-{:02} {:02}:00", day, hour)
        };
        results.push(result(&format!("r{}", i), &stamp));
    }
    let mut expected = results.clone();
    expected.sort_by(|a, b| b.modified.cmp(&a.modified));
    assert_eq!(rank_results(results.clone(), 5000), expected);
    expected.truncate(100);
    assert_eq!(rank_results(results, 100), expected);
}

#[test]
fn summary_counts_every_candidate_once() {
    let outcomes = vec![
        ScanOutcome::SkippedByDate,
        ScanOutcome::Matched(result("a", "2024-01-01 10:00")),
        ScanOutcome::Unreadable,
        ScanOutcome::NoMatch,
        ScanOutcome::Matched(result("b", "2024-02-01 10:00")),
        ScanOutcome::SkippedByDate,
    ];
    let summary = summarize(outcomes.clone(), 2);
    assert_eq!(summary.total_candidates, 6);
    assert_eq!(summary.skipped_by_date, 2);
    assert_eq!(summary.scanned, 4);
    assert_eq!(summary.scanned + summary.skipped_by_date, summary.total_candidates);
    let mut with_undated = outcomes.clone();
    with_undated.push(ScanOutcome::Undated);
    let short = summarize(with_undated, 2);
    assert_eq!(short.total_candidates, 7);
    assert_eq!(short.skipped_by_date, 2);
    assert_eq!(short.scanned, 4);
    assert!(short.scanned + short.skipped_by_date < short.total_candidates);
    assert_eq!(summary.results.len(), 2);
    assert_eq!(summary.results[0].title, "b");
    assert_eq!(summary.results[1].title, "a");
    assert!(summary.limit_reached);
    let roomy = summarize(outcomes.clone(), 3);
    assert_eq!(roomy.results.len(), 2);
    assert!(!roomy.limit_reached);
    let tight = summarize(outcomes, 1);
    assert_eq!(tight.results.len(), 1);
    assert_eq!(tight.results[0].title, "b");
    assert!(tight.limit_reached);
}

#[test]
fn workspace_filter_looks_at_hash_and_path_without_case() {
    let workspaces = vec![
        workspace("ABCDEF0123", true, Some("file:///work/Alph%61"), vec![file("1.json", None, Some("{}"))]),
        workspace("9999999999", true, Some("/work/beta"), vec![file("2.json", None, Some("{}"))]),
        workspace("abc0000000", true, None, vec![file("3.json", None, Some("{}"))]),
        workspace("alpha-no-sessions", false, Some("/work/alpha2"), vec![file("4.json", None, Some("{}"))]),
    ];
    let by_path = find_sessions_filtered("", Some("ALPHA"), false, false, None, None, 10, Some(&workspaces)).unwrap();
    assert_eq!(by_path.workspaces_searched, 1);
    assert_eq!(by_path.summary.results.len(), 1);
    assert_eq!(by_path.summary.results[0].workspace, "Alpha");
    let by_hash = find_sessions_filtered("", Some("abc"), false, false, None, None, 10, Some(&workspaces)).unwrap();
    assert_eq!(by_hash.workspaces_searched, 2);
    assert_eq!(by_hash.summary.total_candidates, 2);
    let none = find_sessions_filtered("", Some("zzz"), false, false, None, None, 10, Some(&workspaces)).unwrap();
    assert_eq!(none.workspaces_searched, 0);
    assert_eq!(none.summary.total_candidates, 0);
    assert!(none.summary.results.is_empty());
    let scheme = find_sessions_filtered("", Some("file:"), false, false, None, None, 10, Some(&workspaces)).unwrap();
    assert_eq!(scheme.workspaces_searched, 0);
    assert_eq!(workspaces[0].project_path(), Some("/work/Alpha".to_string()));
    assert_eq!(workspaces[2].project_path(), None);
    assert_eq!(workspaces[0].display_label(), "Alpha");
    assert_eq!(workspaces[2].display_label(), "abc00000");
    assert!(workspaces[0].is_searched(Some("work/al")));
    assert!(!workspaces[3].is_searched(None));
}

#[test]
fn only_session_files_become_candidates() {
    let workspaces = vec![workspace(
        "0123456789abcdef",
        true,
        Some("file:///srv/projects/gamma/"),
        vec![
            file("one.json", None, None),
            file("notes.txt", None, None),
            file(".json", None, None),
            file("two.JSON", None, None),
            file("three.tar.json", None, None),
            file("json", None, None),
            file("four.json.bak", None, None),
        ],
    )];
    let candidates = index_candidates(&workspaces, None);
    let ids: Vec<&str> = candidates.iter().map(|c| c.session_id.as_str()).collect();
    assert_eq!(ids, vec!["one", "three.tar"]);
    assert!(candidates.iter().all(|c| c.workspace_label == "gamma"));
    assert_eq!(candidates[1].file_index, 4);
}

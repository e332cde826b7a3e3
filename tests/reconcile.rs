use line_scan::kinds::{P_DATE, P_EMAIL, P_IP, P_PHONE, P_QUOTED, P_TEST, P_URL, P_USER_AGENT};
use line_scan::registry::HS_PATTERN_FLAGS;
use line_scan::{
    alloc_result_map, build_hs_db, callback_block, found_patterns_in_line, HSLineScanner,
    HSPatternMatch, HSPatternMatchResults, HSScanPair, MatchEvent, PatternType, ScanFlags,
};

fn ev(id: u32, from: u64, to: u64) -> MatchEvent {
    MatchEvent { id, from, to }
}

fn span(pattern: PatternType, from: u64, to: u64) -> HSPatternMatch {
    HSPatternMatch { pattern, from, to }
}

fn scan_one(events: Vec<MatchEvent>) -> HSPatternMatchResults {
    let lines = vec!["some text".to_string()];
    let scanner = HSLineScanner::new(&lines);
    scanner.scan(&vec![events])
}

const ALL_KINDS: [PatternType; 7] = [
    PatternType::IP,
    PatternType::Email,
    PatternType::Date,
    PatternType::Quoted,
    PatternType::Url,
    PatternType::Phone,
    PatternType::UserAgent,
];

#[test]
fn longest_match_wins_for_one_start() {
    let mut store = scan_one(vec![ev(P_EMAIL, 0, 10), ev(P_EMAIL, 0, 14), ev(P_EMAIL, 0, 12)]);
    let r = found_patterns_in_line(&mut store, &0, &ScanFlags::all());
    assert_eq!(r.email.unwrap(), vec![span(PatternType::Email, 0, 14)]);
}

#[test]
fn independent_starts_retained() {
    let mut store = scan_one(vec![ev(P_IP, 0, 7), ev(P_IP, 3, 9)]);
    let r = found_patterns_in_line(&mut store, &0, &ScanFlags::all());
    assert_eq!(r.ip.unwrap(), vec![span(PatternType::IP, 0, 7), span(PatternType::IP, 3, 9)]);
}

#[test]
fn quoted_pairing() {
    let mut store = scan_one(vec![ev(P_QUOTED, 5, 12), ev(P_QUOTED, 20, 20), ev(P_QUOTED, 20, 30)]);
    let r = found_patterns_in_line(&mut store, &0, &ScanFlags::all());
    assert_eq!(
        r.quoted.unwrap(),
        vec![span(PatternType::Quoted, 6, 11), span(PatternType::Quoted, 20, 29)]
    );
}

#[test]
fn quoted_pairing_before_trim() {
    let mut ctx = HSScanPair { line_index: 2, pattern_match_results: HSPatternMatchResults::new() };
    assert_eq!(callback_block(P_QUOTED, 5, 12, 0, &mut ctx), 0);
    assert_eq!(callback_block(P_QUOTED, 20, 20, 0, &mut ctx), 0);
    assert_eq!(callback_block(P_QUOTED, 20, 30, 0, &mut ctx), 0);
    let spans = ctx.pattern_match_results.take_line(2);
    assert_eq!(spans, vec![span(PatternType::Quoted, 5, 12), span(PatternType::Quoted, 19, 30)]);
}

#[test]
fn user_agent_trim_then_drained() {
    let mut store = scan_one(vec![ev(P_USER_AGENT, 40, 60)]);
    let flags = ScanFlags::all();
    let r = found_patterns_in_line(&mut store, &0, &flags);
    assert_eq!(r.user_agent.unwrap(), vec![span(PatternType::UserAgent, 41, 59)]);
    let again = found_patterns_in_line(&mut store, &0, &flags);
    for k in ALL_KINDS {
        assert_eq!(again.get(k), Some(&Vec::new()));
    }
}

#[test]
fn disabled_phone_absent() {
    let mut flags = ScanFlags::all();
    flags.phone = false;
    let mut store = scan_one(vec![ev(P_PHONE, 0, 12), ev(P_IP, 14, 21)]);
    let r = found_patterns_in_line(&mut store, &0, &flags);
    assert!(r.phone.is_none());
    assert!(r.get(PatternType::Phone).is_none());
    assert_eq!(r.ip.unwrap(), vec![span(PatternType::IP, 14, 21)]);
}

#[test]
fn empty_line_projects_empty_fields() {
    let lines = vec![String::new()];
    let scanner = HSLineScanner::new(&lines);
    let mut store = scanner.scan(&vec![Vec::new()]);
    let r = found_patterns_in_line(&mut store, &0, &ScanFlags::all());
    for k in ALL_KINDS {
        assert_eq!(r.get(k), Some(&Vec::new()));
    }
}

#[test]
fn unresolved_placeholder_surfaces_inverted() {
    let mut store = scan_one(vec![ev(P_QUOTED, 20, 20)]);
    let r = found_patterns_in_line(&mut store, &0, &ScanFlags::all());
    assert_eq!(r.quoted.unwrap(), vec![span(PatternType::Quoted, 21, 19)]);
}

#[test]
fn unpaired_second_quote_leaves_placeholder() {
    let mut store = scan_one(vec![ev(P_QUOTED, 5, 12), ev(P_QUOTED, 14, 20)]);
    let r = found_patterns_in_line(&mut store, &0, &ScanFlags::all());
    assert_eq!(
        r.quoted.unwrap(),
        vec![span(PatternType::Quoted, 6, 11), span(PatternType::Quoted, 21, 19)]
    );
}

#[test]
fn unknown_ids_are_ignored() {
    let mut store = scan_one(vec![ev(P_TEST, 0, 4), ev(99, 2, 8), ev(P_URL, 0, 20)]);
    let spans = store.take_line(0);
    assert_eq!(spans, vec![span(PatternType::Url, 0, 20)]);
}

#[test]
fn shorter_end_after_longer_is_no_op() {
    let mut store = scan_one(vec![ev(P_DATE, 3, 13), ev(P_DATE, 3, 11), ev(P_DATE, 4, 13)]);
    let r = found_patterns_in_line(&mut store, &0, &ScanFlags::all());
    assert_eq!(r.date.unwrap(), vec![span(PatternType::Date, 3, 13), span(PatternType::Date, 4, 13)]);
}

#[test]
fn lines_are_kept_apart() {
    let lines = vec!["a".to_string(), "b".to_string(), "c".to_string()];
    let scanner = HSLineScanner::new(&lines);
    let mut store = scanner.scan(&vec![
        vec![ev(P_IP, 0, 7)],
        Vec::new(),
        vec![ev(P_IP, 0, 9), ev(P_QUOTED, 1, 5)],
    ]);
    let flags = ScanFlags::all();
    let r2 = found_patterns_in_line(&mut store, &2, &flags);
    assert_eq!(r2.ip.unwrap(), vec![span(PatternType::IP, 0, 9)]);
    assert_eq!(r2.quoted.unwrap(), vec![span(PatternType::Quoted, 2, 4)]);
    let r1 = found_patterns_in_line(&mut store, &1, &flags);
    assert_eq!(r1.ip.unwrap(), Vec::new());
    let r0 = found_patterns_in_line(&mut store, &0, &flags);
    assert_eq!(r0.ip.unwrap(), vec![span(PatternType::IP, 0, 7)]);
}

#[test]
fn alloc_result_map_only_enabled_fields() {
    let mut flags = ScanFlags::none();
    flags.email = true;
    flags.url = true;
    let r = alloc_result_map(&flags);
    assert_eq!(r.email, Some(Vec::new()));
    assert_eq!(r.url, Some(Vec::new()));
    assert!(r.ip.is_none() && r.date.is_none() && r.quoted.is_none());
    assert!(r.phone.is_none() && r.user_agent.is_none());
    assert!(r.get(PatternType::Unknown).is_none());
}

#[test]
fn build_hs_db_lists_enabled_kinds_in_order() {
    let all = build_hs_db(&ScanFlags::all());
    let ids: Vec<u32> = all.iter().map(|p| p.id).collect();
    assert_eq!(ids, vec![P_IP, P_EMAIL, P_DATE, P_QUOTED, P_URL, P_PHONE, P_USER_AGENT]);
    assert_eq!(ids, vec![2, 1, 4, 3, 7, 5, 6]);
    assert!(all.iter().all(|p| p.flags == HS_PATTERN_FLAGS && p.flags == 257));
    assert_eq!(all[3].expression, "((\"(.*?)\")|'(.*?)')");

    let mut flags = ScanFlags::none();
    flags.phone = true;
    let one = build_hs_db(&flags);
    assert_eq!(one.len(), 1);
    assert_eq!(one[0].id, 5);
    assert_eq!(one[0].expression, "[\\(]?(\\d{3})[\\)-]?[- ]?(\\d{3})[- ]?(\\d{4})");
    assert!(build_hs_db(&ScanFlags::none()).is_empty());
}

#[test]
fn kinds_ids_and_field_names() {
    for k in ALL_KINDS {
        assert_eq!(PatternType::from_id(k.pattern_id()), k);
    }
    assert_eq!(PatternType::from_id(P_TEST), PatternType::Unknown);
    assert_eq!(PatternType::UserAgent.field_name(), Some("user_agent"));
    assert_eq!(PatternType::IP.field_name(), Some("ip"));
    assert_eq!(PatternType::Test.field_name(), None);
}

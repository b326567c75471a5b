use tsst::{
    confirm_copy, find_latest_log_file, maybe_copy_latest_code, needs_switch, plan_tick_actions,
    poll_delta, process_delta, switch_log, AppState, CodeEntry, LogFileInfo, LogPatterns,
    RoundStats, TerrorData, TickReport, VrCommand, VrTerrorInfo, WORLD_ID,
};

fn lookup(id: u32, _round_type: &str) -> TerrorData {
    TerrorData { name: format!("T{}", id), color: None, abilities: vec![] }
}

fn translate(round_type: &str) -> String {
    round_type.to_uppercase()
}

fn patterns() -> LogPatterns {
    match LogPatterns::new() {
        Ok(p) => p,
        Err(e) => panic!("pattern refused: {:?}", e),
    }
}

fn file(path: &str, modified: Option<u128>) -> LogFileInfo {
    LogFileInfo { path: path.to_string(), is_file: true, modified }
}

fn dir(path: &str) -> LogFileInfo {
    LogFileInfo { path: path.to_string(), is_file: false, modified: Some(u128::MAX) }
}

fn entry(code: &str) -> CodeEntry {
    CodeEntry {
        code: code.to_string(),
        timestamp: String::new(),
        round_type: None,
        terror_names: None,
        round_type_english: None,
    }
}

#[test]
fn the_file_modified_last_is_followed() {
    let entries = vec![file("a", Some(5)), dir("d"), file("b", Some(9)), file("c", Some(7))];
    assert_eq!(find_latest_log_file(&entries), Some("b".to_string()));
}

#[test]
fn of_files_modified_together_the_first_is_followed() {
    let entries = vec![file("a", Some(9)), file("b", Some(9)), file("c", Some(1))];
    assert_eq!(find_latest_log_file(&entries), Some("a".to_string()));
}

#[test]
fn no_file_is_followed_in_a_directory_without_files() {
    assert_eq!(find_latest_log_file(&vec![]), None);
    assert_eq!(find_latest_log_file(&vec![dir("d"), dir("e")]), None);
}

#[test]
fn a_file_without_a_modification_time_stops_the_search() {
    let entries = vec![file("a", Some(5)), file("b", None), file("c", Some(7))];
    assert_eq!(find_latest_log_file(&entries), None);
    let unreadable_dir =
        vec![file("a", Some(5)), LogFileInfo { path: "d".to_string(), is_file: false, modified: None }];
    assert_eq!(find_latest_log_file(&unreadable_dir), Some("a".to_string()));
}

#[test]
fn a_new_file_is_followed_from_its_end() {
    let mut state = AppState::default();
    assert!(needs_switch(&state, "log1"));
    switch_log(&mut state, "log1".to_string(), Some(1234));
    assert_eq!(state.last_log_path, Some("log1".to_string()));
    assert_eq!(state.last_offset, 1234);
    assert!(!needs_switch(&state, "log1"));
    assert!(needs_switch(&state, "log2"));
    switch_log(&mut state, "log2".to_string(), None);
    assert_eq!(state.last_log_path, Some("log2".to_string()));
    assert_eq!(state.last_offset, 0);
}

#[test]
fn a_poll_reports_what_happened_anywhere_in_it() {
    let p = patterns();
    let mut state = AppState::default();
    state.last_offset = 100;
    let buffer = "This round is taking place at Facility and the round type is Classic\r\n\
                  Killers have been set - 3 0 7\r\n\
                  noise\r\n\
                  You died.\r\n\
                  Verified Round End\r\n";
    let report = process_delta(buffer, &p, &mut state, &lookup, &translate);
    assert_eq!(
        report,
        TickReport {
            state_changed: true,
            round_started: true,
            round_ended: true,
            killers_changed: true,
            copy_requests: vec![],
        }
    );
    assert_eq!(state.last_offset, 100 + buffer.len() as u64);
    assert_eq!(state.data.stats.deaths(), 1);
    assert!(!state.current_round.is_active);
}

#[test]
fn a_poll_without_signals_reports_nothing_and_moves_the_offset() {
    let p = patterns();
    let mut state = AppState::default();
    let report = process_delta("one\ntwo\npartial", &p, &mut state, &lookup, &translate);
    assert_eq!(
        report,
        TickReport {
            state_changed: false,
            round_started: false,
            round_ended: false,
            killers_changed: false,
            copy_requests: vec![],
        }
    );
    assert_eq!(state.last_offset, 15);
    let empty = process_delta("", &p, &mut state, &lookup, &translate);
    assert!(!empty.state_changed);
    assert_eq!(state.last_offset, 15);
}

#[test]
fn the_offset_moves_by_bytes_not_characters() {
    let p = patterns();
    let mut state = AppState::default();
    process_delta("日本語\n", &p, &mut state, &lookup, &translate);
    assert_eq!(state.last_offset, 10);
}

#[test]
fn a_trailing_partial_line_is_processed() {
    let p = patterns();
    let mut state = AppState::default();
    let report = process_delta("x\n2024-01-01 10:00:00 [START]4_5[END]", &p, &mut state, &lookup, &translate);
    assert!(report.state_changed);
    assert_eq!(state.data.history.len(), 1);
    assert_eq!(state.data.history[0].code, "4_5");
}

fn poll(state: &mut AppState, p: &LogPatterns, buffer: &str) -> TickReport {
    process_delta(buffer, p, state, &lookup, &translate)
}

#[test]
fn killers_count_as_changed_only_when_a_round_comes_to_have_some() {
    let p = patterns();
    let mut state = AppState::default();
    let report = poll(&mut state, &p, "Killers have been set - 0 0 0\nYou died.\n");
    assert!(report.state_changed);
    assert!(!report.killers_changed);
    let report = poll(&mut state, &p, "Killers have been set - 0 2 0\n");
    assert!(report.killers_changed);
    let report = poll(&mut state, &p, "You died.\n");
    assert!(report.state_changed);
    assert!(!report.killers_changed);
    let report = poll(&mut state, &p, "LOL JK, REBORN!\nLived in round.\n[START]1[END]\n");
    assert!(report.state_changed);
    assert!(!report.killers_changed);
    let report = poll(&mut state, &p, "Killers have been set - 5 2 0\n");
    assert!(report.state_changed);
    assert!(!report.killers_changed);
    assert_eq!(state.current_round.killers, vec![5, 2]);
}

#[test]
fn killers_of_a_new_round_in_the_same_poll_count_as_changed() {
    let p = patterns();
    let mut state = AppState::default();
    poll(&mut state, &p, "Killers have been set - 1 0 0\n");
    let report = poll(&mut state, &p, "Verified Round End\nKillers have been set - 0 0 9\n");
    assert!(report.round_ended);
    assert!(report.killers_changed);
    assert_eq!(state.current_round.killers, vec![9]);
    let report = poll(&mut state, &p, "Respawned? Coward.\n");
    assert!(report.round_ended);
    assert!(!report.killers_changed);
    let report = poll(&mut state, &p, "Killers have been set - 3 0 0\nVerified Round End\n");
    assert!(report.killers_changed);
    assert!(state.current_round.killers.is_empty());
}

#[test]
fn a_death_while_the_round_has_killers_sends_the_overlay_nothing() {
    let p = patterns();
    let mut state = AppState::default();
    state.settings.vr_overlay_enabled = true;
    let report = poll(&mut state, &p, "Killers have been set - 3 0 7\n");
    assert_eq!(plan_tick_actions(&report, &state, &lookup).vr_commands.len(), 1);
    let report = poll(&mut state, &p, "You died.\n");
    let actions = plan_tick_actions(&report, &state, &lookup);
    assert!(actions.publish_state);
    assert!(actions.vr_commands.is_empty());
    let report = poll(&mut state, &p, "2024-01-01 20:00:00 [START]12[END]\n");
    let actions = plan_tick_actions(&report, &state, &lookup);
    assert!(actions.publish_state);
    assert!(actions.vr_commands.is_empty());
}

#[test]
fn consecutive_marker_lines_ask_for_one_copy() {
    let p = patterns();
    let mut state = AppState::default();
    let marker = format!("joining {} now", WORLD_ID);
    let buffer = format!("[START]11[END]\n{m}\n{m}\n{m}\n", m = marker);
    let report = process_delta(&buffer, &p, &mut state, &lookup, &translate);
    assert_eq!(report.copy_requests, vec!["11".to_string()]);
    assert_eq!(state.last_copied_code, None);
    confirm_copy(&mut state, "11".to_string());
    assert_eq!(state.last_copied_code, Some("11".to_string()));
    let again = process_delta(&format!("{m}\n{m}\n", m = marker), &p, &mut state, &lookup, &translate);
    assert!(again.copy_requests.is_empty());
    let changed = format!("{m}\n[START]12[END]\n{m}\n{m}\n[START]11[END] {m}\n", m = marker);
    let report = process_delta(&changed, &p, &mut state, &lookup, &translate);
    assert_eq!(report.copy_requests, vec!["12".to_string(), "11".to_string()]);
}

#[test]
fn a_copy_that_failed_is_asked_for_again_by_the_next_marker_line() {
    let p = patterns();
    let mut state = AppState::default();
    let marker = format!("{}\n", WORLD_ID);
    let first = process_delta(&format!("[START]5[END]\n{}", marker), &p, &mut state, &lookup, &translate);
    assert_eq!(first.copy_requests, vec!["5".to_string()]);
    let second = process_delta(&marker, &p, &mut state, &lookup, &translate);
    assert_eq!(second.copy_requests, vec!["5".to_string()]);
}

#[test]
fn a_marker_line_without_history_asks_for_nothing() {
    assert_eq!(maybe_copy_latest_code(WORLD_ID, &vec![], &None), None);
    let history = vec![entry("1"), entry("2")];
    assert_eq!(maybe_copy_latest_code(WORLD_ID, &history, &None), Some("2".to_string()));
    assert_eq!(maybe_copy_latest_code(WORLD_ID, &history, &Some("1".to_string())), Some("2".to_string()));
    assert_eq!(maybe_copy_latest_code(WORLD_ID, &history, &Some("2".to_string())), None);
    assert_eq!(maybe_copy_latest_code("wrld_other", &history, &None), None);
    assert_eq!(maybe_copy_latest_code(&WORLD_ID[1..], &history, &None), None);
}

#[test]
fn a_poll_is_refused_only_where_a_round_end_has_no_room() {
    let p = patterns();
    let mut state = AppState::default();
    state.data.stats = RoundStats::with_totals(0, u32::MAX - 1, 0);
    let two_ends = "Verified Round End\nx\nVerified Round End\n";
    assert_eq!(poll_delta(two_ends, &p, &mut state, &lookup, &translate), None);
    assert_eq!(state.last_offset, 0);
    assert_eq!(state.data.stats.survivals(), u32::MAX - 1);
    assert!(poll_delta("a\nb\nYou died.\n", &p, &mut state, &lookup, &translate).is_some());
    assert_eq!(state.last_offset, 14);
    let report = poll_delta("LOL JK, REBORN!\nVerified Round End\n", &p, &mut state, &lookup, &translate);
    assert!(report.is_some());
    assert_eq!(state.data.stats.survivals(), u32::MAX);
    assert_eq!(state.last_offset, 14 + 35);
    assert_eq!(poll_delta("Verified Round End", &p, &mut state, &lookup, &translate), None);
    let quiet = "This round is taking place at A and the round type is Fog\nYou died.\n[START]1[END]\n";
    assert!(poll_delta(quiet, &p, &mut state, &lookup, &translate).is_some());
    assert_eq!(state.data.history.len(), 1);
    assert!(poll_delta("", &p, &mut state, &lookup, &translate).is_some());
}

#[test]
fn a_poll_is_refused_where_the_offset_has_no_room() {
    let p = patterns();
    let mut state = AppState::default();
    state.last_offset = u64::MAX - 2;
    assert_eq!(poll_delta("abc", &p, &mut state, &lookup, &translate), None);
    assert!(poll_delta("ab", &p, &mut state, &lookup, &translate).is_some());
    assert_eq!(state.last_offset, u64::MAX);
}

fn report(state_changed: bool, started: bool, ended: bool, killers: bool) -> TickReport {
    TickReport {
        state_changed,
        round_started: started,
        round_ended: ended,
        killers_changed: killers,
        copy_requests: vec![],
    }
}

#[test]
fn nothing_follows_a_poll_that_changed_nothing() {
    let mut state = AppState::default();
    state.settings.vr_overlay_enabled = true;
    state.settings.auto_switch_tab = true;
    state.current_round.killers = vec![1];
    let actions = plan_tick_actions(&report(false, true, true, true), &state, &lookup);
    assert!(!actions.publish_state);
    assert!(!actions.announce_round_started);
    assert!(!actions.announce_round_ended);
    assert!(actions.vr_commands.is_empty());
}

#[test]
fn announcements_follow_the_setting() {
    let mut state = AppState::default();
    let actions = plan_tick_actions(&report(true, true, true, false), &state, &lookup);
    assert!(actions.publish_state);
    assert!(!actions.announce_round_started);
    assert!(!actions.announce_round_ended);
    state.settings.auto_switch_tab = true;
    let actions = plan_tick_actions(&report(true, true, false, false), &state, &lookup);
    assert!(actions.announce_round_started);
    assert!(!actions.announce_round_ended);
    assert!(actions.vr_commands.is_empty());
}

#[test]
fn the_overlay_is_shown_killers_then_cleared() {
    let mut state = AppState::default();
    state.settings.vr_overlay_enabled = true;
    state.current_round.is_active = true;
    state.current_round.killers = vec![3, 7];
    state.current_round.round_type = Some("Fog".to_string());
    let info = |id: u32| VrTerrorInfo { name: format!("T{}", id), color: None, abilities: vec![] };
    let show =
        VrCommand::UpdateTerrors { terrors: vec![info(3), info(7)], round_type: "Fog".to_string() };
    let actions = plan_tick_actions(&report(true, false, false, true), &state, &lookup);
    assert_eq!(actions.vr_commands, vec![show.clone()]);
    let actions = plan_tick_actions(&report(true, false, true, true), &state, &lookup);
    assert_eq!(actions.vr_commands, vec![show, VrCommand::Clear]);
    state.current_round.killers = vec![];
    let actions = plan_tick_actions(&report(true, false, true, true), &state, &lookup);
    assert_eq!(actions.vr_commands, vec![VrCommand::Clear]);
    state.settings.vr_overlay_enabled = false;
    let actions = plan_tick_actions(&report(true, false, true, true), &state, &lookup);
    assert!(actions.vr_commands.is_empty());
}

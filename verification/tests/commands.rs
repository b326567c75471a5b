use tsst::{
    get_effective_log_dir, get_state, set_auto_switch_tab, set_log_dir, set_vr_overlay_enabled,
    set_vr_overlay_position, AppSettings, AppState, CodeEntry, OverlaySwitch, TerrorData,
    VrCommand, VrOverlayPosition, VrTerrorInfo,
};

fn lookup(id: u32, _round_type: &str) -> TerrorData {
    TerrorData { name: format!("T{}", id), color: None, abilities: vec![] }
}

fn entry(code: &str) -> CodeEntry {
    CodeEntry {
        code: code.to_string(),
        timestamp: "d t".to_string(),
        round_type: Some("Classic".to_string()),
        terror_names: Some(vec!["A".to_string()]),
        round_type_english: None,
    }
}

#[test]
fn the_configured_directory_comes_before_the_default() {
    let mut settings = AppSettings::default();
    assert_eq!(get_effective_log_dir(&settings, None), None);
    assert_eq!(get_effective_log_dir(&settings, Some("default".to_string())), Some("default".to_string()));
    settings.log_dir = Some("mine".to_string());
    assert_eq!(get_effective_log_dir(&settings, Some("default".to_string())), Some("mine".to_string()));
    assert_eq!(get_effective_log_dir(&settings, None), Some("mine".to_string()));
}

#[test]
fn first_run_settings() {
    assert_eq!(
        AppSettings::default(),
        AppSettings {
            log_dir: None,
            auto_switch_tab: false,
            vr_overlay_enabled: false,
            vr_overlay_position: VrOverlayPosition::RightHand,
        }
    );
}

#[test]
fn a_snapshot_copies_the_state() {
    let mut state = AppState::default();
    let empty = get_state(&state);
    assert_eq!(empty.latest_code, None);
    assert!(empty.history.is_empty());
    state.data.history.push(entry("1"));
    state.data.history.push(entry("2"));
    state.data.stats.record_survival("Classic");
    state.data.stats.record_survival("Fog");
    state.data.stats.record_death("Fog");
    state.current_round.is_active = true;
    state.current_round.killers = vec![4];
    state.settings.log_dir = Some("dir".to_string());
    let snapshot = get_state(&state);
    assert_eq!(snapshot.settings, state.settings);
    assert_eq!(snapshot.history, state.data.history);
    assert_eq!(snapshot.latest_code, Some(entry("2")));
    assert_eq!(snapshot.survivals, 2);
    assert_eq!(snapshot.stats.survivals(), 2);
    assert_eq!(snapshot.stats.deaths(), 1);
    assert_eq!(snapshot.stats.tally("Fog"), state.data.stats.tally("Fog"));
    assert_eq!(snapshot.current_round, state.current_round);
}

#[test]
fn settings_change_one_field_at_a_time() {
    let mut state = AppState::default();
    let saved = set_log_dir(&mut state, Some("logs".to_string()));
    assert_eq!(saved.log_dir, Some("logs".to_string()));
    assert_eq!(saved, state.settings);
    let saved = set_auto_switch_tab(&mut state, true);
    assert!(saved.auto_switch_tab);
    assert_eq!(saved.log_dir, Some("logs".to_string()));
    assert_eq!(saved, state.settings);
    let saved = set_log_dir(&mut state, None);
    assert_eq!(saved.log_dir, None);
    assert!(saved.auto_switch_tab);
}

#[test]
fn switching_the_overlay_on_starts_it_and_shows_a_round_in_progress() {
    let mut state = AppState::default();
    let (saved, switch) = set_vr_overlay_enabled(&mut state, true, &lookup);
    assert!(saved.vr_overlay_enabled);
    assert!(state.settings.vr_overlay_enabled);
    assert_eq!(switch, OverlaySwitch::Start { first_command: None });
    state.current_round.is_active = true;
    let (_, switch) = set_vr_overlay_enabled(&mut state, true, &lookup);
    assert_eq!(switch, OverlaySwitch::Start { first_command: None });
    state.current_round.killers = vec![9];
    let (_, switch) = set_vr_overlay_enabled(&mut state, true, &lookup);
    assert_eq!(
        switch,
        OverlaySwitch::Start {
            first_command: Some(VrCommand::UpdateTerrors {
                terrors: vec![VrTerrorInfo { name: "T9".to_string(), color: None, abilities: vec![] }],
                round_type: "Classic".to_string(),
            })
        }
    );
    state.current_round.is_active = false;
    let (_, switch) = set_vr_overlay_enabled(&mut state, true, &lookup);
    assert_eq!(switch, OverlaySwitch::Start { first_command: None });
    let (saved, switch) = set_vr_overlay_enabled(&mut state, false, &lookup);
    assert!(!saved.vr_overlay_enabled);
    assert_eq!(switch, OverlaySwitch::Stop);
}

#[test]
fn a_new_position_is_sent_to_an_overlay_that_is_on() {
    let mut state = AppState::default();
    let (saved, command) = set_vr_overlay_position(&mut state, "Above");
    assert_eq!(saved.vr_overlay_position, VrOverlayPosition::Above);
    assert_eq!(command, None);
    state.settings.vr_overlay_enabled = true;
    let (saved, command) = set_vr_overlay_position(&mut state, "LeftHand");
    assert_eq!(saved.vr_overlay_position, VrOverlayPosition::LeftHand);
    assert_eq!(command, Some(VrCommand::SetPosition { position: VrOverlayPosition::LeftHand }));
    let (saved, command) = set_vr_overlay_position(&mut state, "somewhere");
    assert_eq!(saved.vr_overlay_position, VrOverlayPosition::RightHand);
    assert_eq!(command, Some(VrCommand::SetPosition { position: VrOverlayPosition::RightHand }));
}

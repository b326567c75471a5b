use tsst::{
    error_message, first_existing, frame_command, overlay_candidates, parse_position,
    position_arg, supervise, update_terrors, CandidateBase, CurrentRoundInfo, OverlayCandidate,
    OverlayError, OverlayStatus, SupervisorAction, SupervisorEvent, TerrorAbility, TerrorData,
    VrCommand, VrOverlayPosition, VrTerrorAbility, VrTerrorInfo, STOP_GRACE_MILLIS,
};

fn lookup(id: u32, round_type: &str) -> TerrorData {
    TerrorData {
        name: format!("{}-{}", round_type, id),
        color: Some("255, 0, 0".to_string()),
        abilities: vec![TerrorAbility { label: "Speed".to_string(), value: format!("{}", id) }],
    }
}

#[test]
fn a_command_travels_as_one_prefixed_base64_line() {
    assert_eq!(frame_command(b"{\"type\":\"quit\"}"), "b64:eyJ0eXBlIjoicXVpdCJ9\n");
    assert_eq!(frame_command(b""), "b64:\n");
    assert_eq!(frame_command(b"a"), "b64:YQ==\n");
    assert_eq!(frame_command(b"ab"), "b64:YWI=\n");
    assert_eq!(frame_command(&[0xfb, 0xff, 0xfe]), "b64:+//+\n");
}

#[test]
fn positions_have_their_arguments_and_names() {
    assert_eq!(position_arg(VrOverlayPosition::RightHand), "right");
    assert_eq!(position_arg(VrOverlayPosition::LeftHand), "left");
    assert_eq!(position_arg(VrOverlayPosition::Above), "above");
    assert_eq!(parse_position("LeftHand"), VrOverlayPosition::LeftHand);
    assert_eq!(parse_position("Above"), VrOverlayPosition::Above);
    assert_eq!(parse_position("RightHand"), VrOverlayPosition::RightHand);
    assert_eq!(parse_position("lefthand"), VrOverlayPosition::RightHand);
    assert_eq!(parse_position(""), VrOverlayPosition::RightHand);
    assert_eq!(VrOverlayPosition::default(), VrOverlayPosition::RightHand);
}

fn place(base: CandidateBase, path: &[&str]) -> OverlayCandidate {
    OverlayCandidate { base, path: path.iter().map(|p| p.to_string()).collect() }
}

#[test]
fn the_executable_is_looked_for_in_a_fixed_order() {
    assert_eq!(
        overlay_candidates(true),
        vec![
            place(CandidateBase::ExecutableDir, &["vr-overlay.exe"]),
            place(CandidateBase::ResourceDir, &["vr-overlay.exe"]),
            place(CandidateBase::ResourceDir, &["binaries", "vr-overlay.exe"]),
            place(CandidateBase::ResourceDir, &["binaries", "vr-overlay-x86_64-pc-windows-msvc.exe"]),
            place(CandidateBase::ResourceLookup, &["vr-overlay.exe"]),
        ]
    );
    assert_eq!(
        overlay_candidates(false),
        vec![
            place(CandidateBase::ExecutableDir, &["vr-overlay.exe"]),
            place(CandidateBase::ResourceDir, &["vr-overlay"]),
            place(CandidateBase::ResourceDir, &["binaries", "vr-overlay"]),
            place(CandidateBase::ResourceLookup, &["vr-overlay.exe"]),
        ]
    );
}

#[test]
fn the_first_candidate_that_exists_is_taken() {
    assert_eq!(first_existing(&vec![false, true, true]), Some(1));
    assert_eq!(first_existing(&vec![true]), Some(0));
    assert_eq!(first_existing(&vec![false, false]), None);
    assert_eq!(first_existing(&vec![]), None);
}

#[test]
fn the_supervisor_starts_once_and_stops_once() {
    let (running, stopped) = (OverlayStatus::Running, OverlayStatus::Stopped);
    assert_eq!(supervise(stopped, SupervisorEvent::StartRequested), (stopped, SupervisorAction::Launch));
    assert_eq!(supervise(running, SupervisorEvent::StartRequested), (running, SupervisorAction::Nothing));
    assert_eq!(supervise(stopped, SupervisorEvent::Spawned), (running, SupervisorAction::Nothing));
    assert_eq!(
        supervise(stopped, SupervisorEvent::BinaryMissing),
        (stopped, SupervisorAction::Fail(OverlayError::NotFound))
    );
    assert_eq!(
        supervise(stopped, SupervisorEvent::SpawnFailed),
        (stopped, SupervisorAction::Fail(OverlayError::SpawnFailed))
    );
    assert_eq!(supervise(running, SupervisorEvent::StopRequested), (stopped, SupervisorAction::QuitThenKill));
    assert_eq!(supervise(stopped, SupervisorEvent::StopRequested), (stopped, SupervisorAction::Nothing));
    assert_eq!(supervise(running, SupervisorEvent::SendRequested), (running, SupervisorAction::WriteLine));
    assert_eq!(supervise(stopped, SupervisorEvent::SendRequested), (stopped, SupervisorAction::Nothing));
    assert_eq!(
        supervise(running, SupervisorEvent::WriteFailed),
        (running, SupervisorAction::Fail(OverlayError::Io))
    );
    assert_eq!(supervise(stopped, SupervisorEvent::WriteFailed), (stopped, SupervisorAction::Nothing));
    assert_eq!(supervise(running, SupervisorEvent::Spawned), (running, SupervisorAction::Nothing));
    assert_eq!(STOP_GRACE_MILLIS, 100);
}

#[test]
fn failures_have_their_messages() {
    assert_eq!(error_message(OverlayError::NotFound), "VR overlay binary not found");
    assert_eq!(error_message(OverlayError::SpawnFailed), "Failed to start VR overlay");
    assert_eq!(error_message(OverlayError::Io), "Failed to write VR command");
}

#[test]
fn the_overlay_is_told_each_killer_and_the_round_type() {
    let mut round = CurrentRoundInfo::default();
    round.is_active = true;
    round.killers = vec![3, 7];
    let info = |id: u32, rt: &str| VrTerrorInfo {
        name: format!("{}-{}", rt, id),
        color: Some("255, 0, 0".to_string()),
        abilities: vec![VrTerrorAbility { label: "Speed".to_string(), value: format!("{}", id) }],
    };
    assert_eq!(
        update_terrors(&round, &lookup),
        VrCommand::UpdateTerrors {
            terrors: vec![info(3, "Classic"), info(7, "Classic")],
            round_type: "Classic".to_string(),
        }
    );
    round.round_type = Some("Fog".to_string());
    assert_eq!(
        update_terrors(&round, &lookup),
        VrCommand::UpdateTerrors {
            terrors: vec![info(3, "Fog"), info(7, "Fog")],
            round_type: "Fog".to_string(),
        }
    );
}

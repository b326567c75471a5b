//! Follows a game's log as it grows: reads signals out of its lines, keeps
//! the round in progress, the statistics and the history of save codes, says
//! when a code goes to the clipboard, and plans what an overlay process is
//! told.

pub mod commands;
pub mod matching;
pub mod model;
pub mod monitor;
pub mod notifier;
pub mod overlay;
pub mod patterns;
pub mod poll_proofs;
pub mod round;
pub mod round_proofs;
pub mod stats;
pub mod terror;
pub mod text;

pub use commands::{
    get_effective_log_dir, get_state, set_auto_switch_tab, set_log_dir, set_vr_overlay_enabled,
    set_vr_overlay_position, AppSnapshot, OverlaySwitch,
};
pub use model::{
    AppData, AppSettings, AppState, CodeEntry, CurrentRoundInfo, LogEvent, VrOverlayPosition,
    MAX_HISTORY, WORLD_ID,
};
pub use monitor::{
    find_latest_log_file, needs_switch, plan_tick_actions, poll_delta, process_delta,
    process_lines, switch_log, LogFileInfo, TickActions, TickReport,
};
pub use notifier::{confirm_copy, maybe_copy_latest_code};
pub use overlay::{
    error_message, first_existing, frame_command, overlay_candidates, parse_position,
    position_arg, supervise, update_terrors, CandidateBase, OverlayCandidate, OverlayError,
    OverlayStatus, SupervisorAction, SupervisorEvent, VrCommand, STOP_GRACE_MILLIS,
};
pub use patterns::{
    KillersSet, LineSignals, LogPatterns, PatternError, PatternKind, RoundStart, SaveCode,
};
pub use round::{
    apply_round_signals, apply_signals, feed_line, killer_names, process_log_line, record_code,
};
pub use stats::{RoundStats, RoundTypeEntry, RoundTypeStats};
pub use terror::{
    get_terror_info, get_terrors_info, overlay_terrors, TerrorAbility, TerrorAbilityResponse,
    TerrorData, TerrorDataResponse, VrTerrorAbility, VrTerrorInfo,
};

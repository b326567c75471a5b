//! What the settings window asks of the tracker: a snapshot of the state,
//! and changes of the settings with what each change sets in motion.

use crate::model::{
    clone_entries, entry_views, AppSettings, AppState, CodeEntry, CodeEntryView, CurrentRoundInfo,
    RoundView, SettingsView, StateView,
};
use crate::overlay::{
    is_update_for, named_position, parse_position, update_terrors, VrCommand, VrCommandView,
};
use crate::stats::{RoundStats, StatsView};
use crate::terror::TerrorData;
use crate::text::opt_view;
use vstd::prelude::*;

verus! {

/// The directory that logs are read from: the configured one, or else the
/// default of the platform, if there is one.
pub fn get_effective_log_dir(settings: &AppSettings, default_dir: Option<String>) -> (r: Option<
    String,
>)
    ensures
        opt_view(r) == (match settings@.log_dir {
            Some(dir) => Some(dir),
            None => opt_view(default_dir),
        }),
{
    match &settings.log_dir {
        Some(dir) => Some(dir.clone()),
        None => default_dir,
    }
}

/// Everything the settings window shows.
#[derive(Debug)]
pub struct AppSnapshot {
    pub settings: AppSettings,
    pub history: Vec<CodeEntry>,
    pub latest_code: Option<CodeEntry>,
    pub stats: RoundStats,
    pub survivals: u32,
    pub current_round: CurrentRoundInfo,
}

pub struct SnapshotView {
    pub settings: SettingsView,
    pub history: Seq<CodeEntryView>,
    pub latest_code: Option<CodeEntryView>,
    pub stats: StatsView,
    pub survivals: nat,
    pub current_round: RoundView,
}

impl View for AppSnapshot {
    type V = SnapshotView;

    open spec fn view(&self) -> SnapshotView {
        SnapshotView {
            settings: self.settings@,
            history: entry_views(self.history@),
            latest_code: match self.latest_code {
                Some(e) => Some(e@),
                None => None,
            },
            stats: self.stats@,
            survivals: self.survivals as nat,
            current_round: self.current_round@,
        }
    }
}

/// The snapshot of a state: copies of the settings, the history, the
/// statistics and the round, with the newest code and the survivals apart.
pub open spec fn snapshot_of(s: StateView) -> SnapshotView {
    SnapshotView {
        settings: s.settings,
        history: s.history,
        latest_code: if s.history.len() > 0 {
            Some(s.history.last())
        } else {
            None
        },
        stats: s.stats,
        survivals: s.stats.survivals,
        current_round: s.current_round,
    }
}

/// Takes a snapshot of the state.
pub fn get_state(state: &AppState) -> (r: AppSnapshot)
    ensures
        r@ == snapshot_of(state@),
        state.wf() ==> r.stats.wf(),
{
    let history = clone_entries(&state.data.history);
    let latest_code = if state.data.history.len() > 0 {
        Some(state.data.history[state.data.history.len() - 1].clone())
    } else {
        None
    };
    AppSnapshot {
        settings: state.settings.clone(),
        history,
        latest_code,
        stats: state.data.stats.clone(),
        survivals: state.data.stats.survivals(),
        current_round: state.current_round.clone(),
    }
}

/// Sets the log directory and hands back the settings to save.
pub fn set_log_dir(state: &mut AppState, log_dir: Option<String>) -> (r: AppSettings)
    ensures
        final(state).data == old(state).data,
        final(state)@ == (StateView {
            settings: SettingsView { log_dir: opt_view(log_dir), ..old(state)@.settings },
            ..old(state)@
        }),
        r@ == final(state)@.settings,
{
    state.settings.log_dir = log_dir;
    state.settings.clone()
}

/// Sets whether the window follows round starts and ends, and hands back the
/// settings to save.
pub fn set_auto_switch_tab(state: &mut AppState, enabled: bool) -> (r: AppSettings)
    ensures
        final(state).data == old(state).data,
        final(state)@ == (StateView {
            settings: SettingsView { auto_switch_tab: enabled, ..old(state)@.settings },
            ..old(state)@
        }),
        r@ == final(state)@.settings,
{
    state.settings.auto_switch_tab = enabled;
    state.settings.clone()
}

/// What switching the overlay on or off sets in motion.
#[derive(Debug, Clone, PartialEq, Eq)]
pub enum OverlaySwitch {
    /// Start the overlay, then send it the command, if there is one.
    Start { first_command: Option<VrCommand> },
    Stop,
}

/// `switch` is what follows from switching the overlay on or off during
/// `round`: switched on, it is started and told the killers of a round in
/// progress that has any; switched off, it is stopped.
pub open spec fn switch_for<L: Fn(u32, &str) -> TerrorData>(
    lookup: &L,
    enabled: bool,
    round: RoundView,
    switch: OverlaySwitch,
) -> bool {
    match switch {
        OverlaySwitch::Start { first_command } => enabled && (match first_command {
            Some(command) => round.is_active && round.killers.len() > 0 && is_update_for(
                lookup,
                round,
                command@,
            ),
            None => !(round.is_active && round.killers.len() > 0),
        }),
        OverlaySwitch::Stop => !enabled,
    }
}

/// Switches the overlay on or off in the settings, and says what to save and
/// what to do with the overlay.
pub fn set_vr_overlay_enabled<L: Fn(u32, &str) -> TerrorData>(
    state: &mut AppState,
    enabled: bool,
    lookup: &L,
) -> (r: (AppSettings, OverlaySwitch))
    requires
        forall|id: u32, rt: &str| call_requires(*lookup, (id, rt)),
    ensures
        final(state).data == old(state).data,
        final(state)@ == (StateView {
            settings: SettingsView { vr_overlay_enabled: enabled, ..old(state)@.settings },
            ..old(state)@
        }),
        r.0@ == final(state)@.settings,
        switch_for(lookup, enabled, old(state)@.current_round, r.1),
{
    state.settings.vr_overlay_enabled = enabled;
    let settings = state.settings.clone();
    let switch = if enabled {
        if state.current_round.is_active && state.current_round.killers.len() > 0 {
            OverlaySwitch::Start {
                first_command: Some(update_terrors(&state.current_round, lookup)),
            }
        } else {
            OverlaySwitch::Start { first_command: None }
        }
    } else {
        OverlaySwitch::Stop
    };
    (settings, switch)
}

/// Sets the overlay's position by its name, and says what to save and what
/// to tell the overlay: the new position, where the overlay is switched on.
pub fn set_vr_overlay_position(state: &mut AppState, position: &str) -> (r: (
    AppSettings,
    Option<VrCommand>,
))
    ensures
        final(state).data == old(state).data,
        final(state)@ == (StateView {
            settings: SettingsView {
                vr_overlay_position: named_position(position@),
                ..old(state)@.settings
            },
            ..old(state)@
        }),
        r.0@ == final(state)@.settings,
        match r.1 {
            Some(command) => old(state)@.settings.vr_overlay_enabled && command@
                == (VrCommandView::SetPosition { position: named_position(position@) }),
            None => !old(state)@.settings.vr_overlay_enabled,
        },
{
    let parsed = parse_position(position);
    state.settings.vr_overlay_position = parsed;
    let settings = state.settings.clone();
    let command = if state.settings.vr_overlay_enabled {
        Some(VrCommand::SetPosition { position: parsed })
    } else {
        None
    };
    (settings, command)
}

} // verus!

//! The data that the tracker keeps: settings, the code history, the round in
//! progress, and what a line changed.

use crate::stats::{RoundStats, StatsView};
use crate::text::{clone_opt, clone_strings, opt_view, views};
use vstd::prelude::*;

verus! {

/// How many save codes the history keeps.
pub const MAX_HISTORY: usize = 10;

/// The text that marks a line naming the game world.
pub const WORLD_ID: &'static str = "wrld_a61cdabe-1218-4287-9ffc-2a4d1414e5bd";

/// Where the overlay is anchored in the headset.
#[derive(Debug, Clone, Copy, PartialEq, Eq, Structural)]
pub enum VrOverlayPosition {
    RightHand,
    LeftHand,
    Above,
}

impl Default for VrOverlayPosition {
    fn default() -> (r: VrOverlayPosition)
        ensures
            r == VrOverlayPosition::RightHand,
    {
        VrOverlayPosition::RightHand
    }
}

/// What the user has chosen.
#[derive(Debug, PartialEq, Eq)]
pub struct AppSettings {
    pub log_dir: Option<String>,
    pub auto_switch_tab: bool,
    pub vr_overlay_enabled: bool,
    pub vr_overlay_position: VrOverlayPosition,
}

pub struct SettingsView {
    pub log_dir: Option<Seq<char>>,
    pub auto_switch_tab: bool,
    pub vr_overlay_enabled: bool,
    pub vr_overlay_position: VrOverlayPosition,
}

impl View for AppSettings {
    type V = SettingsView;

    open spec fn view(&self) -> SettingsView {
        SettingsView {
            log_dir: opt_view(self.log_dir),
            auto_switch_tab: self.auto_switch_tab,
            vr_overlay_enabled: self.vr_overlay_enabled,
            vr_overlay_position: self.vr_overlay_position,
        }
    }
}

impl Default for AppSettings {
    fn default() -> (r: AppSettings)
        ensures
            r@ == (SettingsView {
                log_dir: None,
                auto_switch_tab: false,
                vr_overlay_enabled: false,
                vr_overlay_position: VrOverlayPosition::RightHand,
            }),
    {
        AppSettings {
            log_dir: None,
            auto_switch_tab: false,
            vr_overlay_enabled: false,
            vr_overlay_position: VrOverlayPosition::RightHand,
        }
    }
}

impl Clone for AppSettings {
    fn clone(&self) -> (r: AppSettings)
        ensures
            r@ == self@,
    {
        AppSettings {
            log_dir: clone_opt(&self.log_dir),
            auto_switch_tab: self.auto_switch_tab,
            vr_overlay_enabled: self.vr_overlay_enabled,
            vr_overlay_position: self.vr_overlay_position,
        }
    }
}

/// The view of an optional list of strings.
pub open spec fn opt_views(o: Option<Vec<String>>) -> Option<Seq<Seq<char>>> {
    match o {
        Some(v) => Some(views(v@)),
        None => None,
    }
}

/// A save code as it was found, with the round it was found in.
#[derive(Debug, PartialEq, Eq)]
pub struct CodeEntry {
    pub code: String,
    pub timestamp: String,
    pub round_type: Option<String>,
    /// The names of the killers of the round, where there were any.
    pub terror_names: Option<Vec<String>>,
    /// The round type in English.
    pub round_type_english: Option<String>,
}

pub struct CodeEntryView {
    pub code: Seq<char>,
    pub timestamp: Seq<char>,
    pub round_type: Option<Seq<char>>,
    pub terror_names: Option<Seq<Seq<char>>>,
    pub round_type_english: Option<Seq<char>>,
}

impl View for CodeEntry {
    type V = CodeEntryView;

    open spec fn view(&self) -> CodeEntryView {
        CodeEntryView {
            code: self.code@,
            timestamp: self.timestamp@,
            round_type: opt_view(self.round_type),
            terror_names: opt_views(self.terror_names),
            round_type_english: opt_view(self.round_type_english),
        }
    }
}

impl Clone for CodeEntry {
    fn clone(&self) -> (r: CodeEntry)
        ensures
            r@ == self@,
    {
        CodeEntry {
            code: self.code.clone(),
            timestamp: self.timestamp.clone(),
            round_type: clone_opt(&self.round_type),
            terror_names: match &self.terror_names {
                Some(names) => Some(clone_strings(names)),
                None => None,
            },
            round_type_english: clone_opt(&self.round_type_english),
        }
    }
}

/// The views of a list of entries.
pub open spec fn entry_views(entries: Seq<CodeEntry>) -> Seq<CodeEntryView> {
    entries.map_values(|e: CodeEntry| e@)
}

/// A copy of a list of entries.
pub fn clone_entries(entries: &Vec<CodeEntry>) -> (r: Vec<CodeEntry>)
    ensures
        entry_views(r@) == entry_views(entries@),
{
    let mut out: Vec<CodeEntry> = Vec::new();
    let mut i: usize = 0;
    while i < entries.len()
        invariant
            i <= entries.len(),
            entry_views(out@) == entry_views(entries@).take(i as int),
        decreases entries.len() - i,
    {
        let ghost before = out@;
        out.push(entries[i].clone());
        proof {
            assert(entry_views(out@) =~= entry_views(before).push(entries@[i as int]@));
        }
        i += 1;
    }
    out
}

/// The round in progress.
#[derive(Debug, PartialEq, Eq)]
pub struct CurrentRoundInfo {
    pub is_active: bool,
    pub map_name: Option<String>,
    pub round_type: Option<String>,
    pub killers: Vec<u32>,
    pub is_dead: bool,
    pub save_code: Option<String>,
}

pub struct RoundView {
    pub is_active: bool,
    pub map_name: Option<Seq<char>>,
    pub round_type: Option<Seq<char>>,
    pub killers: Seq<u32>,
    pub is_dead: bool,
    pub save_code: Option<Seq<char>>,
}

/// No round in progress.
pub open spec fn idle_round() -> RoundView {
    RoundView {
        is_active: false,
        map_name: None,
        round_type: None,
        killers: Seq::empty(),
        is_dead: false,
        save_code: None,
    }
}

impl RoundView {
    /// At most three killers, none with id zero.
    pub open spec fn wf(self) -> bool {
        self.killers.len() <= 3 && forall|i: int|
            0 <= i < self.killers.len() ==> #[trigger] self.killers[i] != 0
    }
}

impl View for CurrentRoundInfo {
    type V = RoundView;

    open spec fn view(&self) -> RoundView {
        RoundView {
            is_active: self.is_active,
            map_name: opt_view(self.map_name),
            round_type: opt_view(self.round_type),
            killers: self.killers@,
            is_dead: self.is_dead,
            save_code: opt_view(self.save_code),
        }
    }
}

impl Default for CurrentRoundInfo {
    fn default() -> (r: CurrentRoundInfo)
        ensures
            r@ == idle_round(),
    {
        CurrentRoundInfo {
            is_active: false,
            map_name: None,
            round_type: None,
            killers: Vec::new(),
            is_dead: false,
            save_code: None,
        }
    }
}

impl Clone for CurrentRoundInfo {
    fn clone(&self) -> (r: CurrentRoundInfo)
        ensures
            r@ == self@,
    {
        let mut killers: Vec<u32> = Vec::new();
        let mut i: usize = 0;
        while i < self.killers.len()
            invariant
                i <= self.killers.len(),
                killers@ == self.killers@.take(i as int),
            decreases self.killers.len() - i,
        {
            killers.push(self.killers[i]);
            i += 1;
        }
        proof {
            assert(self.killers@.take(self.killers.len() as int) =~= self.killers@);
        }
        CurrentRoundInfo {
            is_active: self.is_active,
            map_name: clone_opt(&self.map_name),
            round_type: clone_opt(&self.round_type),
            killers,
            is_dead: self.is_dead,
            save_code: clone_opt(&self.save_code),
        }
    }
}

/// What is saved between runs: the code history and the statistics.
#[derive(Debug)]
pub struct AppData {
    pub history: Vec<CodeEntry>,
    pub stats: RoundStats,
}

pub struct DataView {
    pub history: Seq<CodeEntryView>,
    pub stats: StatsView,
}

impl View for AppData {
    type V = DataView;

    open spec fn view(&self) -> DataView {
        DataView { history: entry_views(self.history@), stats: self.stats@ }
    }
}

impl Default for AppData {
    fn default() -> (r: AppData)
        ensures
            r.stats.wf(),
            r@.history == Seq::<CodeEntryView>::empty(),
            r@.stats.total_rounds == 0,
            r@.stats.survivals == 0,
            r@.stats.deaths == 0,
            r@.stats.round_types == Map::<Seq<char>, crate::stats::RoundTypeStats>::empty(),
    {
        let r = AppData { history: Vec::new(), stats: RoundStats::new() };
        r
    }
}

impl Clone for AppData {
    fn clone(&self) -> (r: AppData)
        ensures
            r@ == self@,
            self.stats.wf() ==> r.stats.wf(),
    {
        AppData { history: clone_entries(&self.history), stats: self.stats.clone() }
    }
}

/// Everything the tracker holds while it runs.
#[derive(Debug)]
pub struct AppState {
    pub settings: AppSettings,
    pub data: AppData,
    /// The round type that the next round end or save code is credited to.
    pub current_round_type: Option<String>,
    pub current_round: CurrentRoundInfo,
    pub last_log_path: Option<String>,
    pub last_offset: u64,
    pub last_copied_code: Option<String>,
}

pub struct StateView {
    pub settings: SettingsView,
    pub history: Seq<CodeEntryView>,
    pub stats: StatsView,
    pub current_round_type: Option<Seq<char>>,
    pub current_round: RoundView,
    pub last_log_path: Option<Seq<char>>,
    pub last_offset: u64,
    pub last_copied_code: Option<Seq<char>>,
}

impl View for AppState {
    type V = StateView;

    open spec fn view(&self) -> StateView {
        StateView {
            settings: self.settings@,
            history: entry_views(self.data.history@),
            stats: self.data.stats@,
            current_round_type: opt_view(self.current_round_type),
            current_round: self.current_round@,
            last_log_path: opt_view(self.last_log_path),
            last_offset: self.last_offset,
            last_copied_code: opt_view(self.last_copied_code),
        }
    }
}

impl AppState {
    /// The statistics list no round type twice.
    pub open spec fn wf(&self) -> bool {
        self.data.stats.wf()
    }
}

impl Default for AppState {
    fn default() -> (r: AppState)
        ensures
            r.wf(),
            r@.settings == AppSettings::default_view(),
            r@.history == Seq::<CodeEntryView>::empty(),
            r@.stats.survivals == 0,
            r@.stats.deaths == 0,
            r@.stats.total_rounds == 0,
            r@.stats.round_types == Map::<Seq<char>, crate::stats::RoundTypeStats>::empty(),
            r@.current_round_type is None,
            r@.current_round == idle_round(),
            r@.last_log_path is None,
            r@.last_offset == 0,
            r@.last_copied_code is None,
    {
        AppState {
            settings: AppSettings::default(),
            data: AppData::default(),
            current_round_type: None,
            current_round: CurrentRoundInfo::default(),
            last_log_path: None,
            last_offset: 0,
            last_copied_code: None,
        }
    }
}

impl AppSettings {
    /// The settings of a first run.
    pub open spec fn default_view() -> SettingsView {
        SettingsView {
            log_dir: None,
            auto_switch_tab: false,
            vr_overlay_enabled: false,
            vr_overlay_position: VrOverlayPosition::RightHand,
        }
    }
}

/// What a line changed.
#[derive(Debug, Clone, Copy, PartialEq, Eq, Structural)]
pub enum LogEvent {
    NoChange,
    StateChanged,
    RoundStarted,
    RoundEnded,
}

} // verus!

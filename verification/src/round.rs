//! The round state machine: what each signal of a line does to the round in
//! progress, the statistics and the code history.

use crate::model::{
    entry_views, idle_round, AppState, CodeEntry, CodeEntryView, CurrentRoundInfo, LogEvent,
    RoundView, StateView, MAX_HISTORY,
};
use crate::patterns::{
    signals_of, KillersSet, KillersSetView, LineSignals, LineSignalsView, LogPatterns, RoundStart,
    RoundStartView, SaveCode, SaveCodeView,
};
use crate::terror::TerrorData;
use crate::text::{clone_opt, opt_view, views};
use vstd::prelude::*;

verus! {

/// The round type that a round end is credited to when none is known.
pub const UNKNOWN_ROUND_TYPE: &'static str = "Unknown";

/// The last `n` items of `s`, or all of `s` where it has no more than `n`.
pub open spec fn keep_last<A>(s: Seq<A>, n: nat) -> Seq<A> {
    if s.len() > n {
        s.skip(s.len() - n)
    } else {
        s
    }
}

/// The ids of a killers signal that are not zero, in order.
pub open spec fn present_killers(k: KillersSetView) -> Seq<u32> {
    let a = if k.first != 0 {
        seq![k.first]
    } else {
        Seq::empty()
    };
    let b = if k.second != 0 {
        a.push(k.second)
    } else {
        a
    };
    if k.third != 0 {
        b.push(k.third)
    } else {
        b
    }
}

/// A round starts: whatever round was in progress is overwritten, and the
/// round type is listed in the statistics.
pub open spec fn on_round_start(s: StateView, start: RoundStartView) -> StateView {
    StateView {
        current_round: RoundView {
            is_active: true,
            map_name: start.map_name,
            round_type: start.round_type,
            killers: Seq::empty(),
            is_dead: false,
            save_code: None,
        },
        current_round_type: start.round_type,
        stats: match start.round_type {
            Some(t) => s.stats.registered(t),
            None => s.stats,
        },
        ..s
    }
}

/// The killers are set. The round type of the line is taken only where the
/// round has none yet.
pub open spec fn on_killers(s: StateView, k: KillersSetView) -> StateView {
    let backfill = k.round_type is Some && s.current_round.round_type is None;
    StateView {
        current_round: RoundView {
            round_type: if backfill {
                k.round_type
            } else {
                s.current_round.round_type
            },
            killers: present_killers(k),
            ..s.current_round
        },
        current_round_type: if backfill {
            k.round_type
        } else {
            s.current_round_type
        },
        ..s
    }
}

/// The player is dead, or is not.
pub open spec fn on_life(s: StateView, dead: bool) -> StateView {
    StateView { current_round: RoundView { is_dead: dead, ..s.current_round }, ..s }
}

/// The round is void: nothing is counted.
pub open spec fn on_respawn(s: StateView) -> StateView {
    StateView { current_round: idle_round(), current_round_type: None, ..s }
}

/// The round type that a round end in state `s` is credited to.
pub open spec fn credited_type(s: StateView) -> Seq<char> {
    match s.current_round_type {
        Some(t) => t,
        None => UNKNOWN_ROUND_TYPE@,
    }
}

/// The round ends and is counted, as a death or as a survival.
pub open spec fn on_round_end(s: StateView) -> StateView {
    StateView {
        stats: if s.current_round.is_dead {
            s.stats.with_death(credited_type(s))
        } else {
            s.stats.with_survival(credited_type(s))
        },
        current_round: idle_round(),
        current_round_type: None,
        ..s
    }
}

/// The state after the round signals of a line that come before a round end,
/// taken in a fixed order: round start, killers, death, reborn, respawn.
pub open spec fn before_round_end(s: StateView, sig: LineSignalsView) -> StateView {
    let s1 = match sig.round_start {
        Some(start) => on_round_start(s, start),
        None => s,
    };
    let s2 = match sig.killers {
        Some(k) => on_killers(s1, k),
        None => s1,
    };
    let s3 = if sig.death {
        on_life(s2, true)
    } else {
        s2
    };
    let s4 = if sig.reborn {
        on_life(s3, false)
    } else {
        s3
    };
    if sig.respawn {
        on_respawn(s4)
    } else {
        s4
    }
}

/// The state after every round signal of a line: those of
/// `before_round_end`, then the round end.
pub open spec fn after_round_signals(s: StateView, sig: LineSignalsView) -> StateView {
    if sig.round_end {
        on_round_end(before_round_end(s, sig))
    } else {
        before_round_end(s, sig)
    }
}

/// What the round signals of a line report: the last of them in the order of
/// `after_round_signals`; a survival line reports a change and does nothing.
pub open spec fn round_event(sig: LineSignalsView) -> LogEvent {
    if sig.round_end || sig.respawn {
        LogEvent::RoundEnded
    } else if sig.survival || sig.reborn || sig.death || sig.killers is Some {
        LogEvent::StateChanged
    } else if sig.round_start is Some {
        LogEvent::RoundStarted
    } else {
        LogEvent::NoChange
    }
}

/// What a whole line reports: a save code alone is a change.
pub open spec fn line_event(sig: LineSignalsView) -> LogEvent {
    if round_event(sig) == LogEvent::NoChange && sig.code is Some {
        LogEvent::StateChanged
    } else {
        round_event(sig)
    }
}

/// The names and the English round type that a save code is stored with.
pub struct Enrichment {
    pub names: Seq<Seq<char>>,
    pub english: Option<Seq<char>>,
}

/// The history entry of a save code found in state `s`.
pub open spec fn entry_of(s: StateView, code: SaveCodeView, extra: Enrichment) -> CodeEntryView {
    CodeEntryView {
        code: code.code,
        timestamp: code.timestamp,
        round_type: s.current_round_type,
        terror_names: if s.current_round.is_active && extra.names.len() > 0 {
            Some(extra.names)
        } else {
            None
        },
        round_type_english: if s.current_round.is_active {
            extra.english
        } else {
            None
        },
    }
}

/// A save code is found: it is appended to the history, which then keeps its
/// newest entries, and a round in progress remembers it.
pub open spec fn on_code(s: StateView, code: SaveCodeView, extra: Enrichment) -> StateView {
    StateView {
        history: keep_last(s.history.push(entry_of(s, code, extra)), MAX_HISTORY as nat),
        current_round: RoundView {
            save_code: if s.current_round.is_active {
                Some(code.code)
            } else {
                s.current_round.save_code
            },
            ..s.current_round
        },
        ..s
    }
}

/// The state after a whole line: the round signals first, the save code last.
pub open spec fn after_line(s: StateView, sig: LineSignalsView, extra: Enrichment) -> StateView {
    let mid = after_round_signals(s, sig);
    match sig.code {
        Some(code) => on_code(mid, code, extra),
        None => mid,
    }
}


fn nonzero_ids(k: &KillersSet) -> (r: Vec<u32>)
    ensures
        r@ == present_killers(k@),
{
    let mut out: Vec<u32> = Vec::new();
    if k.first != 0 {
        out.push(k.first);
    }
    if k.second != 0 {
        out.push(k.second);
    }
    if k.third != 0 {
        out.push(k.third);
    }
    out
}

fn start_round(state: &mut AppState, start: &RoundStart)
    requires
        old(state).wf(),
    ensures
        final(state).wf(),
        final(state)@ == on_round_start(old(state)@, start@),
{
    state.current_round = CurrentRoundInfo {
        is_active: true,
        map_name: clone_opt(&start.map_name),
        round_type: clone_opt(&start.round_type),
        killers: Vec::new(),
        is_dead: false,
        save_code: None,
    };
    state.current_round_type = clone_opt(&start.round_type);
    match &start.round_type {
        Some(t) => {
            state.data.stats.register(t.as_str());
        },
        None => {},
    }
}

fn set_killers(state: &mut AppState, k: &KillersSet)
    ensures
        final(state).data == old(state).data,
        final(state)@ == on_killers(old(state)@, k@),
{
    if k.round_type.is_some() && state.current_round.round_type.is_none() {
        state.current_round.round_type = clone_opt(&k.round_type);
        state.current_round_type = clone_opt(&k.round_type);
    }
    state.current_round.killers = nonzero_ids(k);
}

fn end_round(state: &mut AppState)
    requires
        old(state).wf(),
        old(state)@.stats.fits(1),
    ensures
        final(state).wf(),
        final(state)@ == on_round_end(old(state)@),
{
    let credited = match &state.current_round_type {
        Some(t) => t.clone(),
        None => UNKNOWN_ROUND_TYPE.to_owned(),
    };
    state.current_round_type = None;
    if state.current_round.is_dead {
        state.data.stats.record_death(credited.as_str());
    } else {
        state.data.stats.record_survival(credited.as_str());
    }
    state.current_round = CurrentRoundInfo::default();
}

/// Applies the round signals of one line, in the order of
/// `after_round_signals`, and reports what changed.
pub fn apply_round_signals(signals: &LineSignals, state: &mut AppState) -> (event: LogEvent)
    requires
        old(state).wf(),
        signals@.round_end ==> old(state)@.stats.fits(1),
    ensures
        final(state).wf(),
        final(state)@ == after_round_signals(old(state)@, signals@),
        event == round_event(signals@),
{
    let mut event = LogEvent::NoChange;
    match &signals.round_start {
        Some(start) => {
            start_round(state, start);
            event = LogEvent::RoundStarted;
        },
        None => {},
    }
    match &signals.killers {
        Some(k) => {
            set_killers(state, k);
            event = LogEvent::StateChanged;
        },
        None => {},
    }
    if signals.death {
        state.current_round.is_dead = true;
        event = LogEvent::StateChanged;
    }
    if signals.reborn {
        state.current_round.is_dead = false;
        event = LogEvent::StateChanged;
    }
    if signals.survival {
        event = LogEvent::StateChanged;
    }
    if signals.respawn {
        state.current_round = CurrentRoundInfo::default();
        state.current_round_type = None;
        event = LogEvent::RoundEnded;
    }
    if signals.round_end {
        end_round(state);
        event = LogEvent::RoundEnded;
    }
    event
}


/// The round type that killers are looked up under when none is known.
pub const DEFAULT_ROUND_TYPE: &'static str = "Classic";

/// The round type that the killers of state `s` are looked up under.
pub open spec fn lookup_type(s: StateView) -> Seq<char> {
    match s.current_round_type {
        Some(t) => t,
        None => DEFAULT_ROUND_TYPE@,
    }
}

/// `name` is a name that `lookup` may give for the killer.
pub open spec fn name_given<L: Fn(u32, &str) -> TerrorData>(
    lookup: &L,
    id: u32,
    round_type: Seq<char>,
    name: Seq<char>,
) -> bool {
    exists|rt: &str, data: TerrorData|
        rt@ == round_type && #[trigger] call_ensures(*lookup, (id, rt), data) && data.name@ == name
}

/// `names` holds, in order, a name that `lookup` may give for each killer.
pub open spec fn names_given<L: Fn(u32, &str) -> TerrorData>(
    lookup: &L,
    killers: Seq<u32>,
    round_type: Seq<char>,
    names: Seq<Seq<char>>,
) -> bool {
    names.len() == killers.len() && forall|i: int|
        0 <= i < killers.len() ==> name_given(lookup, killers[i], round_type, #[trigger] names[i])
}

/// `english` is a label that `translate` may give for the round type.
pub open spec fn translation_given<T: Fn(&str) -> String>(
    translate: &T,
    round_type: Seq<char>,
    english: Seq<char>,
) -> bool {
    exists|rt: &str, out: String|
        rt@ == round_type && #[trigger] call_ensures(*translate, (rt,), out) && out@ == english
}

/// `extra` is what the two lookups may give for a save code found in state
/// `s`: a name for each killer of the round, and the English label of the
/// round type where one is known. Outside a round nothing is looked up.
pub open spec fn enrichment_given<L: Fn(u32, &str) -> TerrorData, T: Fn(&str) -> String>(
    lookup: &L,
    translate: &T,
    s: StateView,
    extra: Enrichment,
) -> bool {
    s.current_round.is_active ==> names_given(
        lookup,
        s.current_round.killers,
        lookup_type(s),
        extra.names,
    ) && match s.current_round_type {
        Some(t) => extra.english is Some && translation_given(translate, t, extra.english->0),
        None => extra.english is None,
    }
}

/// Both lookups accept every input.
pub open spec fn lookups_total<L: Fn(u32, &str) -> TerrorData, T: Fn(&str) -> String>(
    lookup: &L,
    translate: &T,
) -> bool {
    &&& forall|id: u32, rt: &str| call_requires(*lookup, (id, rt))
    &&& forall|rt: &str| call_requires(*translate, (rt,))
}

/// Asks `lookup` for the name of each killer.
pub fn killer_names<L: Fn(u32, &str) -> TerrorData>(
    killers: &Vec<u32>,
    round_type: &str,
    lookup: &L,
) -> (r: Vec<String>)
    requires
        forall|id: u32, rt: &str| call_requires(*lookup, (id, rt)),
    ensures
        names_given(lookup, killers@, round_type@, views(r@)),
{
    let mut out: Vec<String> = Vec::new();
    let mut i: usize = 0;
    while i < killers.len()
        invariant
            i <= killers.len(),
            forall|id: u32, rt: &str| call_requires(*lookup, (id, rt)),
            names_given(lookup, killers@.take(i as int), round_type@, views(out@)),
        decreases killers.len() - i,
    {
        let data = lookup(killers[i], round_type);
        let ghost before = out@;
        out.push(data.name);
        proof {
            let names = views(out@);
            assert(names =~= views(before).push(data.name@));
        }
        i += 1;
    }
    out
}

/// Appends a save code to the history, keeps the newest entries, and lets a
/// round in progress remember the code.
pub fn record_code(
    state: &mut AppState,
    code: &SaveCode,
    names: Vec<String>,
    english: Option<String>,
)
    ensures
        final(state).data.stats == old(state).data.stats,
        final(state)@ == on_code(
            old(state)@,
            code@,
            Enrichment { names: views(names@), english: opt_view(english) },
        ),
{
    let active = state.current_round.is_active;
    let entry = CodeEntry {
        code: code.code.clone(),
        timestamp: code.timestamp.clone(),
        round_type: clone_opt(&state.current_round_type),
        terror_names: if active && names.len() > 0 {
            Some(names)
        } else {
            None
        },
        round_type_english: if active {
            english
        } else {
            None
        },
    };
    if active {
        state.current_round.save_code = Some(code.code.clone());
    }
    let ghost extra = Enrichment { names: views(names@), english: opt_view(english) };
    let ghost pushed = old(state)@.history.push(entry_of(old(state)@, code@, extra));
    state.data.history.push(entry);
    while state.data.history.len() > MAX_HISTORY
        invariant
            state.data.history.len() <= pushed.len(),
            pushed.len() > MAX_HISTORY ==> state.data.history.len() >= MAX_HISTORY,
            pushed.len() <= MAX_HISTORY ==> state.data.history.len() == pushed.len(),
            entry_views(state.data.history@) == pushed.skip(
                pushed.len() - state.data.history.len(),
            ),
            state.data.stats == old(state).data.stats,
            state.settings == old(state).settings,
            state.current_round_type == old(state).current_round_type,
            state.last_log_path == old(state).last_log_path,
            state.last_offset == old(state).last_offset,
            state.last_copied_code == old(state).last_copied_code,
            state.current_round@ == on_code(old(state)@, code@, extra).current_round,
        decreases state.data.history.len(),
    {
        let ghost before = state.data.history@;
        state.data.history.remove(0);
        proof {
            assert(entry_views(state.data.history@) =~= entry_views(before).skip(1));
        }
    }
    proof {
        assert(entry_views(state.data.history@) =~= keep_last(pushed, MAX_HISTORY as nat));
    }
}


/// `after` is a state that one line with signals `sig` may lead to from
/// `before`: the round signals are applied, then the save code, if there is
/// one, is stored with what the lookups gave.
pub open spec fn line_step<L: Fn(u32, &str) -> TerrorData, T: Fn(&str) -> String>(
    lookup: &L,
    translate: &T,
    before: StateView,
    sig: LineSignalsView,
    after: StateView,
) -> bool {
    let mid = after_round_signals(before, sig);
    match sig.code {
        Some(code) => exists|extra: Enrichment| #[trigger]
            enrichment_given(lookup, translate, mid, extra) && after == on_code(mid, code, extra),
        None => after == mid,
    }
}

/// What a line does to the history. A line with a save code appends one
/// entry, which holds that code and the line's timestamp, and the history then
/// keeps its newest `MAX_HISTORY` entries in the order in which they were
/// appended; a line without a save code leaves the history as it is. Either
/// way a history of at most `MAX_HISTORY` entries stays one.
pub open spec fn history_step(
    before: Seq<CodeEntryView>,
    sig: LineSignalsView,
    after: Seq<CodeEntryView>,
) -> bool {
    &&& match sig.code {
        Some(code) => exists|entry: CodeEntryView|
            #![trigger keep_last(before.push(entry), MAX_HISTORY as nat)]
            entry.code == code.code && entry.timestamp == code.timestamp
                && after == keep_last(before.push(entry), MAX_HISTORY as nat),
        None => after == before,
    }
    &&& before.len() <= MAX_HISTORY ==> after.len() <= MAX_HISTORY
}

/// Applies every signal of one line to the state and reports what changed.
/// The save code comes last, so that it sees the round as the same line
/// leaves it.
pub fn apply_signals<L: Fn(u32, &str) -> TerrorData, T: Fn(&str) -> String>(
    signals: &LineSignals,
    state: &mut AppState,
    lookup: &L,
    translate: &T,
) -> (event: LogEvent)
    requires
        old(state).wf(),
        signals@.round_end ==> old(state)@.stats.fits(1),
        lookups_total(lookup, translate),
    ensures
        final(state).wf(),
        event == line_event(signals@),
        line_step(lookup, translate, old(state)@, signals@, final(state)@),
        history_step(old(state)@.history, signals@, final(state)@.history),
{
    let event = apply_round_signals(signals, state);
    match &signals.code {
        Some(code) => {
            let ghost mid = state@;
            let mut names: Vec<String> = Vec::new();
            let mut english: Option<String> = None;
            if state.current_round.is_active {
                match &state.current_round_type {
                    Some(t) => {
                        let rt: &str = t.as_str();
                        names = killer_names(&state.current_round.killers, rt, lookup);
                        let label = translate(rt);
                        english = Some(label);
                    },
                    None => {
                        names =
                        killer_names(&state.current_round.killers, DEFAULT_ROUND_TYPE, lookup);
                    },
                }
            }
            let ghost extra = Enrichment { names: views(names@), english: opt_view(english) };
            proof {
                assert(enrichment_given(lookup, translate, mid, extra));
            }
            record_code(state, code, names, english);
            if event == LogEvent::NoChange {
                LogEvent::StateChanged
            } else {
                event
            }
        },
        None => event,
    }
}

/// Reads one log line: finds its signals and applies them.
pub fn process_log_line<L: Fn(u32, &str) -> TerrorData, T: Fn(&str) -> String>(
    line: &str,
    patterns: &LogPatterns,
    state: &mut AppState,
    lookup: &L,
    translate: &T,
) -> (event: LogEvent)
    requires
        old(state).wf(),
        signals_of(line@).round_end ==> old(state)@.stats.fits(1),
        lookups_total(lookup, translate),
    ensures
        final(state).wf(),
        event == line_event(signals_of(line@)),
        line_step(lookup, translate, old(state)@, signals_of(line@), final(state)@),
        history_step(old(state)@.history, signals_of(line@), final(state)@.history),
{
    let signals = patterns.scan(line);
    apply_signals(&signals, state, lookup, translate)
}

/// Reads one log line where the counters have room for it, and otherwise
/// leaves the state as it is. Only a line with a round end needs room.
pub fn feed_line<L: Fn(u32, &str) -> TerrorData, T: Fn(&str) -> String>(
    line: &str,
    patterns: &LogPatterns,
    state: &mut AppState,
    lookup: &L,
    translate: &T,
) -> (r: Option<LogEvent>)
    requires
        old(state).wf(),
        lookups_total(lookup, translate),
    ensures
        final(state).wf(),
        r is Some <==> (signals_of(line@).round_end ==> old(state)@.stats.fits(1)),
        match r {
            Some(event) => event == line_event(signals_of(line@)) && line_step(
                lookup,
                translate,
                old(state)@,
                signals_of(line@),
                final(state)@,
            ) && history_step(old(state)@.history, signals_of(line@), final(state)@.history),
            None => *final(state) == *old(state),
        },
        old(state)@.history.len() <= MAX_HISTORY ==> final(state)@.history.len() <= MAX_HISTORY,
{
    if patterns.ends_round(line) && !state.data.stats.has_room_for(1) {
        None
    } else {
        Some(process_log_line(line, patterns, state, lookup, translate))
    }
}

} // verus!


//! The log monitor: which file to follow, where to read on, and what one
//! poll of new text does to the state.

use crate::model::{AppState, LogEvent, StateView};
use crate::notifier::{copied_after, copy_request, maybe_copy_latest_code};
use crate::overlay::{is_update_for, update_terrors, VrCommand, VrCommandView};
use crate::patterns::{signals_of, LineSignalsView, LogPatterns};
use crate::round::{line_event, line_step, lookups_total, process_log_line};
use crate::terror::TerrorData;
use crate::text::{clone_opt, lines_of, opt_view, split_lines, views};
use vstd::prelude::*;

verus! {

/// What one poll reports: whether anything changed, which round events
/// occurred anywhere in it, whether a round that had no killers came to have
/// some, and the codes to copy to the clipboard, in order.
#[derive(Debug, Clone, PartialEq, Eq)]
pub struct TickReport {
    pub state_changed: bool,
    pub round_started: bool,
    pub round_ended: bool,
    pub killers_changed: bool,
    pub copy_requests: Vec<String>,
}

/// A poll in progress: the state, what has been reported so far, and the
/// code that the last request asked for.
pub struct TickView {
    pub state: StateView,
    pub state_changed: bool,
    pub round_started: bool,
    pub round_ended: bool,
    pub killers_changed: bool,
    pub copy_requests: Seq<Seq<char>>,
    pub last_requested: Option<Seq<char>>,
}

/// A poll before its first line.
pub open spec fn tick_start(s: StateView) -> TickView {
    TickView {
        state: s,
        state_changed: false,
        round_started: false,
        round_ended: false,
        killers_changed: false,
        copy_requests: Seq::empty(),
        last_requested: s.last_copied_code,
    }
}

/// `after` is a poll that one more line may lead to from `before`. The line
/// is applied to the state; its event is added to the report; killers count
/// as changed when the round had none before the line and has some after it;
/// and the line's copy request, judged against the newest code once the line
/// is applied, is added unless the same code was asked for last.
pub open spec fn tick_step<L: Fn(u32, &str) -> TerrorData, T: Fn(&str) -> String>(
    lookup: &L,
    translate: &T,
    before: TickView,
    line: Seq<char>,
    after: TickView,
) -> bool {
    let sig = signals_of(line);
    let event = line_event(sig);
    let request = copy_request(line, after.state.history, before.last_requested);
    &&& line_step(lookup, translate, before.state, sig, after.state)
    &&& after.state_changed == (before.state_changed || event != LogEvent::NoChange)
    &&& after.round_started == (before.round_started || event == LogEvent::RoundStarted)
    &&& after.round_ended == (before.round_ended || event == LogEvent::RoundEnded)
    &&& after.killers_changed == (before.killers_changed || (
    before.state.current_round.killers.len() == 0 && after.state.current_round.killers.len() > 0))
    &&& after.copy_requests == (match request {
        Some(code) => before.copy_requests.push(code),
        None => before.copy_requests,
    })
    &&& after.last_requested == copied_after(line, after.state.history, before.last_requested)
}

/// `trace` holds the poll before the first line and after each line.
pub open spec fn tick_trace<L: Fn(u32, &str) -> TerrorData, T: Fn(&str) -> String>(
    lookup: &L,
    translate: &T,
    start: TickView,
    lines: Seq<Seq<char>>,
    trace: Seq<TickView>,
) -> bool {
    &&& trace.len() == lines.len() + 1
    &&& trace[0] == start
    &&& forall|i: int|
        0 <= i < lines.len() ==> tick_step(
            lookup,
            translate,
            trace[i],
            #[trigger] lines[i],
            trace[i + 1],
        )
}

/// `end` is a poll that the lines may lead to from `start`, taken in order.
pub open spec fn tick_run<L: Fn(u32, &str) -> TerrorData, T: Fn(&str) -> String>(
    lookup: &L,
    translate: &T,
    start: TickView,
    lines: Seq<Seq<char>>,
    end: TickView,
) -> bool {
    exists|trace: Seq<TickView>| #[trigger]
        tick_trace(lookup, translate, start, lines, trace) && trace.last() == end
}

/// How many of the lines carry a round end.
pub open spec fn round_ends(lines: Seq<Seq<char>>) -> nat
    decreases lines.len(),
{
    if lines.len() == 0 {
        0
    } else if signals_of(lines[0]).round_end {
        1 + round_ends(lines.drop_first())
    } else {
        round_ends(lines.drop_first())
    }
}

/// A line with a round end takes at most one unit of room from every
/// counter, and any other line takes none.
pub proof fn lemma_line_keeps_room<L: Fn(u32, &str) -> TerrorData, T: Fn(&str) -> String>(
    lookup: &L,
    translate: &T,
    before: StateView,
    sig: LineSignalsView,
    after: StateView,
    room: nat,
)
    requires
        line_step(lookup, translate, before, sig, after),
        before.stats.fits(
            if sig.round_end {
                room + 1
            } else {
                room
            },
        ),
    ensures
        after.stats.fits(room),
{
}

/// Feeds lines to the state machine and the notifier, in order.
pub fn process_lines<L: Fn(u32, &str) -> TerrorData, T: Fn(&str) -> String>(
    lines: &Vec<String>,
    patterns: &LogPatterns,
    state: &mut AppState,
    lookup: &L,
    translate: &T,
) -> (report: TickReport)
    requires
        old(state).wf(),
        old(state)@.stats.fits(round_ends(views(lines@))),
        lookups_total(lookup, translate),
    ensures
        final(state).wf(),
        exists|end: TickView| #[trigger]
            tick_run(lookup, translate, tick_start(old(state)@), views(lines@), end)
                && reports(end, final(state)@, report),
{
    let ghost all = views(lines@);
    let ghost start = tick_start(state@);
    let mut report = TickReport {
        state_changed: false,
        round_started: false,
        round_ended: false,
        killers_changed: false,
        copy_requests: Vec::new(),
    };
    let mut last_requested = clone_opt(&state.last_copied_code);
    let ghost mut tick = start;
    let ghost mut trace = seq![start];
    proof {
        assert(all.skip(0) =~= all);
    }
    let mut i: usize = 0;
    while i < lines.len()
        invariant
            i <= lines.len(),
            views(lines@) == all,
            state.wf(),
            state@.stats.fits(round_ends(all.skip(i as int))),
            lookups_total(lookup, translate),
            tick_trace(lookup, translate, start, all.take(i as int), trace),
            trace.last() == tick,
            tick.state == state@,
            tick.state_changed == report.state_changed,
            tick.round_started == report.round_started,
            tick.round_ended == report.round_ended,
            tick.killers_changed == report.killers_changed,
            tick.copy_requests == views(report.copy_requests@),
            tick.last_requested == opt_view(last_requested),
        decreases lines.len() - i,
    {
        let line: &str = lines[i].as_str();
        let ghost state_before = state@;
        let had_killers = state.current_round.killers.len() > 0;
        proof {
            assert(all.skip(i as int).drop_first() =~= all.skip(i + 1));
        }
        let event = process_log_line(line, patterns, state, lookup, translate);
        proof {
            lemma_line_keeps_room(
                lookup,
                translate,
                state_before,
                signals_of(line@),
                state@,
                round_ends(all.skip(i + 1)),
            );
        }
        if !had_killers && state.current_round.killers.len() > 0 {
            report.killers_changed = true;
        }
        match event {
            LogEvent::RoundStarted => {
                report.state_changed = true;
                report.round_started = true;
            },
            LogEvent::RoundEnded => {
                report.state_changed = true;
                report.round_ended = true;
            },
            LogEvent::StateChanged => {
                report.state_changed = true;
            },
            LogEvent::NoChange => {},
        }
        let ghost requests_before = report.copy_requests@;
        match maybe_copy_latest_code(line, &state.data.history, &last_requested) {
            Some(code) => {
                last_requested = Some(code.clone());
                report.copy_requests.push(code);
                proof {
                    assert(views(report.copy_requests@) =~= views(requests_before).push(code@));
                }
            },
            None => {},
        }
        proof {
            tick = TickView {
                state: state@,
                state_changed: report.state_changed,
                round_started: report.round_started,
                round_ended: report.round_ended,
                killers_changed: report.killers_changed,
                copy_requests: views(report.copy_requests@),
                last_requested: opt_view(last_requested),
            };
            let longer = trace.push(tick);
            trace = longer;
        }
        i += 1;
    }
    proof {
        assert(tick_run(lookup, translate, start, all, tick));
    }
    report
}

/// The poll `end` left the state `after` and is what `report` says.
pub open spec fn reports(end: TickView, after: StateView, report: TickReport) -> bool {
    &&& after == end.state
    &&& report.state_changed == end.state_changed
    &&& report.round_started == end.round_started
    &&& report.round_ended == end.round_ended
    &&& report.killers_changed == end.killers_changed
    &&& views(report.copy_requests@) == end.copy_requests
}

/// `report` and `after` are what a poll of `buffer` may leave of `before`:
/// the lines of the buffer are fed in order, and the read offset moves on by
/// the bytes of the buffer.
pub open spec fn polled<L: Fn(u32, &str) -> TerrorData, T: Fn(&str) -> String>(
    lookup: &L,
    translate: &T,
    before: StateView,
    buffer: &str,
    after: StateView,
    report: TickReport,
) -> bool {
    exists|end: TickView| #[trigger]
        tick_run(lookup, translate, tick_start(before), lines_of(buffer@), end) && reports(
            end,
            StateView { last_offset: before.last_offset, ..after },
            report,
        ) && after.last_offset == before.last_offset + buffer.len()
}

/// Feeds the lines of newly read text to the state machine and the
/// notifier, in order, and advances the read offset by the bytes read.
///
/// Text after the last line feed is processed as a line of its own: nothing
/// is held back for the next poll.
pub fn process_delta<L: Fn(u32, &str) -> TerrorData, T: Fn(&str) -> String>(
    buffer: &str,
    patterns: &LogPatterns,
    state: &mut AppState,
    lookup: &L,
    translate: &T,
) -> (report: TickReport)
    requires
        old(state).wf(),
        old(state)@.stats.fits(round_ends(lines_of(buffer@))),
        old(state).last_offset + buffer.len() <= u64::MAX,
        lookups_total(lookup, translate),
    ensures
        final(state).wf(),
        polled(lookup, translate, old(state)@, buffer, final(state)@, report),
{
    let lines = split_lines(buffer);
    let report = process_lines(&lines, patterns, state, lookup, translate);
    proof {
        let end = choose|end: TickView| #[trigger]
            tick_run(lookup, translate, tick_start(old(state)@), views(lines@), end) && reports(
                end,
                state@,
                report,
            );
        assert(end.state.last_offset == old(state).last_offset) by {
            lemma_poll_keeps_offset(lookup, translate, tick_start(old(state)@), views(lines@), end);
        }
    }
    state.last_offset = state.last_offset + buffer.len() as u64;
    report
}

/// No line moves the read offset.
pub proof fn lemma_poll_keeps_offset<L: Fn(u32, &str) -> TerrorData, T: Fn(&str) -> String>(
    lookup: &L,
    translate: &T,
    start: TickView,
    lines: Seq<Seq<char>>,
    end: TickView,
)
    requires
        tick_run(lookup, translate, start, lines, end),
    ensures
        end.state.last_offset == start.state.last_offset,
{
    let trace = choose|trace: Seq<TickView>| #[trigger]
        tick_trace(lookup, translate, start, lines, trace) && trace.last() == end;
    lemma_trace_keeps_offset(lookup, translate, start, lines, trace, lines.len() as int);
}

proof fn lemma_trace_keeps_offset<L: Fn(u32, &str) -> TerrorData, T: Fn(&str) -> String>(
    lookup: &L,
    translate: &T,
    start: TickView,
    lines: Seq<Seq<char>>,
    trace: Seq<TickView>,
    upto: int,
)
    requires
        tick_trace(lookup, translate, start, lines, trace),
        0 <= upto <= lines.len(),
    ensures
        trace[upto].state.last_offset == start.state.last_offset,
    decreases upto,
{
    if upto > 0 {
        lemma_trace_keeps_offset(lookup, translate, start, lines, trace, upto - 1);
        assert(tick_step(lookup, translate, trace[upto - 1], lines[upto - 1], trace[upto]));
    }
}

/// Polls `buffer` where the counters and the read offset have room for it,
/// and otherwise leaves the state as it is. The counters need room for one
/// count for each line with a round end; a buffer without a round end needs
/// none.
pub fn poll_delta<L: Fn(u32, &str) -> TerrorData, T: Fn(&str) -> String>(
    buffer: &str,
    patterns: &LogPatterns,
    state: &mut AppState,
    lookup: &L,
    translate: &T,
) -> (r: Option<TickReport>)
    requires
        old(state).wf(),
        lookups_total(lookup, translate),
    ensures
        final(state).wf(),
        r is Some <==> old(state)@.stats.fits(round_ends(lines_of(buffer@)))
            && old(state).last_offset + buffer.len() <= u64::MAX,
        match r {
            Some(report) => polled(lookup, translate, old(state)@, buffer, final(state)@, report),
            None => *final(state) == *old(state),
        },
{
    let lines = split_lines(buffer);
    if buffer.len() as u64 > u64::MAX - state.last_offset {
        return None;
    }
    let ghost all = views(lines@);
    let mut ends: usize = 0;
    let mut i: usize = lines.len();
    while i > 0
        invariant
            i <= lines.len(),
            views(lines@) == all,
            ends == round_ends(all.skip(i as int)),
            ends <= lines.len() - i,
        decreases i,
    {
        i -= 1;
        proof {
            assert(all.skip(i as int).drop_first() =~= all.skip(i + 1));
        }
        if patterns.ends_round(lines[i].as_str()) {
            ends += 1;
        }
    }
    proof {
        assert(all.skip(0) =~= all);
    }
    if ends > u32::MAX as usize {
        return None;
    }
    if !state.data.stats.has_room_for(ends as u32) {
        return None;
    }
    Some(process_delta(buffer, patterns, state, lookup, translate))
}

/// An entry of the log directory: its path, whether it is a regular file, and
/// when it was last modified, in nanoseconds since the epoch, where that is known.
#[derive(Debug, Clone, PartialEq, Eq)]
pub struct LogFileInfo {
    pub path: String,
    pub is_file: bool,
    pub modified: Option<u128>,
}

/// Some regular file of the directory has no known modification time.
pub open spec fn has_unreadable_file(entries: Seq<LogFileInfo>) -> bool {
    exists|i: int|
        0 <= i < entries.len() && (#[trigger] entries[i]).is_file && entries[i].modified is None
}

/// Entry `i` is the regular file modified last; of several modified at the
/// same time, the first in the directory's order.
pub open spec fn is_latest_file(entries: Seq<LogFileInfo>, i: int) -> bool {
    &&& 0 <= i < entries.len()
    &&& entries[i].is_file
    &&& entries[i].modified is Some
    &&& forall|j: int|
        0 <= j < entries.len() && (#[trigger] entries[j]).is_file && entries[j].modified is Some ==> (
        if j < i {
            entries[j].modified->0 < entries[i].modified->0
        } else {
            entries[j].modified->0 <= entries[i].modified->0
        })
}

/// Finds the log file to follow: the regular file of the directory that was
/// modified last. There is none where the directory holds no regular file, or
/// holds one whose modification time is not known.
pub fn find_latest_log_file(entries: &Vec<LogFileInfo>) -> (r: Option<String>)
    ensures
        match r {
            Some(path) => !has_unreadable_file(entries@) && exists|i: int|
                is_latest_file(entries@, i) && path@ == (#[trigger] entries@[i]).path@,
            None => has_unreadable_file(entries@) || forall|i: int|
                0 <= i < entries.len() ==> !(#[trigger] entries@[i]).is_file,
        },
{
    let mut best: Option<usize> = None;
    let mut i: usize = 0;
    while i < entries.len()
        invariant
            i <= entries.len(),
            forall|j: int|
                0 <= j < i && (#[trigger] entries@[j]).is_file ==> entries@[j].modified is Some,
            match best {
                Some(b) => b < i && is_latest_file(entries@.take(i as int), b as int),
                None => forall|j: int| 0 <= j < i ==> !(#[trigger] entries@[j]).is_file,
            },
        decreases entries.len() - i,
    {
        let entry = &entries[i];
        if entry.is_file {
            match entry.modified {
                None => {
                    return None;
                },
                Some(modified) => {
                    match best {
                        Some(b) => {
                            let held = match entries[b].modified {
                                Some(m) => m,
                                None => 0,
                            };
                            if modified > held {
                                best = Some(i);
                            }
                        },
                        None => {
                            best = Some(i);
                        },
                    }
                },
            }
        }
        i += 1;
    }
    proof {
        assert(entries@.take(entries.len() as int) =~= entries@);
    }
    match best {
        Some(b) => Some(entries[b].path.clone()),
        None => None,
    }
}

/// Whether `latest` is another file than the one followed so far.
pub fn needs_switch(state: &AppState, latest: &str) -> (r: bool)
    ensures
        r == (state@.last_log_path != Some(latest@)),
{
    match &state.last_log_path {
        Some(path) => *path != latest.to_owned(),
        None => true,
    }
}

/// Follows another file from its current end, so that what it already holds
/// is never read; from its start where its size is not known.
pub fn switch_log(state: &mut AppState, latest: String, size: Option<u64>)
    ensures
        final(state).data == old(state).data,
        final(state)@ == (StateView {
            last_log_path: Some(latest@),
            last_offset: match size {
                Some(n) => n,
                None => 0,
            },
            ..old(state)@
        }),
{
    state.last_log_path = Some(latest);
    state.last_offset = match size {
        Some(n) => n,
        None => 0,
    };
}

/// What follows a poll.
#[derive(Debug, Clone, PartialEq, Eq)]
pub struct TickActions {
    /// Save the data and publish a snapshot of the state.
    pub publish_state: bool,
    /// Announce that a round started.
    pub announce_round_started: bool,
    /// Announce that a round ended.
    pub announce_round_ended: bool,
    /// The commands to send to the overlay, in order.
    pub vr_commands: Vec<VrCommand>,
}

/// The views of a list of commands.
pub open spec fn command_views(v: Seq<VrCommand>) -> Seq<VrCommandView> {
    v.map_values(|c: VrCommand| c@)
}

/// `actions` is what follows a poll with this report that left state `s`.
/// Nothing follows a poll that changed nothing. Otherwise the state is saved
/// and published; round starts and ends are announced where the settings
/// ask for it; and where the overlay is switched on it is shown the killers,
/// if a round came to have killers during the poll and the round has some at
/// its end, and then cleared, if a round ended.
pub open spec fn follows_poll<L: Fn(u32, &str) -> TerrorData>(
    lookup: &L,
    report: TickReport,
    s: StateView,
    actions: TickActions,
) -> bool {
    let to_overlay = report.state_changed && s.settings.vr_overlay_enabled;
    let show = to_overlay && report.killers_changed && s.current_round.killers.len() > 0;
    let clear = to_overlay && report.round_ended;
    let commands = command_views(actions.vr_commands@);
    &&& actions.publish_state == report.state_changed
    &&& actions.announce_round_started == (report.state_changed && report.round_started
        && s.settings.auto_switch_tab)
    &&& actions.announce_round_ended == (report.state_changed && report.round_ended
        && s.settings.auto_switch_tab)
    &&& commands.len() == (if show {
        1nat
    } else {
        0nat
    }) + (if clear {
        1nat
    } else {
        0nat
    })
    &&& show ==> is_update_for(lookup, s.current_round, commands[0])
    &&& clear ==> commands.last() == VrCommandView::Clear
}

/// Decides what follows a poll.
pub fn plan_tick_actions<L: Fn(u32, &str) -> TerrorData>(
    report: &TickReport,
    state: &AppState,
    lookup: &L,
) -> (actions: TickActions)
    requires
        forall|id: u32, rt: &str| call_requires(*lookup, (id, rt)),
    ensures
        follows_poll(lookup, *report, state@, actions),
{
    let mut vr_commands: Vec<VrCommand> = Vec::new();
    if report.state_changed && state.settings.vr_overlay_enabled {
        if report.killers_changed && state.current_round.killers.len() > 0 {
            vr_commands.push(update_terrors(&state.current_round, lookup));
        }
        if report.round_ended {
            vr_commands.push(VrCommand::Clear);
        }
    }
    TickActions {
        publish_state: report.state_changed,
        announce_round_started: report.state_changed && report.round_started
            && state.settings.auto_switch_tab,
        announce_round_ended: report.state_changed && report.round_ended
            && state.settings.auto_switch_tab,
        vr_commands,
    }
}

} // verus!

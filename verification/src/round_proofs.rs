//! What holds of the round state machine over whole sequences of lines.

use crate::model::{idle_round, CodeEntryView, StateView, MAX_HISTORY};
use crate::patterns::LineSignalsView;
use crate::round::{
    after_line, after_round_signals, before_round_end, credited_type, enrichment_given, entry_of,
    keep_last, line_step, on_code, Enrichment,
};
use crate::stats::StatsView;
use crate::terror::TerrorData;
use vstd::prelude::*;

verus! {

/// One line as the state machine sees it: its signals, and what the lookups
/// gave for its save code.
pub struct LineInput {
    pub signals: LineSignalsView,
    pub extra: Enrichment,
}

/// The state after a sequence of lines, from the first to the last.
pub open spec fn run(s: StateView, lines: Seq<LineInput>) -> StateView
    decreases lines.len(),
{
    if lines.len() == 0 {
        s
    } else {
        after_line(run(s, lines.drop_last()), lines.last().signals, lines.last().extra)
    }
}

/// The history entries that a sequence of lines appends, in order.
pub open spec fn appended(s: StateView, lines: Seq<LineInput>) -> Seq<CodeEntryView>
    decreases lines.len(),
{
    if lines.len() == 0 {
        Seq::empty()
    } else {
        let earlier = appended(s, lines.drop_last());
        let last = lines.last();
        match last.signals.code {
            Some(code) => earlier.push(
                entry_of(
                    after_round_signals(run(s, lines.drop_last()), last.signals),
                    code,
                    last.extra,
                ),
            ),
            None => earlier,
        }
    }
}

/// Every state that a line can lead to is the state after that line for some
/// answer of the lookups.
pub proof fn lemma_step_is_after_line<L: Fn(u32, &str) -> TerrorData, T: Fn(&str) -> String>(
    lookup: &L,
    translate: &T,
    before: StateView,
    sig: LineSignalsView,
    after: StateView,
)
    requires
        line_step(lookup, translate, before, sig, after),
    ensures
        exists|extra: Enrichment| after == #[trigger] after_line(before, sig, extra),
{
    match sig.code {
        Some(code) => {
            let extra = choose|extra: Enrichment| #[trigger]
                enrichment_given(lookup, translate, after_round_signals(before, sig), extra)
                    && after == on_code(after_round_signals(before, sig), code, extra);
            assert(after == after_line(before, sig, extra));
        },
        None => {
            let extra = Enrichment { names: Seq::empty(), english: None };
            assert(after == after_line(before, sig, extra));
        },
    }
}

/// The history is a window on what was appended: once a line has appended a
/// save code, the history holds the newest entries, at most `MAX_HISTORY` of
/// them, in the order in which they were appended.
pub proof fn lemma_history_window(s: StateView, lines: Seq<LineInput>)
    ensures
        run(s, lines).history == (if appended(s, lines).len() == 0 {
            s.history
        } else {
            keep_last(s.history + appended(s, lines), MAX_HISTORY as nat)
        }),
        appended(s, lines).len() > 0 || s.history.len() <= MAX_HISTORY ==> run(
            s,
            lines,
        ).history.len() <= MAX_HISTORY,
    decreases lines.len(),
{
    if lines.len() > 0 {
        lemma_history_window(s, lines.drop_last());
    }
}

/// The round in progress never has more than three killers, and none with
/// id zero: a line keeps this so, whatever it carries.
pub proof fn lemma_killers_stay_valid(s: StateView, sig: LineSignalsView, extra: Enrichment)
    requires
        s.current_round.wf(),
    ensures
        after_line(s, sig, extra).current_round.wf(),
{
}

/// Two sets of counters count the same: the overall counters are equal, and
/// so are those of every round type, a type that is not listed counting as
/// zero.
pub open spec fn same_counters(a: StatsView, b: StatsView) -> bool {
    &&& a.total_rounds == b.total_rounds
    &&& a.survivals == b.survivals
    &&& a.deaths == b.deaths
    &&& forall|t: Seq<char>| #[trigger] a.tally(t) == b.tally(t)
}

/// The line starts no round of a type that `stats` does not list.
pub open spec fn starts_listed_type(stats: StatsView, sig: LineSignalsView) -> bool {
    match sig.round_start {
        Some(start) => match start.round_type {
            Some(t) => stats.round_types.contains_key(t),
            None => true,
        },
        None => true,
    }
}

/// No line starts a round of a type that `stats` does not list.
pub open spec fn all_start_listed_types(stats: StatsView, lines: Seq<LineInput>) -> bool {
    forall|i: int|
        0 <= i < lines.len() ==> starts_listed_type(stats, (#[trigger] lines[i]).signals)
}

proof fn lemma_uncounted_line(s: StateView, sig: LineSignalsView, extra: Enrichment)
    requires
        !sig.round_end,
    ensures
        same_counters(after_line(s, sig, extra).stats, s.stats),
        starts_listed_type(s.stats, sig) ==> after_line(s, sig, extra).stats == s.stats,
        after_line(s, sig, extra).stats.round_types.dom().subset_of(s.stats.round_types.dom())
            ==> after_line(s, sig, extra).stats == s.stats,
        s.stats.round_types.dom().subset_of(after_line(s, sig, extra).stats.round_types.dom()),
{
    let after = after_line(s, sig, extra).stats;
    if starts_listed_type(s.stats, sig) {
        assert(after.round_types =~= s.stats.round_types);
    }
}

/// Lines without a round end count nothing. Whatever else they carry (a round
/// start, a death, a respawn that voids the round), every counter is
/// afterwards what it was before; all they can do to the statistics is list a
/// new round type with zero counters. Where every round they start is of a
/// type already listed, the statistics are exactly what they were.
pub proof fn lemma_uncounted_lines(s: StateView, lines: Seq<LineInput>)
    requires
        forall|i: int| 0 <= i < lines.len() ==> !(#[trigger] lines[i]).signals.round_end,
    ensures
        same_counters(run(s, lines).stats, s.stats),
        s.stats.round_types.dom().subset_of(run(s, lines).stats.round_types.dom()),
        all_start_listed_types(s.stats, lines) ==> run(s, lines).stats == s.stats,
    decreases lines.len(),
{
    if lines.len() > 0 {
        let earlier = lines.drop_last();
        lemma_uncounted_lines(s, earlier);
        lemma_uncounted_line(run(s, earlier), lines.last().signals, lines.last().extra);
    }
}

/// A respawn voids the round: right after the round signals of a line that
/// carries one and no round end, no round is in progress, no round type is
/// tracked, and no counter has moved.
pub proof fn lemma_respawn_voids_round(s: StateView, sig: LineSignalsView)
    requires
        sig.respawn,
        !sig.round_end,
    ensures
        after_round_signals(s, sig).current_round == idle_round(),
        after_round_signals(s, sig).current_round_type is None,
        same_counters(after_round_signals(s, sig).stats, s.stats),
{
}

/// A respawn after a death, before any round end, counts nothing. Of lines
/// without a round end that hold a death and, later, a respawn: once the
/// line with the respawn is read, no round is in progress, no round type is
/// tracked, and every counter is what it was before the first line. The
/// statistics as a whole are what they were, unless one of the lines started
/// a round of a type that was not listed, which is then listed with zero
/// counters.
pub proof fn lemma_voided_round_counts_nothing(
    s: StateView,
    lines: Seq<LineInput>,
    death_at: int,
    respawn_at: int,
)
    requires
        0 <= death_at < respawn_at < lines.len(),
        lines[death_at].signals.death,
        lines[respawn_at].signals.respawn,
        forall|i: int| 0 <= i < lines.len() ==> !(#[trigger] lines[i]).signals.round_end,
    ensures
        ({
            let after = run(s, lines.take(respawn_at + 1));
            &&& after.current_round == idle_round()
            &&& after.current_round_type is None
            &&& same_counters(after.stats, s.stats)
            &&& all_start_listed_types(s.stats, lines) ==> after.stats == s.stats
        }),
{
    let read = lines.take(respawn_at + 1);
    lemma_uncounted_lines(s, read);
}

/// The line cancels no death: it carries no reborn, no respawn, no round
/// start and no round end.
pub open spec fn keeps_death(sig: LineSignalsView) -> bool {
    !sig.reborn && !sig.respawn && sig.round_start is None && !sig.round_end
}

proof fn lemma_stays_dead(s: StateView, lines: Seq<LineInput>)
    requires
        s.current_round.is_dead,
        forall|i: int| 0 <= i < lines.len() ==> keeps_death((#[trigger] lines[i]).signals),
    ensures
        run(s, lines).current_round.is_dead,
        run(s, lines).stats == s.stats,
    decreases lines.len(),
{
    if lines.len() > 0 {
        lemma_stays_dead(s, lines.drop_last());
    }
}

proof fn lemma_stays_alive(s: StateView, lines: Seq<LineInput>)
    requires
        !s.current_round.is_dead,
        forall|i: int|
            0 <= i < lines.len() ==> !(#[trigger] lines[i]).signals.death
                && !lines[i].signals.round_end,
    ensures
        !run(s, lines).current_round.is_dead,
    decreases lines.len(),
{
    if lines.len() > 0 {
        lemma_stays_alive(s, lines.drop_last());
    }
}

/// A round end that follows a death which nothing cancelled counts one death
/// and nothing else. After a line with a death, any lines that cancel no
/// death, and a line with the round end: the overall deaths and the deaths
/// of the credited round type are each one more than before, and every other
/// counter is what it was.
pub proof fn lemma_death_counts_once(
    s: StateView,
    death_line: LineInput,
    between: Seq<LineInput>,
    end_line: LineInput,
)
    requires
        s.stats.fits(1),
        death_line.signals.death,
        !death_line.signals.reborn && !death_line.signals.respawn && !death_line.signals.round_end,
        forall|i: int| 0 <= i < between.len() ==> keeps_death((#[trigger] between[i]).signals),
        end_line.signals.round_end,
        !end_line.signals.reborn && !end_line.signals.respawn,
        end_line.signals.round_start is None,
    ensures
        ({
            let before = run(s, seq![death_line] + between);
            let credited = credited_type(before_round_end(before, end_line.signals));
            let after = run(s, (seq![death_line] + between).push(end_line)).stats;
            &&& after == before.stats.with_death(credited)
            &&& same_counters(before.stats, s.stats)
            &&& after.deaths == s.stats.deaths + 1
            &&& after.survivals == s.stats.survivals
            &&& after.total_rounds == s.stats.total_rounds
            &&& after.tally(credited).deaths == s.stats.tally(credited).deaths + 1
            &&& after.tally(credited).survivals == s.stats.tally(credited).survivals
            &&& forall|t: Seq<char>| t != credited ==> #[trigger] after.tally(t) == s.stats.tally(t)
        }),
{
    let first = seq![death_line];
    let lines = first + between;
    assert(run(s, first.drop_last()) == s);
    lemma_run_append(s, first, between);
    lemma_stays_dead(run(s, first), between);
    assert(lines.push(end_line).drop_last() =~= lines);
}

/// Running two sequences one after the other is running their concatenation.
pub proof fn lemma_run_append(s: StateView, first: Seq<LineInput>, second: Seq<LineInput>)
    ensures
        run(s, first + second) == run(run(s, first), second),
    decreases second.len(),
{
    if second.len() > 0 {
        lemma_run_append(s, first, second.drop_last());
        assert((first + second).drop_last() =~= first + second.drop_last());
    }
}

/// A reborn cancels a death: a round end that follows it counts a survival.
/// After a line with a reborn, any lines with no death and no round end, and
/// a line with the round end and no death: the overall survivals and the
/// survivals of the credited round type are each one more than before, and
/// no death is counted.
pub proof fn lemma_reborn_counts_as_survival(
    s: StateView,
    reborn_line: LineInput,
    between: Seq<LineInput>,
    end_line: LineInput,
)
    requires
        s.stats.fits(1),
        reborn_line.signals.reborn,
        !reborn_line.signals.round_end,
        forall|i: int|
            0 <= i < between.len() ==> !(#[trigger] between[i]).signals.death
                && !between[i].signals.round_end,
        end_line.signals.round_end,
        !end_line.signals.death,
    ensures
        ({
            let before = run(s, seq![reborn_line] + between);
            let pre = before_round_end(before, end_line.signals);
            let credited = credited_type(pre);
            let after = run(s, (seq![reborn_line] + between).push(end_line)).stats;
            &&& after == pre.stats.with_survival(credited)
            &&& same_counters(pre.stats, s.stats)
            &&& after.survivals == s.stats.survivals + 1
            &&& after.deaths == s.stats.deaths
            &&& after.total_rounds == s.stats.total_rounds
            &&& after.tally(credited).survivals == s.stats.tally(credited).survivals + 1
            &&& after.tally(credited).deaths == s.stats.tally(credited).deaths
            &&& forall|t: Seq<char>| t != credited ==> #[trigger] after.tally(t) == s.stats.tally(t)
        }),
{
    let first = seq![reborn_line];
    let lines = first + between;
    lemma_run_append(s, first, between);
    lemma_stays_alive(run(s, first), between);
    lemma_uncounted_lines(s, lines);
    assert(lines.push(end_line).drop_last() =~= lines);
    let before = run(s, lines);
    let pre = before_round_end(before, end_line.signals);
    let quiet = LineSignalsView { round_end: false, code: None, ..end_line.signals };
    lemma_uncounted_line(before, quiet, end_line.extra);
    let after = run(s, lines.push(end_line)).stats;
    assert forall|t: Seq<char>| t != credited_type(pre) implies #[trigger] after.tally(t)
        == s.stats.tally(t) by {
        assert(pre.stats.tally(t) == s.stats.tally(t));
    }
}

} // verus!

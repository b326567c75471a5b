//! What holds of a whole poll: its states are those of the round state
//! machine run on its lines, and its copy requests are those of the notifier.

use crate::monitor::{tick_trace, TickView};
use crate::notifier::{copy_requests, last_copied_after, Sighting};
use crate::patterns::signals_of;
use crate::round::{after_line, Enrichment};
use crate::round_proofs::{lemma_step_is_after_line, run, LineInput};
use crate::terror::TerrorData;
use vstd::prelude::*;

verus! {

/// The lines of a poll as the state machine sees them: each with its
/// signals, and with an answer of the lookups that leads from the state
/// before the line to the state after it.
pub open spec fn inputs_of(lines: Seq<Seq<char>>, trace: Seq<TickView>) -> Seq<LineInput> {
    Seq::new(
        lines.len(),
        |i: int|
            LineInput {
                signals: signals_of(lines[i]),
                extra: choose|extra: Enrichment|
                    trace[i + 1].state == #[trigger] after_line(
                        trace[i].state,
                        signals_of(lines[i]),
                        extra,
                    ),
            },
    )
}

/// The lines of a poll as the notifier sees them: each with the history as
/// the line left it.
pub open spec fn sightings_of(lines: Seq<Seq<char>>, trace: Seq<TickView>) -> Seq<Sighting> {
    Seq::new(lines.len(), |i: int| Sighting { line: lines[i], history: trace[i + 1].state.history })
}

/// The state that a poll leaves is the state that the round state machine
/// reaches on the lines of the poll, so that what holds of every run of the
/// state machine holds of every poll.
pub proof fn lemma_poll_is_run<L: Fn(u32, &str) -> TerrorData, T: Fn(&str) -> String>(
    lookup: &L,
    translate: &T,
    start: TickView,
    lines: Seq<Seq<char>>,
    trace: Seq<TickView>,
)
    requires
        tick_trace(lookup, translate, start, lines, trace),
    ensures
        trace.last().state == run(start.state, inputs_of(lines, trace)),
        forall|i: int|
            0 <= i < lines.len() ==> (#[trigger] inputs_of(lines, trace)[i]).signals == signals_of(
                lines[i],
            ),
    decreases lines.len(),
{
    if lines.len() > 0 {
        let n = lines.len() as int;
        let short = lines.take(n - 1);
        let states = trace.take(n);
        lemma_poll_is_run(lookup, translate, start, short, states);
        assert(inputs_of(short, states) =~= inputs_of(lines, trace).drop_last());
        lemma_step_is_after_line(
            lookup,
            translate,
            trace[n - 1].state,
            signals_of(lines[n - 1]),
            trace[n].state,
        );
    }
}

/// The copy requests of a poll are those of the notifier on the lines of
/// the poll, each judged against the history as its line left it and against
/// the code that was asked for last.
pub proof fn lemma_poll_requests<L: Fn(u32, &str) -> TerrorData, T: Fn(&str) -> String>(
    lookup: &L,
    translate: &T,
    start: TickView,
    lines: Seq<Seq<char>>,
    trace: Seq<TickView>,
)
    requires
        tick_trace(lookup, translate, start, lines, trace),
    ensures
        trace.last().copy_requests == start.copy_requests + copy_requests(
            start.last_requested,
            sightings_of(lines, trace),
        ),
        trace.last().last_requested == last_copied_after(
            start.last_requested,
            sightings_of(lines, trace),
        ),
    decreases lines.len(),
{
    if lines.len() > 0 {
        let n = lines.len() as int;
        let short = lines.take(n - 1);
        let states = trace.take(n);
        lemma_poll_requests(lookup, translate, start, short, states);
        assert(sightings_of(short, states) =~= sightings_of(lines, trace).drop_last());
    }
}

} // verus!

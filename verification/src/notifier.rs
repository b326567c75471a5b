//! The clipboard notifier: which save code to copy, and when.

use crate::model::{AppState, CodeEntry, CodeEntryView, StateView, WORLD_ID};
use crate::text::{contains, has_substring, opt_view};
use vstd::prelude::*;

verus! {

/// The code that a line asks to copy: the newest code of the history, where
/// the line names the world and that code is not the one copied last.
pub open spec fn copy_request(
    line: Seq<char>,
    history: Seq<CodeEntryView>,
    last_copied: Option<Seq<char>>,
) -> Option<Seq<char>> {
    if has_substring(line, WORLD_ID@) && history.len() > 0 && last_copied != Some(
        history.last().code,
    ) {
        Some(history.last().code)
    } else {
        None
    }
}

/// The code copied last, once the request of a line has been served.
pub open spec fn copied_after(
    line: Seq<char>,
    history: Seq<CodeEntryView>,
    last_copied: Option<Seq<char>>,
) -> Option<Seq<char>> {
    match copy_request(line, history, last_copied) {
        Some(code) => Some(code),
        None => last_copied,
    }
}

/// Decides whether a line asks for the newest save code to be copied to the
/// clipboard. Nothing is copied or recorded here: the caller copies, and
/// records the code with `confirm_copy` once the clipboard has taken it.
pub fn maybe_copy_latest_code(
    line: &str,
    history: &Vec<CodeEntry>,
    last_copied: &Option<String>,
) -> (r: Option<String>)
    ensures
        opt_view(r) == copy_request(
            line@,
            crate::model::entry_views(history@),
            opt_view(*last_copied),
        ),
{
    if !contains(line, WORLD_ID) {
        return None;
    }
    if history.len() == 0 {
        return None;
    }
    let latest = &history[history.len() - 1].code;
    match last_copied {
        Some(code) => {
            if *code == *latest {
                return None;
            }
        },
        None => {},
    }
    Some(latest.clone())
}

/// Records that the clipboard now holds `code`.
pub fn confirm_copy(state: &mut AppState, code: String)
    ensures
        final(state).data == old(state).data,
        final(state)@ == (StateView { last_copied_code: Some(code@), ..old(state)@ }),
{
    state.last_copied_code = Some(code);
}

/// One line as the notifier sees it: its text, and the history once the line
/// has been processed.
pub struct Sighting {
    pub line: Seq<char>,
    pub history: Seq<CodeEntryView>,
}

/// The codes that a sequence of lines asks to copy, in order, where each
/// request is served before the next line is read.
pub open spec fn copy_requests(last_copied: Option<Seq<char>>, seen: Seq<Sighting>) -> Seq<
    Seq<char>,
>
    decreases seen.len(),
{
    if seen.len() == 0 {
        Seq::empty()
    } else {
        let earlier = copy_requests(last_copied, seen.drop_last());
        match copy_request(
            seen.last().line,
            seen.last().history,
            last_copied_after(last_copied, seen.drop_last()),
        ) {
            Some(code) => earlier.push(code),
            None => earlier,
        }
    }
}

/// The code copied last after a sequence of lines.
pub open spec fn last_copied_after(last_copied: Option<Seq<char>>, seen: Seq<Sighting>) -> Option<
    Seq<char>,
>
    decreases seen.len(),
{
    if seen.len() == 0 {
        last_copied
    } else {
        copied_after(
            seen.last().line,
            seen.last().history,
            last_copied_after(last_copied, seen.drop_last()),
        )
    }
}

/// A request names the newest code, and that code is not the one copied
/// last: nothing is copied again until the newest code changes.
pub proof fn lemma_request_is_new(
    line: Seq<char>,
    history: Seq<CodeEntryView>,
    last_copied: Option<Seq<char>>,
)
    ensures
        copy_request(line, history, last_copied) matches Some(code) ==> history.len() > 0 && code
            == history.last().code && last_copied != Some(code),
        copy_request(line, history, copied_after(line, history, last_copied)) is None,
{
}

/// Lines that name the world and all see the same newest code ask for it
/// once: on the first of them, unless it is the code copied last already.
pub proof fn lemma_copies_once(last_copied: Option<Seq<char>>, seen: Seq<Sighting>, code: Seq<char>)
    requires
        forall|i: int|
            0 <= i < seen.len() ==> has_substring((#[trigger] seen[i]).line, WORLD_ID@)
                && seen[i].history.len() > 0 && seen[i].history.last().code == code,
    ensures
        copy_requests(last_copied, seen) == (if seen.len() == 0 || last_copied == Some(code) {
            Seq::<Seq<char>>::empty()
        } else {
            seq![code]
        }),
        seen.len() > 0 ==> last_copied_after(last_copied, seen) == Some(code),
    decreases seen.len(),
{
    if seen.len() > 0 {
        let earlier = seen.drop_last();
        lemma_copies_once(last_copied, earlier, code);
    }
}

} // verus!

//! The eight patterns that pick signals out of a log line, and the signals of
//! one line as plain values.

use crate::matching::{
    capture_groups, groups_view, regex_captures, regex_compiles, regex_default, regex_is_match,
    regex_source,
};
use crate::text::{leading_timestamp, opt_view, parse_u32, parsed_u32, timestamp_of, trim, trimmed};
use regex::Regex;
use vstd::prelude::*;

verus! {

/// A save code between its two markers.
pub const CODE_PATTERN: &'static str = r"\[START\]([0-9_,]+)\[END\]";

/// The start of a round: the map, then the round type up to the end of the line.
pub const ROUND_START_PATTERN: &'static str =
    r"This round is taking place at (.+?) and the round type is (.+)$";

/// The three killer ids of a round, optionally followed by the round type.
pub const KILLERS_PATTERN: &'static str =
    r"Killers have been set - (\d+) (\d+) (\d+)(?: // Round type is (.+))?";

pub const DEATH_PATTERN: &'static str = r"You died\.";

pub const REBORN_PATTERN: &'static str = r"LOL JK, REBORN!";

pub const SURVIVAL_PATTERN: &'static str = r"Lived in round\.";

pub const RESPAWN_PATTERN: &'static str = r"Respawned\? Coward\.";

pub const ROUND_END_PATTERN: &'static str = r"Verified Round End";

/// One of the eight patterns.
#[derive(Debug, Clone, Copy, PartialEq, Eq, Structural)]
pub enum PatternKind {
    Code,
    RoundStart,
    Killers,
    Death,
    Reborn,
    Survival,
    Respawn,
    RoundEnd,
}

/// The pattern text of each kind.
pub open spec fn pattern_text(kind: PatternKind) -> Seq<char> {
    match kind {
        PatternKind::Code => CODE_PATTERN@,
        PatternKind::RoundStart => ROUND_START_PATTERN@,
        PatternKind::Killers => KILLERS_PATTERN@,
        PatternKind::Death => DEATH_PATTERN@,
        PatternKind::Reborn => REBORN_PATTERN@,
        PatternKind::Survival => SURVIVAL_PATTERN@,
        PatternKind::Respawn => RESPAWN_PATTERN@,
        PatternKind::RoundEnd => ROUND_END_PATTERN@,
    }
}

/// The place of each pattern in the order in which they are compiled.
pub open spec fn rank(kind: PatternKind) -> int {
    match kind {
        PatternKind::Code => 0,
        PatternKind::RoundStart => 1,
        PatternKind::Killers => 2,
        PatternKind::Death => 3,
        PatternKind::Reborn => 4,
        PatternKind::Survival => 5,
        PatternKind::Respawn => 6,
        PatternKind::RoundEnd => 7,
    }
}

/// A pattern that the engine refused to compile.
#[derive(Debug, Clone, Copy, PartialEq, Eq, Structural)]
pub struct PatternError {
    pub pattern: PatternKind,
}

/// The compiled patterns.
pub struct LogPatterns {
    code_re: Regex,
    round_start_re: Regex,
    killers_re: Regex,
    death_re: Regex,
    reborn_re: Regex,
    survival_re: Regex,
    respawn_re: Regex,
    round_end_re: Regex,
}

fn compile(kind: PatternKind, text: &str) -> (r: Result<Regex, PatternError>)
    ensures
        r is Ok <==> regex_compiles(text@),
        r matches Ok(re) ==> regex_source(&re) == text@ && regex_default(&re),
        r matches Err(e) ==> e.pattern == kind,
{
    match Regex::new(text) {
        Ok(re) => Ok(re),
        Err(_) => Err(PatternError { pattern: kind }),
    }
}

impl LogPatterns {
    #[verifier::type_invariant]
    spec fn built_from_texts(&self) -> bool {
        &&& regex_source(&self.code_re) == CODE_PATTERN@
        &&& regex_default(&self.code_re)
        &&& regex_source(&self.round_start_re) == ROUND_START_PATTERN@
        &&& regex_default(&self.round_start_re)
        &&& regex_source(&self.killers_re) == KILLERS_PATTERN@
        &&& regex_default(&self.killers_re)
        &&& regex_source(&self.death_re) == DEATH_PATTERN@
        &&& regex_default(&self.death_re)
        &&& regex_source(&self.reborn_re) == REBORN_PATTERN@
        &&& regex_default(&self.reborn_re)
        &&& regex_source(&self.survival_re) == SURVIVAL_PATTERN@
        &&& regex_default(&self.survival_re)
        &&& regex_source(&self.respawn_re) == RESPAWN_PATTERN@
        &&& regex_default(&self.respawn_re)
        &&& regex_source(&self.round_end_re) == ROUND_END_PATTERN@
        &&& regex_default(&self.round_end_re)
    }

    /// Compiles the eight patterns in the order of `PatternKind`. The error
    /// names the first one that the engine refuses.
    pub fn new() -> (r: Result<LogPatterns, PatternError>)
        ensures
            r is Ok <==> (forall|kind: PatternKind| regex_compiles(#[trigger] pattern_text(kind))),
            r matches Err(e) ==> !regex_compiles(pattern_text(e.pattern)),
            r matches Err(e) ==> forall|kind: PatternKind|
                rank(kind) < rank(e.pattern) ==> regex_compiles(#[trigger] pattern_text(kind)),
    {
        let code_re = match compile(PatternKind::Code, CODE_PATTERN) {
            Ok(re) => re,
            Err(e) => {
                proof {
                    assert(!regex_compiles(pattern_text(PatternKind::Code)));
                }
                return Err(e);
            },
        };
        let round_start_re = match compile(PatternKind::RoundStart, ROUND_START_PATTERN) {
            Ok(re) => re,
            Err(e) => {
                proof {
                    assert(!regex_compiles(pattern_text(PatternKind::RoundStart)));
                }
                return Err(e);
            },
        };
        let killers_re = match compile(PatternKind::Killers, KILLERS_PATTERN) {
            Ok(re) => re,
            Err(e) => {
                proof {
                    assert(!regex_compiles(pattern_text(PatternKind::Killers)));
                }
                return Err(e);
            },
        };
        let death_re = match compile(PatternKind::Death, DEATH_PATTERN) {
            Ok(re) => re,
            Err(e) => {
                proof {
                    assert(!regex_compiles(pattern_text(PatternKind::Death)));
                }
                return Err(e);
            },
        };
        let reborn_re = match compile(PatternKind::Reborn, REBORN_PATTERN) {
            Ok(re) => re,
            Err(e) => {
                proof {
                    assert(!regex_compiles(pattern_text(PatternKind::Reborn)));
                }
                return Err(e);
            },
        };
        let survival_re = match compile(PatternKind::Survival, SURVIVAL_PATTERN) {
            Ok(re) => re,
            Err(e) => {
                proof {
                    assert(!regex_compiles(pattern_text(PatternKind::Survival)));
                }
                return Err(e);
            },
        };
        let respawn_re = match compile(PatternKind::Respawn, RESPAWN_PATTERN) {
            Ok(re) => re,
            Err(e) => {
                proof {
                    assert(!regex_compiles(pattern_text(PatternKind::Respawn)));
                }
                return Err(e);
            },
        };
        let round_end_re = match compile(PatternKind::RoundEnd, ROUND_END_PATTERN) {
            Ok(re) => re,
            Err(e) => {
                proof {
                    assert(!regex_compiles(pattern_text(PatternKind::RoundEnd)));
                }
                return Err(e);
            },
        };
        Ok(
            LogPatterns {
                code_re,
                round_start_re,
                killers_re,
                death_re,
                reborn_re,
                survival_re,
                respawn_re,
                round_end_re,
            },
        )
    }
}


/// What a round-start line says.
#[derive(Debug, Clone, PartialEq, Eq)]
pub struct RoundStart {
    pub map_name: Option<String>,
    pub round_type: Option<String>,
}

pub struct RoundStartView {
    pub map_name: Option<Seq<char>>,
    pub round_type: Option<Seq<char>>,
}

impl View for RoundStart {
    type V = RoundStartView;

    open spec fn view(&self) -> RoundStartView {
        RoundStartView {
            map_name: opt_view(self.map_name),
            round_type: opt_view(self.round_type),
        }
    }
}

/// What a killers line says: three ids, zero where there is no killer or the
/// number is not a `u32`, and the round type if the line carries it.
#[derive(Debug, Clone, PartialEq, Eq)]
pub struct KillersSet {
    pub first: u32,
    pub second: u32,
    pub third: u32,
    pub round_type: Option<String>,
}

pub struct KillersSetView {
    pub first: u32,
    pub second: u32,
    pub third: u32,
    pub round_type: Option<Seq<char>>,
}

impl View for KillersSet {
    type V = KillersSetView;

    open spec fn view(&self) -> KillersSetView {
        KillersSetView {
            first: self.first,
            second: self.second,
            third: self.third,
            round_type: opt_view(self.round_type),
        }
    }
}

/// A save code and the timestamp of the line it stood on.
#[derive(Debug, Clone, PartialEq, Eq)]
pub struct SaveCode {
    pub code: String,
    pub timestamp: String,
}

pub struct SaveCodeView {
    pub code: Seq<char>,
    pub timestamp: Seq<char>,
}

impl View for SaveCode {
    type V = SaveCodeView;

    open spec fn view(&self) -> SaveCodeView {
        SaveCodeView { code: self.code@, timestamp: self.timestamp@ }
    }
}

/// Every signal that one line carries. A line may carry several.
#[derive(Debug, Clone, PartialEq, Eq)]
pub struct LineSignals {
    pub round_start: Option<RoundStart>,
    pub killers: Option<KillersSet>,
    pub death: bool,
    pub reborn: bool,
    pub survival: bool,
    pub respawn: bool,
    pub round_end: bool,
    pub code: Option<SaveCode>,
}

pub struct LineSignalsView {
    pub round_start: Option<RoundStartView>,
    pub killers: Option<KillersSetView>,
    pub death: bool,
    pub reborn: bool,
    pub survival: bool,
    pub respawn: bool,
    pub round_end: bool,
    pub code: Option<SaveCodeView>,
}

impl View for LineSignals {
    type V = LineSignalsView;

    open spec fn view(&self) -> LineSignalsView {
        LineSignalsView {
            round_start: match self.round_start {
                Some(s) => Some(s@),
                None => None,
            },
            killers: match self.killers {
                Some(k) => Some(k@),
                None => None,
            },
            death: self.death,
            reborn: self.reborn,
            survival: self.survival,
            respawn: self.respawn,
            round_end: self.round_end,
            code: match self.code {
                Some(c) => Some(c@),
                None => None,
            },
        }
    }
}

/// Capture group `i`, or `None` where the match has no such group.
pub open spec fn group(groups: Seq<Option<Seq<char>>>, i: int) -> Option<Seq<char>> {
    if 0 <= i < groups.len() {
        groups[i]
    } else {
        None
    }
}

/// Capture group `i` without surrounding whitespace.
pub open spec fn trimmed_group(groups: Seq<Option<Seq<char>>>, i: int) -> Option<Seq<char>> {
    match group(groups, i) {
        Some(s) => Some(trimmed(s)),
        None => None,
    }
}

/// Capture group `i` read as a killer id: zero where the group is missing or
/// is no `u32`.
pub open spec fn id_group(groups: Seq<Option<Seq<char>>>, i: int) -> u32 {
    match group(groups, i) {
        Some(s) => match parsed_u32(s) {
            Some(n) => n,
            None => 0,
        },
        None => 0,
    }
}

/// The round-start signal of a line.
pub open spec fn round_start_of(line: Seq<char>) -> Option<RoundStartView> {
    match regex_captures(ROUND_START_PATTERN@, line) {
        Some(groups) => Some(
            RoundStartView {
                map_name: trimmed_group(groups, 1),
                round_type: trimmed_group(groups, 2),
            },
        ),
        None => None,
    }
}

/// The killers signal of a line.
pub open spec fn killers_of(line: Seq<char>) -> Option<KillersSetView> {
    match regex_captures(KILLERS_PATTERN@, line) {
        Some(groups) => Some(
            KillersSetView {
                first: id_group(groups, 1),
                second: id_group(groups, 2),
                third: id_group(groups, 3),
                round_type: trimmed_group(groups, 4),
            },
        ),
        None => None,
    }
}

/// The save code of a line, with the line's timestamp.
pub open spec fn code_of(line: Seq<char>) -> Option<SaveCodeView> {
    match regex_captures(CODE_PATTERN@, line) {
        Some(groups) => match group(groups, 1) {
            Some(code) => Some(SaveCodeView { code, timestamp: timestamp_of(line) }),
            None => None,
        },
        None => None,
    }
}

/// Every signal of a line: each pattern is tried on its own.
pub open spec fn signals_of(line: Seq<char>) -> LineSignalsView {
    LineSignalsView {
        round_start: round_start_of(line),
        killers: killers_of(line),
        death: regex_is_match(DEATH_PATTERN@, line),
        reborn: regex_is_match(REBORN_PATTERN@, line),
        survival: regex_is_match(SURVIVAL_PATTERN@, line),
        respawn: regex_is_match(RESPAWN_PATTERN@, line),
        round_end: regex_is_match(ROUND_END_PATTERN@, line),
        code: code_of(line),
    }
}

fn take_trimmed(groups: &Vec<Option<String>>, i: usize) -> (r: Option<String>)
    ensures
        opt_view(r) == trimmed_group(groups_view(groups@), i as int),
{
    if i < groups.len() {
        match &groups[i] {
            Some(s) => Some(trim(s.as_str())),
            None => None,
        }
    } else {
        None
    }
}

fn take_id(groups: &Vec<Option<String>>, i: usize) -> (r: u32)
    ensures
        r == id_group(groups_view(groups@), i as int),
{
    if i < groups.len() {
        match &groups[i] {
            Some(s) => match parse_u32(s.as_str()) {
                Some(n) => n,
                None => 0,
            },
            None => 0,
        }
    } else {
        0
    }
}

impl LogPatterns {
    /// The text that a pattern was compiled from.
    pub fn source(&self, kind: PatternKind) -> (r: &str)
        ensures
            r@ == pattern_text(kind),
    {
        proof {
            use_type_invariant(self);
        }
        match kind {
            PatternKind::Code => self.code_re.as_str(),
            PatternKind::RoundStart => self.round_start_re.as_str(),
            PatternKind::Killers => self.killers_re.as_str(),
            PatternKind::Death => self.death_re.as_str(),
            PatternKind::Reborn => self.reborn_re.as_str(),
            PatternKind::Survival => self.survival_re.as_str(),
            PatternKind::Respawn => self.respawn_re.as_str(),
            PatternKind::RoundEnd => self.round_end_re.as_str(),
        }
    }

    /// Whether a line carries a round end.
    pub fn ends_round(&self, line: &str) -> (r: bool)
        ensures
            r == signals_of(line@).round_end,
    {
        proof {
            use_type_invariant(self);
        }
        self.round_end_re.is_match(line)
    }

    /// Tries every pattern on one line.
    pub fn scan(&self, line: &str) -> (r: LineSignals)
        ensures
            r@ == signals_of(line@),
    {
        proof {
            use_type_invariant(self);
        }
        let round_start = match capture_groups(&self.round_start_re, line) {
            Some(groups) => Some(
                RoundStart {
                    map_name: take_trimmed(&groups, 1),
                    round_type: take_trimmed(&groups, 2),
                },
            ),
            None => None,
        };
        let killers = match capture_groups(&self.killers_re, line) {
            Some(groups) => Some(
                KillersSet {
                    first: take_id(&groups, 1),
                    second: take_id(&groups, 2),
                    third: take_id(&groups, 3),
                    round_type: take_trimmed(&groups, 4),
                },
            ),
            None => None,
        };
        let death = self.death_re.is_match(line);
        let reborn = self.reborn_re.is_match(line);
        let survival = self.survival_re.is_match(line);
        let respawn = self.respawn_re.is_match(line);
        let round_end = self.round_end_re.is_match(line);
        let code = match capture_groups(&self.code_re, line) {
            Some(mut groups) => {
                if groups.len() > 1 {
                    match groups.swap_remove(1) {
                        Some(code) => Some(SaveCode { code, timestamp: leading_timestamp(line) }),
                        None => None,
                    }
                } else {
                    None
                }
            },
            None => None,
        };
        LineSignals { round_start, killers, death, reborn, survival, respawn, round_end, code }
    }
}

} // verus!

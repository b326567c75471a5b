//! Survival and death counters, overall and per round type.

use crate::text::clone_strings;
use vstd::prelude::*;

verus! {

/// The counters of one round type.
#[derive(Debug, Clone, Copy, PartialEq, Eq, Structural)]
pub struct RoundTypeStats {
    pub survivals: u32,
    pub deaths: u32,
}

impl Default for RoundTypeStats {
    fn default() -> (r: RoundTypeStats)
        ensures
            r == (RoundTypeStats { survivals: 0, deaths: 0 }),
    {
        RoundTypeStats { survivals: 0, deaths: 0 }
    }
}

/// A round type with its counters.
#[derive(Debug, Clone, PartialEq, Eq)]
pub struct RoundTypeEntry {
    pub name: String,
    pub stats: RoundTypeStats,
}

/// The counters as numbers: the overall ones, and those of each round type
/// that has been seen.
pub struct StatsView {
    pub total_rounds: nat,
    pub survivals: nat,
    pub deaths: nat,
    pub round_types: Map<Seq<char>, RoundTypeStats>,
}

/// Both counters of a round type can grow by `extra` and still fit their type.
pub open spec fn has_room(tally: RoundTypeStats, extra: nat) -> bool {
    tally.survivals + extra <= u32::MAX && tally.deaths + extra <= u32::MAX
}

/// Counters that start at zero.
pub open spec fn no_rounds() -> RoundTypeStats {
    RoundTypeStats { survivals: 0, deaths: 0 }
}

impl StatsView {
    /// The counters of a round type; zero for one not seen yet.
    pub open spec fn tally(self, round_type: Seq<char>) -> RoundTypeStats {
        if self.round_types.contains_key(round_type) {
            self.round_types[round_type]
        } else {
            no_rounds()
        }
    }

    /// The round type is listed, with zero counters if it was not yet.
    pub open spec fn registered(self, round_type: Seq<char>) -> StatsView {
        StatsView {
            round_types: self.round_types.insert(round_type, self.tally(round_type)),
            ..self
        }
    }

    /// One more death, overall and for the round type.
    pub open spec fn with_death(self, round_type: Seq<char>) -> StatsView {
        let before = self.tally(round_type);
        StatsView {
            deaths: self.deaths + 1,
            round_types: self.round_types.insert(
                round_type,
                RoundTypeStats { deaths: (before.deaths + 1) as u32, ..before },
            ),
            ..self
        }
    }

    /// One more survival, overall and for the round type.
    pub open spec fn with_survival(self, round_type: Seq<char>) -> StatsView {
        let before = self.tally(round_type);
        StatsView {
            survivals: self.survivals + 1,
            round_types: self.round_types.insert(
                round_type,
                RoundTypeStats { survivals: (before.survivals + 1) as u32, ..before },
            ),
            ..self
        }
    }

    /// Every counter can grow by `extra` and still fit its type.
    pub open spec fn fits(self, extra: nat) -> bool {
        &&& self.survivals + extra <= u32::MAX
        &&& self.deaths + extra <= u32::MAX
        &&& forall|t: Seq<char>| #[trigger]
            self.round_types.contains_key(t) ==> has_room(self.round_types[t], extra)
    }
}

/// The index of `key` among `names`, where it occurs.
pub closed spec fn position(names: Seq<String>, key: Seq<char>) -> int {
    choose|i: int| 0 <= i < names.len() && names[i]@ == key
}

/// Whether `key` occurs among `names`.
pub closed spec fn listed(names: Seq<String>, key: Seq<char>) -> bool {
    exists|i: int| 0 <= i < names.len() && names[i]@ == key
}

/// `entries` lists `table`: every entry is a round type of the table with
/// its counters, no round type is listed twice, and none is left out.
pub open spec fn lists_table(
    entries: Seq<RoundTypeEntry>,
    table: Map<Seq<char>, RoundTypeStats>,
) -> bool {
    &&& forall|i: int|
        0 <= i < entries.len() ==> table.contains_pair(
            (#[trigger] entries[i]).name@,
            entries[i].stats,
        )
    &&& forall|i: int, j: int| 0 <= i < j < entries.len() ==> entries[i].name@ != entries[j].name@
    &&& forall|t: Seq<char>| #[trigger]
        table.contains_key(t) ==> exists|i: int|
            0 <= i < entries.len() && (#[trigger] entries[i]).name@ == t
}

/// The counters by round type that a list of entries stands for. Of two
/// entries for one round type the later counts.
pub open spec fn entries_table(entries: Seq<RoundTypeEntry>) -> Map<Seq<char>, RoundTypeStats>
    decreases entries.len(),
{
    if entries.len() == 0 {
        Map::empty()
    } else {
        entries_table(entries.drop_last()).insert(entries.last().name@, entries.last().stats)
    }
}

proof fn lemma_entries_table_keys(entries: Seq<RoundTypeEntry>, key: Seq<char>)
    ensures
        entries_table(entries).contains_key(key) <==> exists|i: int|
            0 <= i < entries.len() && (#[trigger] entries[i]).name@ == key,
    decreases entries.len(),
{
    if entries.len() > 0 {
        let earlier = entries.drop_last();
        lemma_entries_table_keys(earlier, key);
        if exists|i: int| 0 <= i < entries.len() && (#[trigger] entries[i]).name@ == key {
            let i = choose|i: int| 0 <= i < entries.len() && (#[trigger] entries[i]).name@ == key;
            if i < earlier.len() {
                assert(earlier[i].name@ == key);
            }
        }
    }
}

proof fn lemma_entries_table_value(entries: Seq<RoundTypeEntry>, i: int)
    requires
        0 <= i < entries.len(),
        forall|a: int, b: int| 0 <= a < b < entries.len() ==> entries[a].name@ != entries[b].name@,
    ensures
        entries_table(entries).contains_pair(entries[i].name@, entries[i].stats),
    decreases entries.len(),
{
    let earlier = entries.drop_last();
    if i < entries.len() - 1 {
        lemma_entries_table_value(earlier, i);
    }
}

/// A table is given back by the list of its entries: listing statistics and
/// building them again from the list loses nothing.
pub proof fn lemma_listing_loses_nothing(
    entries: Seq<RoundTypeEntry>,
    table: Map<Seq<char>, RoundTypeStats>,
)
    requires
        lists_table(entries, table),
    ensures
        entries_table(entries) == table,
{
    assert forall|k: Seq<char>| entries_table(entries).contains_key(k) <==> table.contains_key(
        k,
    ) by {
        lemma_entries_table_keys(entries, k);
    }
    assert forall|k: Seq<char>| table.contains_key(k) implies entries_table(entries)[k]
        == table[k] by {
        let i = choose|i: int| 0 <= i < entries.len() && (#[trigger] entries[i]).name@ == k;
        lemma_entries_table_value(entries, i);
    }
}

/// No name occurs twice.
pub closed spec fn distinct(names: Seq<String>) -> bool {
    forall|i: int, j: int| 0 <= i < j < names.len() ==> names[i]@ != names[j]@
}

/// The counters by round type that two lists of equal length stand for.
pub closed spec fn table(names: Seq<String>, tallies: Seq<RoundTypeStats>) -> Map<
    Seq<char>,
    RoundTypeStats,
> {
    Map::new(|k: Seq<char>| listed(names, k), |k: Seq<char>| tallies[position(names, k)])
}

proof fn lemma_table_push(
    names: Seq<String>,
    tallies: Seq<RoundTypeStats>,
    name: String,
    tally: RoundTypeStats,
)
    requires
        distinct(names),
        names.len() == tallies.len(),
        !listed(names, name@),
    ensures
        distinct(names.push(name)),
        table(names.push(name), tallies.push(tally)) == table(names, tallies).insert(name@, tally),
{
    let names2 = names.push(name);
    assert forall|k: Seq<char>| #[trigger]
        listed(names2, k) <==> (listed(names, k) || k == name@) by {
        if listed(names, k) {
            assert(names2[position(names, k)]@ == k);
        }
        if k == name@ {
            assert(names2[names.len() as int]@ == k);
        }
    }
}

proof fn lemma_table_update(
    names: Seq<String>,
    tallies: Seq<RoundTypeStats>,
    i: int,
    tally: RoundTypeStats,
)
    requires
        distinct(names),
        names.len() == tallies.len(),
        0 <= i < names.len(),
    ensures
        table(names, tallies.update(i, tally)) == table(names, tallies).insert(names[i]@, tally),
{
}

/// The round statistics. No round type is listed twice.
#[derive(Debug)]
pub struct RoundStats {
    total_rounds: u32,
    survivals: u32,
    deaths: u32,
    names: Vec<String>,
    tallies: Vec<RoundTypeStats>,
}

impl View for RoundStats {
    type V = StatsView;

    closed spec fn view(&self) -> StatsView {
        StatsView {
            total_rounds: self.total_rounds as nat,
            survivals: self.survivals as nat,
            deaths: self.deaths as nat,
            round_types: table(self.names@, self.tallies@),
        }
    }
}

impl RoundStats {
    /// Each listed round type has its counters, and none is listed twice.
    pub closed spec fn wf(&self) -> bool {
        &&& self.names.len() == self.tallies.len()
        &&& distinct(self.names@)
    }

    /// Statistics with no round counted and no round type listed.
    pub fn new() -> (r: RoundStats)
        ensures
            r.wf(),
            r@.total_rounds == 0,
            r@.survivals == 0,
            r@.deaths == 0,
            r@.round_types == Map::<Seq<char>, RoundTypeStats>::empty(),
    {
        let r = RoundStats {
            total_rounds: 0,
            survivals: 0,
            deaths: 0,
            names: Vec::new(),
            tallies: Vec::new(),
        };
        r
    }

    pub fn total_rounds(&self) -> (r: u32)
        ensures
            r == self@.total_rounds,
    {
        self.total_rounds
    }

    pub fn survivals(&self) -> (r: u32)
        ensures
            r == self@.survivals,
    {
        self.survivals
    }

    pub fn deaths(&self) -> (r: u32)
        ensures
            r == self@.deaths,
    {
        self.deaths
    }

    fn find(&self, name: &str) -> (r: Option<usize>)
        requires
            self.wf(),
        ensures
            match r {
                Some(i) => i < self.names.len() && self.names@[i as int]@ == name@ && listed(
                    self.names@,
                    name@,
                ) && position(self.names@, name@) == i,
                None => !listed(self.names@, name@),
            },
    {
        let key = name.to_owned();
        let mut i: usize = 0;
        while i < self.names.len()
            invariant
                i <= self.names.len(),
                key@ == name@,
                forall|k: int| 0 <= k < i ==> self.names@[k]@ != name@,
                distinct(self.names@),
            decreases self.names.len() - i,
        {
            if self.names[i] == key {
                return Some(i);
            }
            i += 1;
        }
        None
    }

    /// Lists a round type, with zero counters, unless it is listed already.
    pub fn register(&mut self, name: &str)
        requires
            old(self).wf(),
        ensures
            final(self).wf(),
            final(self)@ == old(self)@.registered(name@),
    {
        match self.find(name) {
            Some(i) => {
                proof {
                    assert(self@.round_types.insert(name@, self@.tally(name@))
                        =~= self@.round_types);
                }
            },
            None => {
                let owned = name.to_owned();
                proof {
                    lemma_table_push(self.names@, self.tallies@, owned, no_rounds());
                }
                self.names.push(owned);
                self.tallies.push(RoundTypeStats { survivals: 0, deaths: 0 });
            },
        }
    }

    /// Statistics with the given overall counters and no round type listed.
    pub fn with_totals(total_rounds: u32, survivals: u32, deaths: u32) -> (r: RoundStats)
        ensures
            r.wf(),
            r@.total_rounds == total_rounds,
            r@.survivals == survivals,
            r@.deaths == deaths,
            r@.round_types == Map::<Seq<char>, RoundTypeStats>::empty(),
    {
        let r = RoundStats {
            total_rounds,
            survivals,
            deaths,
            names: Vec::new(),
            tallies: Vec::new(),
        };
        r
    }

    /// Statistics with the given overall counters and the listed round types.
    pub fn from_entries(
        total_rounds: u32,
        survivals: u32,
        deaths: u32,
        entries: &Vec<RoundTypeEntry>,
    ) -> (r: RoundStats)
        ensures
            r.wf(),
            r@.total_rounds == total_rounds,
            r@.survivals == survivals,
            r@.deaths == deaths,
            r@.round_types == entries_table(entries@),
    {
        let mut stats = RoundStats::with_totals(total_rounds, survivals, deaths);
        let mut i: usize = 0;
        while i < entries.len()
            invariant
                i <= entries.len(),
                stats.wf(),
                stats@.total_rounds == total_rounds,
                stats@.survivals == survivals,
                stats@.deaths == deaths,
                stats@.round_types == entries_table(entries@.take(i as int)),
            decreases entries.len() - i,
        {
            stats.set(entries[i].name.as_str(), entries[i].stats);
            proof {
                assert(entries@.take(i + 1).drop_last() =~= entries@.take(i as int));
            }
            i += 1;
        }
        proof {
            assert(entries@.take(entries.len() as int) =~= entries@);
        }
        stats
    }

    /// Gives a round type these counters, whether it was listed or not.
    pub fn set(&mut self, name: &str, stats: RoundTypeStats)
        requires
            old(self).wf(),
        ensures
            final(self).wf(),
            final(self)@ == (StatsView {
                round_types: old(self)@.round_types.insert(name@, stats),
                ..old(self)@
            }),
    {
        match self.find(name) {
            Some(i) => {
                proof {
                    lemma_table_update(self.names@, self.tallies@, i as int, stats);
                }
                self.tallies.set(i, stats);
            },
            None => {
                let owned = name.to_owned();
                proof {
                    lemma_table_push(self.names@, self.tallies@, owned, stats);
                }
                self.names.push(owned);
                self.tallies.push(stats);
            },
        }
    }

    /// Counts one more death, overall and for the round type.
    pub fn record_death(&mut self, name: &str)
        requires
            old(self).wf(),
            old(self)@.fits(1),
        ensures
            final(self).wf(),
            final(self)@ == old(self)@.with_death(name@),
    {
        let before = match self.tally(name) {
            Some(t) => t,
            None => RoundTypeStats { survivals: 0, deaths: 0 },
        };
        self.deaths = self.deaths + 1;
        self.set(name, RoundTypeStats { deaths: before.deaths + 1, ..before });
    }

    /// Counts one more survival, overall and for the round type.
    pub fn record_survival(&mut self, name: &str)
        requires
            old(self).wf(),
            old(self)@.fits(1),
        ensures
            final(self).wf(),
            final(self)@ == old(self)@.with_survival(name@),
    {
        let before = match self.tally(name) {
            Some(t) => t,
            None => RoundTypeStats { survivals: 0, deaths: 0 },
        };
        self.survivals = self.survivals + 1;
        self.set(name, RoundTypeStats { survivals: before.survivals + 1, ..before });
    }

    /// Whether every counter can grow by `extra` and still fit its type.
    pub fn has_room_for(&self, extra: u32) -> (r: bool)
        requires
            self.wf(),
        ensures
            r == self@.fits(extra as nat),
    {
        let limit: u32 = u32::MAX - extra;
        if self.survivals > limit || self.deaths > limit {
            return false;
        }
        let mut i: usize = 0;
        while i < self.tallies.len()
            invariant
                i <= self.tallies.len(),
                self.wf(),
                limit == u32::MAX - extra,
                forall|k: int|
                    0 <= k < i ==> (#[trigger] self.tallies@[k]).survivals <= limit
                        && self.tallies@[k].deaths <= limit,
            decreases self.tallies.len() - i,
        {
            if self.tallies[i].survivals > limit || self.tallies[i].deaths > limit {
                proof {
                    assert(self@.round_types.contains_key(self.names@[i as int]@));
                }
                return false;
            }
            i += 1;
        }
        true
    }

    /// The listed round types with their counters, each once.
    pub fn round_types(&self) -> (r: Vec<RoundTypeEntry>)
        requires
            self.wf(),
        ensures
            lists_table(r@, self@.round_types),
    {
        let mut out: Vec<RoundTypeEntry> = Vec::new();
        let mut i: usize = 0;
        while i < self.names.len()
            invariant
                i <= self.names.len(),
                self.wf(),
                out.len() == i,
                forall|k: int|
                    0 <= k < i ==> (#[trigger] out@[k]).name@ == self.names@[k]@ && out@[k].stats
                        == self.tallies@[k],
            decreases self.names.len() - i,
        {
            out.push(RoundTypeEntry { name: self.names[i].clone(), stats: self.tallies[i] });
            i += 1;
        }
        proof {
            assert forall|t: Seq<char>| #[trigger] self@.round_types.contains_key(t) implies exists|
                k: int,
            |
                0 <= k < out.len() && (#[trigger] out@[k]).name@ == t by {
                assert(out@[position(self.names@, t)].name@ == t);
            }
        }
        out
    }

    /// The counters of a round type, if it is listed.
    pub fn tally(&self, name: &str) -> (r: Option<RoundTypeStats>)
        requires
            self.wf(),
        ensures
            r == (if self@.round_types.contains_key(name@) {
                Some(self@.round_types[name@])
            } else {
                None
            }),
    {
        match self.find(name) {
            Some(i) => Some(self.tallies[i]),
            None => None,
        }
    }
}

impl Clone for RoundStats {
    fn clone(&self) -> (r: RoundStats)
        ensures
            r@ == self@,
            self.wf() ==> r.wf(),
    {
        let names = clone_strings(&self.names);
        let mut tallies: Vec<RoundTypeStats> = Vec::new();
        let mut i: usize = 0;
        while i < self.tallies.len()
            invariant
                i <= self.tallies.len(),
                tallies@ == self.tallies@.take(i as int),
            decreases self.tallies.len() - i,
        {
            tallies.push(self.tallies[i]);
            i += 1;
        }
        proof {
            assert(self.tallies@.take(self.tallies.len() as int) =~= self.tallies@);
        }
        RoundStats {
            total_rounds: self.total_rounds,
            survivals: self.survivals,
            deaths: self.deaths,
            names,
            tallies,
        }
    }
}

} // verus!

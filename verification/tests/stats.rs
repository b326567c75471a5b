use tsst::{RoundStats, RoundTypeEntry, RoundTypeStats};

#[test]
fn new_statistics_are_empty() {
    let stats = RoundStats::new();
    assert_eq!(stats.total_rounds(), 0);
    assert_eq!(stats.survivals(), 0);
    assert_eq!(stats.deaths(), 0);
    assert!(stats.round_types().is_empty());
    assert_eq!(stats.tally("Classic"), None);
    assert_eq!(RoundTypeStats::default(), RoundTypeStats { survivals: 0, deaths: 0 });
}

#[test]
fn registering_twice_lists_once() {
    let mut stats = RoundStats::new();
    stats.register("Fog");
    stats.record_death("Fog");
    stats.register("Fog");
    assert_eq!(
        stats.round_types(),
        vec![RoundTypeEntry { name: "Fog".to_string(), stats: RoundTypeStats { survivals: 0, deaths: 1 } }]
    );
}

#[test]
fn deaths_and_survivals_count_overall_and_per_type() {
    let mut stats = RoundStats::new();
    stats.record_death("Classic");
    stats.record_survival("Classic");
    stats.record_survival("Fog");
    stats.record_survival("Fog");
    assert_eq!(stats.deaths(), 1);
    assert_eq!(stats.survivals(), 3);
    assert_eq!(stats.total_rounds(), 0);
    assert_eq!(stats.tally("Classic"), Some(RoundTypeStats { survivals: 1, deaths: 1 }));
    assert_eq!(stats.tally("Fog"), Some(RoundTypeStats { survivals: 2, deaths: 0 }));
    assert_eq!(stats.tally("fog"), None);
}

#[test]
fn set_overwrites_or_lists() {
    let mut stats = RoundStats::with_totals(9, 5, 4);
    assert_eq!((stats.total_rounds(), stats.survivals(), stats.deaths()), (9, 5, 4));
    stats.set("A", RoundTypeStats { survivals: 1, deaths: 2 });
    stats.set("B", RoundTypeStats { survivals: 3, deaths: 4 });
    stats.set("A", RoundTypeStats { survivals: 7, deaths: 8 });
    assert_eq!(stats.tally("A"), Some(RoundTypeStats { survivals: 7, deaths: 8 }));
    assert_eq!(stats.tally("B"), Some(RoundTypeStats { survivals: 3, deaths: 4 }));
    assert_eq!(stats.round_types().len(), 2);
    assert_eq!((stats.total_rounds(), stats.survivals(), stats.deaths()), (9, 5, 4));
}

#[test]
fn room_is_judged_on_every_counter() {
    let mut stats = RoundStats::with_totals(0, u32::MAX - 2, 0);
    assert!(stats.has_room_for(2));
    assert!(!stats.has_room_for(3));
    assert!(stats.has_room_for(0));
    stats.set("A", RoundTypeStats { survivals: 0, deaths: u32::MAX - 1 });
    assert!(stats.has_room_for(1));
    assert!(!stats.has_room_for(2));
    let full = RoundStats::with_totals(u32::MAX, 0, 0);
    assert!(full.has_room_for(u32::MAX));
}

#[test]
fn a_clone_counts_the_same() {
    let mut stats = RoundStats::with_totals(1, 2, 3);
    stats.set("A", RoundTypeStats { survivals: 1, deaths: 2 });
    let copy = stats.clone();
    stats.record_death("A");
    assert_eq!(copy.deaths(), 3);
    assert_eq!(copy.tally("A"), Some(RoundTypeStats { survivals: 1, deaths: 2 }));
    assert_eq!(stats.tally("A"), Some(RoundTypeStats { survivals: 1, deaths: 3 }));
}

#[test]
fn statistics_are_rebuilt_from_their_entries() {
    let mut stats = RoundStats::with_totals(7, 4, 3);
    stats.set("Classic", RoundTypeStats { survivals: 3, deaths: 1 });
    stats.set("Fog", RoundTypeStats { survivals: 1, deaths: 2 });
    stats.register("Run");
    let entries = stats.round_types();
    let rebuilt = RoundStats::from_entries(
        stats.total_rounds(),
        stats.survivals(),
        stats.deaths(),
        &entries,
    );
    assert_eq!(
        (rebuilt.total_rounds(), rebuilt.survivals(), rebuilt.deaths()),
        (7, 4, 3)
    );
    for name in ["Classic", "Fog", "Run", "Other"] {
        assert_eq!(rebuilt.tally(name), stats.tally(name));
    }
    assert_eq!(rebuilt.round_types().len(), 3);
}

#[test]
fn of_two_entries_for_one_round_type_the_later_counts() {
    let entries = vec![
        RoundTypeEntry { name: "A".to_string(), stats: RoundTypeStats { survivals: 1, deaths: 1 } },
        RoundTypeEntry { name: "B".to_string(), stats: RoundTypeStats { survivals: 2, deaths: 2 } },
        RoundTypeEntry { name: "A".to_string(), stats: RoundTypeStats { survivals: 3, deaths: 3 } },
    ];
    let stats = RoundStats::from_entries(0, 0, 0, &entries);
    assert_eq!(stats.tally("A"), Some(RoundTypeStats { survivals: 3, deaths: 3 }));
    assert_eq!(stats.tally("B"), Some(RoundTypeStats { survivals: 2, deaths: 2 }));
    assert_eq!(stats.round_types().len(), 2);
}

//! What is known of a killer, in the three shapes it travels in: as the
//! lookup hands it out, as an answer to a query, and as the overlay shows it.

use crate::text::opt_view;
use vstd::prelude::*;
use vstd::std_specs::convert::FromSpecImpl;

verus! {

/// One ability of a killer, as a label and its value.
pub struct AbilityView {
    pub label: Seq<char>,
    pub value: Seq<char>,
}

/// A killer: its name, its colour if it has one, and its abilities in order.
pub struct TerrorView {
    pub name: Seq<char>,
    pub color: Option<Seq<char>>,
    pub abilities: Seq<AbilityView>,
}

/// An ability as the lookup hands it out.
#[derive(Debug, Clone, PartialEq, Eq)]
pub struct TerrorAbility {
    pub label: String,
    pub value: String,
}

impl View for TerrorAbility {
    type V = AbilityView;

    open spec fn view(&self) -> AbilityView {
        AbilityView { label: self.label@, value: self.value@ }
    }
}

/// A killer as the lookup hands it out.
#[derive(Debug, Clone, PartialEq, Eq)]
pub struct TerrorData {
    pub name: String,
    pub color: Option<String>,
    pub abilities: Vec<TerrorAbility>,
}

impl View for TerrorData {
    type V = TerrorView;

    open spec fn view(&self) -> TerrorView {
        TerrorView {
            name: self.name@,
            color: opt_view(self.color),
            abilities: self.abilities@.map_values(|a: TerrorAbility| a@),
        }
    }
}

/// An ability in an answer to a query.
#[derive(Debug, Clone, PartialEq, Eq)]
pub struct TerrorAbilityResponse {
    pub label: String,
    pub value: String,
}

impl View for TerrorAbilityResponse {
    type V = AbilityView;

    open spec fn view(&self) -> AbilityView {
        AbilityView { label: self.label@, value: self.value@ }
    }
}

/// A killer in an answer to a query.
#[derive(Debug, Clone, PartialEq, Eq)]
pub struct TerrorDataResponse {
    pub name: String,
    pub color: Option<String>,
    pub abilities: Vec<TerrorAbilityResponse>,
}

impl View for TerrorDataResponse {
    type V = TerrorView;

    open spec fn view(&self) -> TerrorView {
        TerrorView {
            name: self.name@,
            color: opt_view(self.color),
            abilities: self.abilities@.map_values(|a: TerrorAbilityResponse| a@),
        }
    }
}

impl FromSpecImpl<TerrorData> for TerrorDataResponse {
    open spec fn obeys_from_spec() -> bool {
        false
    }

    open spec fn from_spec(data: TerrorData) -> TerrorDataResponse {
        choose|r: TerrorDataResponse| r@ == data@
    }
}

impl From<TerrorData> for TerrorDataResponse {
    /// The same killer, field by field.
    fn from(data: TerrorData) -> (r: TerrorDataResponse)
        ensures
            r@ == data@,
    {
        let mut abilities: Vec<TerrorAbilityResponse> = Vec::new();
        let mut i: usize = 0;
        while i < data.abilities.len()
            invariant
                i <= data.abilities.len(),
                abilities@.map_values(|a: TerrorAbilityResponse| a@) == data.abilities@.map_values(
                    |a: TerrorAbility| a@,
                ).take(i as int),
            decreases data.abilities.len() - i,
        {
            let ghost before = abilities@;
            let a = &data.abilities[i];
            abilities.push(
                TerrorAbilityResponse { label: a.label.clone(), value: a.value.clone() },
            );
            proof {
                let all = data.abilities@.map_values(|a: TerrorAbility| a@);
                assert(abilities@.map_values(|a: TerrorAbilityResponse| a@) =~= before.map_values(
                    |a: TerrorAbilityResponse| a@,
                ).push(all[i as int]));
            }
            i += 1;
        }
        proof {
            let all = data.abilities@.map_values(|a: TerrorAbility| a@);
            assert(all.take(data.abilities.len() as int) =~= all);
        }
        TerrorDataResponse { name: data.name, color: data.color, abilities }
    }
}


/// An ability as the overlay shows it.
#[derive(Debug, Clone, PartialEq, Eq)]
pub struct VrTerrorAbility {
    pub label: String,
    pub value: String,
}

impl View for VrTerrorAbility {
    type V = AbilityView;

    open spec fn view(&self) -> AbilityView {
        AbilityView { label: self.label@, value: self.value@ }
    }
}

/// A killer as the overlay shows it.
#[derive(Debug, Clone, PartialEq, Eq)]
pub struct VrTerrorInfo {
    pub name: String,
    pub color: Option<String>,
    pub abilities: Vec<VrTerrorAbility>,
}

impl View for VrTerrorInfo {
    type V = TerrorView;

    open spec fn view(&self) -> TerrorView {
        TerrorView {
            name: self.name@,
            color: opt_view(self.color),
            abilities: self.abilities@.map_values(|a: VrTerrorAbility| a@),
        }
    }
}

impl FromSpecImpl<TerrorData> for VrTerrorInfo {
    open spec fn obeys_from_spec() -> bool {
        false
    }

    open spec fn from_spec(data: TerrorData) -> VrTerrorInfo {
        choose|r: VrTerrorInfo| r@ == data@
    }
}

impl From<TerrorData> for VrTerrorInfo {
    /// The same killer, field by field.
    fn from(data: TerrorData) -> (r: VrTerrorInfo)
        ensures
            r@ == data@,
    {
        let mut abilities: Vec<VrTerrorAbility> = Vec::new();
        let mut i: usize = 0;
        while i < data.abilities.len()
            invariant
                i <= data.abilities.len(),
                abilities@.map_values(|a: VrTerrorAbility| a@) == data.abilities@.map_values(
                    |a: TerrorAbility| a@,
                ).take(i as int),
            decreases data.abilities.len() - i,
        {
            let ghost before = abilities@;
            let a = &data.abilities[i];
            abilities.push(VrTerrorAbility { label: a.label.clone(), value: a.value.clone() });
            proof {
                let all = data.abilities@.map_values(|a: TerrorAbility| a@);
                assert(abilities@.map_values(|a: VrTerrorAbility| a@) =~= before.map_values(
                    |a: VrTerrorAbility| a@,
                ).push(all[i as int]));
            }
            i += 1;
        }
        proof {
            let all = data.abilities@.map_values(|a: TerrorAbility| a@);
            assert(all.take(data.abilities.len() as int) =~= all);
        }
        VrTerrorInfo { name: data.name, color: data.color, abilities }
    }
}

/// `terror` is a killer that `lookup` may give for the id and round type.
pub open spec fn terror_given<L: Fn(u32, &str) -> TerrorData>(
    lookup: &L,
    id: u32,
    round_type: Seq<char>,
    terror: TerrorView,
) -> bool {
    exists|rt: &str, data: TerrorData|
        rt@ == round_type && #[trigger] call_ensures(*lookup, (id, rt), data) && data@ == terror
}

/// `terrors` holds, in order, a killer that `lookup` may give for each id.
pub open spec fn terrors_given<L: Fn(u32, &str) -> TerrorData>(
    lookup: &L,
    ids: Seq<u32>,
    round_type: Seq<char>,
    terrors: Seq<TerrorView>,
) -> bool {
    terrors.len() == ids.len() && forall|i: int|
        0 <= i < ids.len() ==> terror_given(lookup, ids[i], round_type, #[trigger] terrors[i])
}

/// Looks one killer up for a query.
pub fn get_terror_info<L: Fn(u32, &str) -> TerrorData>(id: u32, round_type: &str, lookup: &L) -> (r:
    TerrorDataResponse)
    requires
        call_requires(*lookup, (id, round_type)),
    ensures
        terror_given(lookup, id, round_type@, r@),
{
    let data = lookup(id, round_type);
    TerrorDataResponse::from(data)
}

/// The views of a list of answers.
pub open spec fn response_views(v: Seq<TerrorDataResponse>) -> Seq<TerrorView> {
    v.map_values(|r: TerrorDataResponse| r@)
}

/// Looks several killers up for a query, in order.
pub fn get_terrors_info<L: Fn(u32, &str) -> TerrorData>(
    killer_ids: &Vec<u32>,
    round_type: &str,
    lookup: &L,
) -> (r: Vec<TerrorDataResponse>)
    requires
        forall|id: u32, rt: &str| call_requires(*lookup, (id, rt)),
    ensures
        terrors_given(lookup, killer_ids@, round_type@, response_views(r@)),
{
    let mut out: Vec<TerrorDataResponse> = Vec::new();
    let mut i: usize = 0;
    while i < killer_ids.len()
        invariant
            i <= killer_ids.len(),
            forall|id: u32, rt: &str| call_requires(*lookup, (id, rt)),
            terrors_given(lookup, killer_ids@.take(i as int), round_type@, response_views(out@)),
        decreases killer_ids.len() - i,
    {
        let ghost before = out@;
        let answer = get_terror_info(killer_ids[i], round_type, lookup);
        out.push(answer);
        proof {
            let now = response_views(out@);
            assert(now =~= response_views(before).push(answer@));
        }
        i += 1;
    }
    out
}

/// The views of a list of killers for the overlay.
pub open spec fn info_views(v: Seq<VrTerrorInfo>) -> Seq<TerrorView> {
    v.map_values(|r: VrTerrorInfo| r@)
}

/// Looks several killers up for the overlay, in order.
pub fn overlay_terrors<L: Fn(u32, &str) -> TerrorData>(
    killer_ids: &Vec<u32>,
    round_type: &str,
    lookup: &L,
) -> (r: Vec<VrTerrorInfo>)
    requires
        forall|id: u32, rt: &str| call_requires(*lookup, (id, rt)),
    ensures
        terrors_given(lookup, killer_ids@, round_type@, info_views(r@)),
{
    let mut out: Vec<VrTerrorInfo> = Vec::new();
    let mut i: usize = 0;
    while i < killer_ids.len()
        invariant
            i <= killer_ids.len(),
            forall|id: u32, rt: &str| call_requires(*lookup, (id, rt)),
            terrors_given(lookup, killer_ids@.take(i as int), round_type@, info_views(out@)),
        decreases killer_ids.len() - i,
    {
        let ghost before = out@;
        let data = lookup(killer_ids[i], round_type);
        let info = VrTerrorInfo::from(data);
        out.push(info);
        proof {
            let now = info_views(out@);
            assert(now =~= info_views(before).push(info@));
        }
        i += 1;
    }
    out
}

} // verus!

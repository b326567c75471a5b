use tsst::{
    get_terror_info, get_terrors_info, killer_names, TerrorAbility, TerrorAbilityResponse,
    TerrorData, TerrorDataResponse, VrTerrorAbility, VrTerrorInfo,
};

fn sample() -> TerrorData {
    TerrorData {
        name: "Tall One".to_string(),
        color: Some("1, 2, 3".to_string()),
        abilities: vec![
            TerrorAbility { label: "Speed".to_string(), value: "Fast".to_string() },
            TerrorAbility { label: "Stun".to_string(), value: "No".to_string() },
        ],
    }
}

fn lookup(id: u32, round_type: &str) -> TerrorData {
    let mut data = sample();
    data.name = format!("{} {} {}", data.name, id, round_type);
    data
}

#[test]
fn a_response_holds_the_same_killer() {
    assert_eq!(
        TerrorDataResponse::from(sample()),
        TerrorDataResponse {
            name: "Tall One".to_string(),
            color: Some("1, 2, 3".to_string()),
            abilities: vec![
                TerrorAbilityResponse { label: "Speed".to_string(), value: "Fast".to_string() },
                TerrorAbilityResponse { label: "Stun".to_string(), value: "No".to_string() },
            ],
        }
    );
    let bare = TerrorData { name: String::new(), color: None, abilities: vec![] };
    assert_eq!(
        TerrorDataResponse::from(bare),
        TerrorDataResponse { name: String::new(), color: None, abilities: vec![] }
    );
}

#[test]
fn overlay_info_holds_the_same_killer() {
    let info: VrTerrorInfo = sample().into();
    assert_eq!(
        info,
        VrTerrorInfo {
            name: "Tall One".to_string(),
            color: Some("1, 2, 3".to_string()),
            abilities: vec![
                VrTerrorAbility { label: "Speed".to_string(), value: "Fast".to_string() },
                VrTerrorAbility { label: "Stun".to_string(), value: "No".to_string() },
            ],
        }
    );
}

#[test]
fn queries_look_each_killer_up_in_order() {
    assert_eq!(get_terror_info(5, "Fog", &lookup).name, "Tall One 5 Fog");
    let answers = get_terrors_info(&vec![2, 9, 2], "Run", &lookup);
    let names: Vec<String> = answers.iter().map(|a| a.name.clone()).collect();
    assert_eq!(names, vec!["Tall One 2 Run", "Tall One 9 Run", "Tall One 2 Run"]);
    assert_eq!(answers[0].abilities.len(), 2);
    assert!(get_terrors_info(&vec![], "Run", &lookup).is_empty());
    assert_eq!(killer_names(&vec![1, 2], "X", &lookup), vec!["Tall One 1 X", "Tall One 2 X"]);
}

use cod1::combat::{applied_element_state, element_after_hit, element_reaction, reaction_result_label};
use cod1::element::{
    pair_matches, ElementConfig, ElementReaction, ElementSystem, ElementType, EntityElementState,
    Falloff, MutualExclusionRules, ReactionResult, SelfConflictRule, SynergyCondition, SynergyRule,
    TeammateConflictCombination, TeammateConflictRules, TeammatePenalty, ONE_BITS, ZERO_BITS,
};

fn reaction(state: EntityElementState, element: ElementType, result: ReactionResult, m: f32) -> ElementReaction {
    ElementReaction {
        target_state: state,
        incoming_element: element,
        result,
        damage_multiplier_bits: m.to_bits(),
        attach_effects: Vec::new(),
        description: String::new(),
    }
}

fn strings(v: &[&str]) -> Vec<String> {
    v.iter().map(|s| s.to_string()).collect()
}

fn sample_config() -> ElementConfig {
    ElementConfig {
        reactions: vec![
            reaction(EntityElementState::Wet, ElementType::Fire, ReactionResult::Vaporize, 1.5),
            reaction(EntityElementState::Frozen, ElementType::Fire, ReactionResult::Melt, 2.0),
            reaction(EntityElementState::RainEnvironment, ElementType::Fire, ReactionResult::RainSuppressed, 0.7),
            reaction(EntityElementState::SnowEnvironment, ElementType::Ice, ReactionResult::SnowAmplified, 1.3),
        ],
        mutual_exclusion: MutualExclusionRules {
            self_conflicts: vec![
                SelfConflictRule { elements: strings(&["IceArmor", "FireWeapon"]), effect: "fire_output_reduction".into(), value_bits: 0.15f32.to_bits(), description: String::new() },
                SelfConflictRule { elements: strings(&["FireArmor", "IceGrenade"]), effect: "ice_efficiency_reduction".into(), value_bits: 0.15f32.to_bits(), description: String::new() },
                SelfConflictRule { elements: strings(&["ElectricWeapon", "WaterGrenade"]), effect: "self_shock".into(), value_bits: 0.25f32.to_bits(), description: String::new() },
            ],
            teammate_conflicts: Some(TeammateConflictRules {
                radius_bits: 5.0f32.to_bits(),
                falloff: "linear".into(),
                combinations: vec![TeammateConflictCombination {
                    elements: strings(&["IceArmor", "FireWeapon"]),
                    effect: "fire_output_reduction".into(),
                    max_value_bits: 0.15f32.to_bits(),
                    description: String::new(),
                }],
            }),
        },
        synergies: vec![SynergyRule {
            name: "烈焰共鸣".into(),
            condition: "three_fire_players_spaced".into(),
            trigger: "auto".into(),
            description: String::new(),
        }],
    }
}

#[test]
fn element_names_and_keys() {
    assert_eq!(ElementType::Fire.name(), "火");
    assert_eq!(ElementType::Physical.name(), "物理");
    assert_eq!(ElementType::Water.key(), "Water");
    assert!(ElementType::Physical.is_neutral());
    assert!(!ElementType::Physical.is_mutually_exclusive());
    assert!(ElementType::Ice.is_mutually_exclusive());
}

#[test]
fn reaction_lookup_finds_row() {
    let system = ElementSystem::new(sample_config());
    let r = system.query_reaction(&EntityElementState::Wet, &ElementType::Fire).expect("row");
    assert_eq!(f32::from_bits(r.damage_multiplier_bits), 1.5);
    assert_eq!(r.result, ReactionResult::Vaporize);
    assert!(system.query_reaction(&EntityElementState::Normal, &ElementType::Fire).is_none());
    assert_eq!(system.reaction_count(), 4);
}

#[test]
fn later_row_overrides_earlier_row() {
    let mut config = sample_config();
    config.reactions.push(reaction(EntityElementState::Wet, ElementType::Fire, ReactionResult::Burning, 3.0));
    let system = ElementSystem::new(config);
    let bits = system.calculate_damage_multiplier(&EntityElementState::Wet, &ElementType::Fire);
    assert_eq!(f32::from_bits(bits), 3.0);
    // duplicates still count as loaded rows
    assert_eq!(system.reaction_count(), 5);
}

#[test]
fn environment_modifiers_default_to_one() {
    let system = ElementSystem::new(sample_config());
    assert_eq!(f32::from_bits(system.get_environment_modifier(&EntityElementState::RainEnvironment, &ElementType::Fire)), 0.7);
    assert_eq!(f32::from_bits(system.get_environment_modifier(&EntityElementState::SnowEnvironment, &ElementType::Ice)), 1.3);
    assert_eq!(system.get_environment_modifier(&EntityElementState::Normal, &ElementType::Fire), ONE_BITS);
    assert_eq!(f32::from_bits(ONE_BITS), 1.0);
}

#[test]
fn self_penalty_follows_armor_weapon_order() {
    let system = ElementSystem::new(sample_config());
    assert_eq!(f32::from_bits(system.calculate_self_penalty(&ElementType::Ice, &ElementType::Fire)), 0.15);
    assert_eq!(f32::from_bits(system.calculate_self_penalty(&ElementType::Fire, &ElementType::Ice)), 0.15);
    assert_eq!(f32::from_bits(system.calculate_self_penalty(&ElementType::Electric, &ElementType::Water)), 0.25);
    assert_eq!(system.calculate_self_penalty(&ElementType::Water, &ElementType::Electric), ZERO_BITS);
    assert_eq!(system.calculate_self_penalty(&ElementType::Ice, &ElementType::Ice), ZERO_BITS);
    assert_eq!(system.find_self_conflict(&ElementType::Electric, &ElementType::Water), Some(2));
}

#[test]
fn teammate_rule_is_symmetric_and_ignores_same_element() {
    let system = ElementSystem::new(sample_config());
    let expected = TeammatePenalty::Within {
        radius_bits: 5.0f32.to_bits(),
        max_value_bits: 0.15f32.to_bits(),
        falloff: Falloff::Linear,
    };
    assert_eq!(system.teammate_penalty_rule(&ElementType::Ice, &ElementType::Fire), expected);
    assert_eq!(system.teammate_penalty_rule(&ElementType::Fire, &ElementType::Ice), expected);
    assert_eq!(system.teammate_penalty_rule(&ElementType::Fire, &ElementType::Fire), TeammatePenalty::NoPenalty);
    assert_eq!(system.teammate_penalty_rule(&ElementType::Poison, &ElementType::Water), TeammatePenalty::NoPenalty);
}

#[test]
fn teammate_rule_absent_or_unknown_curve() {
    let mut config = sample_config();
    config.mutual_exclusion.teammate_conflicts.as_mut().unwrap().falloff = "step".into();
    let system = ElementSystem::new(config);
    match system.teammate_penalty_rule(&ElementType::Ice, &ElementType::Fire) {
        TeammatePenalty::Within { falloff, .. } => assert_eq!(falloff, Falloff::Constant),
        other => panic!("unexpected {:?}", other),
    }
    let mut config = sample_config();
    config.mutual_exclusion.teammate_conflicts = None;
    let system = ElementSystem::new(config);
    assert_eq!(system.teammate_penalty_rule(&ElementType::Ice, &ElementType::Fire), TeammatePenalty::NoPenalty);
    assert_eq!(system.find_teammate_conflict(&ElementType::Ice, &ElementType::Fire), None);
}

#[test]
fn pair_matching_needs_two_distinct_entries() {
    let el = strings(&["IceArmor", "FireWeapon"]);
    assert!(pair_matches(&el, "Ice", "Fire"));
    assert!(pair_matches(&el, "Fire", "Ice"));
    assert!(!pair_matches(&el, "Ice", "Ice"));
    assert!(!pair_matches(&strings(&["IceFire"]), "Ice", "Fire"));
    assert!(!pair_matches(&el, "Water", "Fire"));
}

#[test]
fn synergy_lookup_by_name() {
    let system = ElementSystem::new(sample_config());
    assert_eq!(system.find_synergy("烈焰共鸣"), Some(0));
    assert_eq!(system.find_synergy("不存在的协同"), None);
    assert_eq!(system.synergy_condition("烈焰共鸣"), SynergyCondition::ThreeFirePlayersSpaced);
    assert_eq!(system.synergy_condition("不存在的协同"), SynergyCondition::Never);
    let mut config = sample_config();
    config.synergies[0].condition = "something_else".into();
    let system = ElementSystem::new(config);
    assert_eq!(system.synergy_condition("烈焰共鸣"), SynergyCondition::Never);
}

#[test]
fn combat_reaction_of_attached_element() {
    let system = ElementSystem::new(sample_config());
    assert_eq!(applied_element_state(ElementType::Water), Some(EntityElementState::Wet));
    assert_eq!(applied_element_state(ElementType::Physical), None);
    assert_eq!(reaction_result_label(&ReactionResult::ShatterFreeze), "爆裂冻结！");
    let hit = element_reaction(&system, Some(ElementType::Water), ElementType::Fire).expect("vaporize");
    assert_eq!(f32::from_bits(hit.damage_multiplier_bits), 1.5);
    assert_eq!(hit.label, "蒸发！");
    let hit = element_reaction(&system, Some(ElementType::Ice), ElementType::Fire).expect("melt");
    assert_eq!(hit.label, "融化！");
    assert!(element_reaction(&system, None, ElementType::Fire).is_none());
    assert!(element_reaction(&system, Some(ElementType::Physical), ElementType::Fire).is_none());
    assert!(element_reaction(&system, Some(ElementType::Fire), ElementType::Fire).is_none());
}

#[test]
fn hits_attach_their_element() {
    assert_eq!(element_after_hit(None, ElementType::Fire), Some(ElementType::Fire));
    assert_eq!(element_after_hit(Some(ElementType::Ice), ElementType::Water), Some(ElementType::Water));
    assert_eq!(element_after_hit(Some(ElementType::Ice), ElementType::Physical), Some(ElementType::Ice));
    assert_eq!(element_after_hit(None, ElementType::Physical), None);
}

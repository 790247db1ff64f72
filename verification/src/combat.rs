//! Combat-time element reactions: the element left on a target turns into an
//! entity state, which is looked up in the reaction table.

use vstd::prelude::*;
use crate::element::{ElementSystem, ElementType, EntityElementState, ReactionResult};
use crate::element::{last_reaction, pair_code};

verus! {

/// The entity state an attached element puts a target in (Physical attaches nothing).
pub open spec fn spec_applied_state(element: ElementType) -> Option<EntityElementState> {
    match element {
        ElementType::Fire => Some(EntityElementState::Burning),
        ElementType::Ice => Some(EntityElementState::Frozen),
        ElementType::Electric => Some(EntityElementState::Electrified),
        ElementType::Poison => Some(EntityElementState::Poisoned),
        ElementType::Water => Some(EntityElementState::Wet),
        ElementType::Physical => None,
    }
}

/// Map an attached element to the core entity element state.
pub fn applied_element_state(element: ElementType) -> (s: Option<EntityElementState>)
    ensures
        s == spec_applied_state(element),
{
    match element {
        ElementType::Fire => Some(EntityElementState::Burning),
        ElementType::Ice => Some(EntityElementState::Frozen),
        ElementType::Electric => Some(EntityElementState::Electrified),
        ElementType::Poison => Some(EntityElementState::Poisoned),
        ElementType::Water => Some(EntityElementState::Wet),
        ElementType::Physical => None,
    }
}

/// An attached element puts the target in that same element's state: fire
/// burns, ice freezes, electricity electrifies, poison poisons, water soaks;
/// a physical hit attaches nothing. Hence no two elements give the same state.
pub proof fn law_applied_state_is_own_element(e: ElementType, f: ElementType)
    ensures
        spec_applied_state(e) == Some(EntityElementState::Burning) <==> e == ElementType::Fire,
        spec_applied_state(e) == Some(EntityElementState::Frozen) <==> e == ElementType::Ice,
        spec_applied_state(e) == Some(EntityElementState::Electrified) <==> e == ElementType::Electric,
        spec_applied_state(e) == Some(EntityElementState::Poisoned) <==> e == ElementType::Poison,
        spec_applied_state(e) == Some(EntityElementState::Wet) <==> e == ElementType::Water,
        spec_applied_state(e) is None <==> e == ElementType::Physical,
        spec_applied_state(e) is Some && spec_applied_state(e) == spec_applied_state(f) ==> e == f,
{
}

/// Pop-up text of each reaction result.
pub open spec fn spec_reaction_label(result: ReactionResult) -> Seq<char> {
    match result {
        ReactionResult::Vaporize => "蒸发！"@,
        ReactionResult::Melt => "融化！"@,
        ReactionResult::Burning => "燃烧！"@,
        ReactionResult::Electrolysis => "电解！"@,
        ReactionResult::Superconduct => "超导！"@,
        ReactionResult::PoisonExplosion => "毒爆！"@,
        ReactionResult::PoisonCloud => "毒云！"@,
        ReactionResult::ShatterFreeze => "爆裂冻结！"@,
        ReactionResult::PhysicalVulnerability => "物理易伤！"@,
        ReactionResult::RainSuppressed => "雨天压制"@,
        ReactionResult::RainAmplified => "雨天增强"@,
        ReactionResult::Overheat => "过热"@,
        ReactionResult::OverheatRisk => "过热风险"@,
        ReactionResult::SnowAmplified => "雪地增强"@,
        ReactionResult::SnowSuppressed => "雪地压制"@,
        ReactionResult::ConductiveRisk => "导电风险"@,
    }
}

/// Display label of a reaction result.
pub fn reaction_result_label(result: &ReactionResult) -> (s: &'static str)
    ensures
        s@ == spec_reaction_label(*result),
{
    match result {
        ReactionResult::Vaporize => "蒸发！",
        ReactionResult::Melt => "融化！",
        ReactionResult::Burning => "燃烧！",
        ReactionResult::Electrolysis => "电解！",
        ReactionResult::Superconduct => "超导！",
        ReactionResult::PoisonExplosion => "毒爆！",
        ReactionResult::PoisonCloud => "毒云！",
        ReactionResult::ShatterFreeze => "爆裂冻结！",
        ReactionResult::PhysicalVulnerability => "物理易伤！",
        ReactionResult::RainSuppressed => "雨天压制",
        ReactionResult::RainAmplified => "雨天增强",
        ReactionResult::Overheat => "过热",
        ReactionResult::OverheatRisk => "过热风险",
        ReactionResult::SnowAmplified => "雪地增强",
        ReactionResult::SnowSuppressed => "雪地压制",
        ReactionResult::ConductiveRisk => "导电风险",
    }
}

/// A reaction that fired: the multiplier to apply to the base damage (as
/// `f32` bits) and the reaction's label.
pub struct ReactionHit {
    pub damage_multiplier_bits: u32,
    pub label: String,
}

/// Reaction of `incoming` hitting a target that carries `existing`: nothing
/// when no element is attached, the attached element maps to no state, or the
/// table has no row for (state, incoming); otherwise the row's multiplier and
/// label. The caller scales the base damage by the multiplier, and keeps the
/// base damage unchanged when nothing fires.
pub fn element_reaction(system: &ElementSystem, existing: Option<ElementType>, incoming: ElementType) -> (r:
    Option<ReactionHit>)
    ensures
        match existing {
            None => r is None,
            Some(e) => match spec_applied_state(e) {
                None => r is None,
                Some(state) => match last_reaction(
                    system.spec_config().reactions@,
                    pair_code(state, incoming),
                ) {
                    None => r is None,
                    Some(i) => r matches Some(hit) && hit.damage_multiplier_bits
                        == system.spec_config().reactions@[i].damage_multiplier_bits && hit.label@
                        == spec_reaction_label(system.spec_config().reactions@[i].result),
                },
            },
        },
{
    let existing = match existing {
        Some(e) => e,
        None => {
            return None;
        },
    };
    let state = match applied_element_state(existing) {
        Some(s) => s,
        None => {
            return None;
        },
    };
    match system.query_reaction(&state, &incoming) {
        None => None,
        Some(reaction) => {
            let label = reaction_result_label(&reaction.result);
            Some(ReactionHit { damage_multiplier_bits: reaction.damage_multiplier_bits, label: label.to_string() })
        },
    }
}

/// Element a target carries after a hit: a non-physical hit attaches its
/// element (replacing any other); a physical hit leaves the target as it was.
pub fn element_after_hit(existing: Option<ElementType>, incoming: ElementType) -> (e: Option<ElementType>)
    ensures
        e == if incoming == ElementType::Physical {
            existing
        } else {
            Some(incoming)
        },
{
    if incoming != ElementType::Physical {
        Some(incoming)
    } else {
        existing
    }
}

} // verus!

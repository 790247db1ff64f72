//! Elements, entity element states and the reaction results they produce.

use vstd::prelude::*;
use crate::text::is_prefix_chars;

mod system;

pub use system::{
    ElementConfig, ElementReaction, ElementSystem, Falloff, MutualExclusionRules, SelfConflictRule,
    SynergyCondition, SynergyRule, TeammateConflictCombination, TeammateConflictRules, TeammatePenalty,
    ONE_BITS, ZERO_BITS, pair_matches, last_reaction, reaction_code, lemma_last_reaction,
    pair_matches_spec, names_key, entry_names, self_rule_hits, combo_hits,
    law_pair_matches_symmetric, law_teammate_penalty_symmetric,
};

verus! {

/// Basic element of an attack, a weapon or a piece of gear.
#[derive(Debug, Clone, Copy, PartialEq, Eq, Hash, Structural)]
pub enum ElementType {
    /// Heat: burst damage and burning.
    Fire,
    /// Cold: slows and freezes.
    Ice,
    /// Conduction: chain damage, shield breaking.
    Electric,
    /// Corrosion: armour piercing, lingering weakening.
    Poison,
    /// Neutral: stable, never mutually exclusive.
    Physical,
    /// Moisture: environment interaction.
    Water,
}

impl ElementType {
    /// Display name of each element.
    pub open spec fn spec_name(self) -> Seq<char> {
        match self {
            ElementType::Fire => "火"@,
            ElementType::Ice => "冰"@,
            ElementType::Electric => "电"@,
            ElementType::Poison => "毒"@,
            ElementType::Physical => "物理"@,
            ElementType::Water => "水"@,
        }
    }

    /// English key of each element; mutual-exclusion tables name gear by
    /// strings that start with this key (e.g. "IceArmor").
    pub open spec fn spec_key(self) -> Seq<char> {
        match self {
            ElementType::Fire => "Fire"@,
            ElementType::Ice => "Ice"@,
            ElementType::Electric => "Electric"@,
            ElementType::Poison => "Poison"@,
            ElementType::Physical => "Physical"@,
            ElementType::Water => "Water"@,
        }
    }

    /// Element name.
    pub fn name(&self) -> (s: &'static str)
        ensures
            s@ == self.spec_name(),
    {
        match self {
            ElementType::Fire => "火",
            ElementType::Ice => "冰",
            ElementType::Electric => "电",
            ElementType::Poison => "毒",
            ElementType::Physical => "物理",
            ElementType::Water => "水",
        }
    }

    /// Whether this is the neutral (physical) element.
    pub fn is_neutral(&self) -> (b: bool)
        ensures
            b == (*self == ElementType::Physical),
    {
        matches!(self, ElementType::Physical)
    }

    /// Whether the element takes part in mutual exclusion.
    pub fn is_mutually_exclusive(&self) -> (b: bool)
        ensures
            b == (*self != ElementType::Physical),
    {
        !self.is_neutral()
    }

    /// English key name (prefix of the mutual-exclusion table entries).
    pub fn key(&self) -> (s: &'static str)
        ensures
            s@ == self.spec_key(),
    {
        match self {
            ElementType::Fire => "Fire",
            ElementType::Ice => "Ice",
            ElementType::Electric => "Electric",
            ElementType::Poison => "Poison",
            ElementType::Physical => "Physical",
            ElementType::Water => "Water",
        }
    }
}

/// An element's key is its English name, so a gear string made of that name
/// followed by anything ("PoisonWeapon", "IceArmor", ...) starts with the key
/// of that element and of no other.
pub proof fn law_gear_string_names_its_element(e: ElementType, rest: Seq<char>)
    ensures
        is_prefix_chars(e.spec_key(), "Fire"@ + rest) <==> e == ElementType::Fire,
        is_prefix_chars(e.spec_key(), "Ice"@ + rest) <==> e == ElementType::Ice,
        is_prefix_chars(e.spec_key(), "Electric"@ + rest) <==> e == ElementType::Electric,
        is_prefix_chars(e.spec_key(), "Poison"@ + rest) <==> e == ElementType::Poison,
        is_prefix_chars(e.spec_key(), "Physical"@ + rest) <==> e == ElementType::Physical,
        is_prefix_chars(e.spec_key(), "Water"@ + rest) <==> e == ElementType::Water,
{
    reveal_strlit("Fire");
    reveal_strlit("Ice");
    reveal_strlit("Electric");
    reveal_strlit("Poison");
    reveal_strlit("Physical");
    reveal_strlit("Water");
    let k = e.spec_key();
    let names = seq!["Fire"@, "Ice"@, "Electric"@, "Poison"@, "Physical"@, "Water"@];
    assert forall|n: int| 0 <= n < 6 implies (is_prefix_chars(k, #[trigger] names[n] + rest) <==> k == names[n]) by {
        let g = names[n] + rest;
        if k == names[n] {
            assert(g.subrange(0, k.len() as int) =~= k);
        } else if k.len() <= g.len() {
            assert(k[0] != g[0] || k[1] != g[1]);
            assert(g.subrange(0, k.len() as int)[0] == g[0]);
            assert(g.subrange(0, k.len() as int)[1] == g[1]);
        }
    }
    assert("Electric"@[0] != "Physical"@[0]);
    assert(names[0] == "Fire"@);
    assert(names[1] == "Ice"@);
    assert(names[2] == "Electric"@);
    assert(names[3] == "Poison"@);
    assert(names[4] == "Physical"@);
    assert(names[5] == "Water"@);
}

/// Current element state of an entity, or an environment acting like one.
#[derive(Debug, Clone, Copy, PartialEq, Eq, Hash, Structural)]
pub enum EntityElementState {
    /// No element attached.
    Normal,
    /// Soaked.
    Wet,
    /// Frozen solid.
    Frozen,
    /// On fire.
    Burning,
    /// Poisoned.
    Poisoned,
    /// Electric element attached.
    Electrified,
    /// Grass / vegetation environment.
    Grass,
    /// Rainy environment.
    RainEnvironment,
    /// Hot environment.
    HighTemperature,
    /// Snowy environment.
    SnowEnvironment,
}

/// Outcome tag of an element reaction.
#[derive(Debug, Clone, Copy, PartialEq, Eq, Hash, Structural)]
pub enum ReactionResult {
    Vaporize,
    Melt,
    Burning,
    Electrolysis,
    Superconduct,
    PoisonExplosion,
    PoisonCloud,
    ShatterFreeze,
    PhysicalVulnerability,
    RainSuppressed,
    RainAmplified,
    Overheat,
    OverheatRisk,
    SnowAmplified,
    SnowSuppressed,
    ConductiveRisk,
}

/// Position of an element in declaration order.
pub open spec fn element_index(e: ElementType) -> int {
    match e {
        ElementType::Fire => 0,
        ElementType::Ice => 1,
        ElementType::Electric => 2,
        ElementType::Poison => 3,
        ElementType::Physical => 4,
        ElementType::Water => 5,
    }
}

/// Position of a state in declaration order.
pub open spec fn state_index(s: EntityElementState) -> int {
    match s {
        EntityElementState::Normal => 0,
        EntityElementState::Wet => 1,
        EntityElementState::Frozen => 2,
        EntityElementState::Burning => 3,
        EntityElementState::Poisoned => 4,
        EntityElementState::Electrified => 5,
        EntityElementState::Grass => 6,
        EntityElementState::RainEnvironment => 7,
        EntityElementState::HighTemperature => 8,
        EntityElementState::SnowEnvironment => 9,
    }
}

/// Number identifying a (state, element) pair; distinct pairs get distinct numbers.
pub open spec fn pair_code(s: EntityElementState, e: ElementType) -> int {
    state_index(s) * 6 + element_index(e)
}

/// Distinct (state, element) pairs have distinct codes.
pub proof fn lemma_pair_code_injective(
    s1: EntityElementState,
    e1: ElementType,
    s2: EntityElementState,
    e2: ElementType,
)
    ensures
        pair_code(s1, e1) == pair_code(s2, e2) <==> (s1 == s2 && e1 == e2),
{
}

/// Executable form of [`pair_code`].
pub fn pair_code_of(s: EntityElementState, e: ElementType) -> (c: u64)
    ensures
        c == pair_code(s, e),
{
    let si: u64 = match s {
        EntityElementState::Normal => 0,
        EntityElementState::Wet => 1,
        EntityElementState::Frozen => 2,
        EntityElementState::Burning => 3,
        EntityElementState::Poisoned => 4,
        EntityElementState::Electrified => 5,
        EntityElementState::Grass => 6,
        EntityElementState::RainEnvironment => 7,
        EntityElementState::HighTemperature => 8,
        EntityElementState::SnowEnvironment => 9,
    };
    let ei: u64 = match e {
        ElementType::Fire => 0,
        ElementType::Ice => 1,
        ElementType::Electric => 2,
        ElementType::Poison => 3,
        ElementType::Physical => 4,
        ElementType::Water => 5,
    };
    si * 6 + ei
}

} // verus!

//! The configuration-driven element system: reaction lookup, mutual-exclusion
//! penalties and synergy rules.
//!
//! Every number the designers tune (multipliers, penalties, radii) is an `f32`
//! in the configuration table; the library carries each one as its bit pattern
//! (`f32::to_bits`) and only decides *which* row of the table applies.

use vstd::prelude::*;
use std::collections::HashMap;
use super::{ElementType, EntityElementState, ReactionResult, pair_code, pair_code_of};
use crate::text::{is_prefix_chars, starts_with, str_eq};

verus! {

broadcast use vstd::std_specs::hash::group_hash_axioms;

/// Bit pattern of the `f32` value 1.0 (the neutral multiplier).
pub const ONE_BITS: u32 = 0x3F80_0000;

/// Bit pattern of the `f32` value 0.0 (no penalty).
pub const ZERO_BITS: u32 = 0;

/// One row of the reaction table.
#[derive(Debug, Clone, PartialEq)]
pub struct ElementReaction {
    pub target_state: EntityElementState,
    pub incoming_element: ElementType,
    pub result: ReactionResult,
    /// Bit pattern of the `f32` damage multiplier.
    pub damage_multiplier_bits: u32,
    pub attach_effects: Vec<ReactionResult>,
    pub description: String,
}

/// A self-conflict rule: `elements` is `[armour prefix, weapon prefix]`.
#[derive(Debug, Clone, PartialEq)]
pub struct SelfConflictRule {
    pub elements: Vec<String>,
    pub effect: String,
    /// Bit pattern of the `f32` penalty value.
    pub value_bits: u32,
    pub description: String,
}

/// A teammate-conflict combination of two gear prefixes.
#[derive(Debug, Clone, PartialEq)]
pub struct TeammateConflictCombination {
    pub elements: Vec<String>,
    pub effect: String,
    /// Bit pattern of the `f32` penalty applied at distance zero.
    pub max_value_bits: u32,
    pub description: String,
}

/// Teammate-conflict rules: radius, falloff curve and combinations.
#[derive(Debug, Clone, PartialEq)]
pub struct TeammateConflictRules {
    /// Bit pattern of the `f32` radius in metres.
    pub radius_bits: u32,
    pub falloff: String,
    pub combinations: Vec<TeammateConflictCombination>,
}

/// All mutual-exclusion rules.
#[derive(Debug, Clone, PartialEq)]
pub struct MutualExclusionRules {
    pub self_conflicts: Vec<SelfConflictRule>,
    pub teammate_conflicts: Option<TeammateConflictRules>,
}

/// A synergy rule. Its effect payload is kept by the caller, row for row.
#[derive(Debug, Clone, PartialEq)]
pub struct SynergyRule {
    pub name: String,
    pub condition: String,
    pub trigger: String,
    pub description: String,
}

/// The element system configuration table.
#[derive(Debug, Clone, PartialEq)]
pub struct ElementConfig {
    pub reactions: Vec<ElementReaction>,
    pub mutual_exclusion: MutualExclusionRules,
    pub synergies: Vec<SynergyRule>,
}

/// Code of the (state, element) pair a reaction row reacts to.
pub open spec fn reaction_code(r: ElementReaction) -> int {
    pair_code(r.target_state, r.incoming_element)
}

/// Index of the last row of `rs` whose pair has code `code`: later rows of
/// the table override earlier ones.
pub open spec fn last_reaction(rs: Seq<ElementReaction>, code: int) -> Option<int>
    decreases rs.len(),
{
    if rs.len() == 0 {
        None
    } else if reaction_code(rs.last()) == code {
        Some(rs.len() - 1)
    } else {
        last_reaction(rs.drop_last(), code)
    }
}

/// `last_reaction` names the last matching row, or no row matches.
pub proof fn lemma_last_reaction(rs: Seq<ElementReaction>, code: int)
    ensures
        match last_reaction(rs, code) {
            Some(i) => 0 <= i < rs.len() && reaction_code(rs[i]) == code && forall|j: int|
                i < j < rs.len() ==> reaction_code(#[trigger] rs[j]) != code,
            None => forall|j: int| 0 <= j < rs.len() ==> reaction_code(#[trigger] rs[j]) != code,
        },
    decreases rs.len(),
{
    if rs.len() > 0 {
        lemma_last_reaction(rs.drop_last(), code);
        if reaction_code(rs.last()) != code {
            assert forall|j: int| 0 <= j < rs.len() - 1 implies rs[j] == rs.drop_last()[j] by {}
        }
    }
}

/// Gear string `s` names element key `k`.
pub open spec fn names_key(s: String, k: Seq<char>) -> bool {
    is_prefix_chars(k, s@)
}

/// Entry `idx` of `elements` names key `k`.
pub open spec fn entry_names(elements: Seq<String>, k: Seq<char>, idx: int) -> bool {
    0 <= idx < elements.len() && names_key(elements[idx], k)
}

/// The pair of keys hits a rule's element list: the keys differ and two
/// distinct entries start with `a` and `b` respectively.
pub open spec fn pair_matches_spec(elements: Seq<String>, a: Seq<char>, b: Seq<char>) -> bool {
    a != b && exists|i: int, j: int|
        i != j && #[trigger] entry_names(elements, a, i) && #[trigger] entry_names(elements, b, j)
}

/// Whether an element pair hits a rule's `elements` list (key-prefix
/// matching): two distinct entries must start with `key_a` and `key_b`.
/// Equal keys never conflict.
pub fn pair_matches(elements: &Vec<String>, key_a: &str, key_b: &str) -> (res: bool)
    ensures
        res == pair_matches_spec(elements@, key_a@, key_b@),
{
    if str_eq(key_a, key_b) {
        return false;
    }
    let n = elements.len();
    let mut i: usize = 0;
    while i < n
        invariant
            n == elements@.len(),
            i <= n,
            key_a@ != key_b@,
            forall|ii: int, jj: int|
                0 <= ii < i && ii != jj ==> !(#[trigger] entry_names(elements@, key_a@, ii)
                    && #[trigger] entry_names(elements@, key_b@, jj)),
        decreases n - i,
    {
        if starts_with(elements[i].as_str(), key_a) {
            let mut j: usize = 0;
            while j < n
                invariant
                    n == elements@.len(),
                    i < n,
                    j <= n,
                    key_a@ != key_b@,
                    entry_names(elements@, key_a@, i as int),
                    forall|jj: int| 0 <= jj < j && jj != i ==> !#[trigger] entry_names(elements@, key_b@, jj),
                decreases n - j,
            {
                if j != i && starts_with(elements[j].as_str(), key_b) {
                    assert(entry_names(elements@, key_a@, i as int));
                    assert(entry_names(elements@, key_b@, j as int));
                    return true;
                }
                j = j + 1;
            }
        }
        i = i + 1;
    }
    false
}

/// Mutual exclusion between two players does not depend on who is who: a
/// rule's element list matches (a, b) exactly when it matches (b, a).
pub proof fn law_pair_matches_symmetric(elements: Seq<String>, a: Seq<char>, b: Seq<char>)
    ensures
        pair_matches_spec(elements, a, b) == pair_matches_spec(elements, b, a),
{
    if pair_matches_spec(elements, a, b) {
        let (i, j) = choose|i: int, j: int|
            i != j && #[trigger] entry_names(elements, a, i) && #[trigger] entry_names(elements, b, j);
        assert(entry_names(elements, b, j) && entry_names(elements, a, i));
    }
    if pair_matches_spec(elements, b, a) {
        let (i, j) = choose|i: int, j: int|
            i != j && #[trigger] entry_names(elements, b, i) && #[trigger] entry_names(elements, a, j);
        assert(entry_names(elements, a, j) && entry_names(elements, b, i));
    }
}

/// The teammate penalty between two players is the same whichever of them
/// is named first: every combination hits (a, b) exactly when it hits (b, a),
/// so `teammate_penalty_rule` picks the same combination both ways.
pub proof fn law_teammate_penalty_symmetric(system: ElementSystem, a: ElementType, b: ElementType)
    ensures
        system.spec_config().mutual_exclusion.teammate_conflicts matches Some(rules) ==> forall|i: int|
            0 <= i < rules.combinations@.len() ==> combo_hits(
                #[trigger] rules.combinations@[i],
                a.spec_key(),
                b.spec_key(),
            ) == combo_hits(rules.combinations@[i], b.spec_key(), a.spec_key()),
{
    if let Some(rules) = system.spec_config().mutual_exclusion.teammate_conflicts {
        assert forall|i: int| 0 <= i < rules.combinations@.len() implies combo_hits(
            #[trigger] rules.combinations@[i],
            a.spec_key(),
            b.spec_key(),
        ) == combo_hits(rules.combinations@[i], b.spec_key(), a.spec_key()) by {
            law_pair_matches_symmetric(rules.combinations@[i].elements@, a.spec_key(), b.spec_key());
        }
    }
}

/// A self-conflict rule hits (armour, weapon).
pub open spec fn self_rule_hits(rule: SelfConflictRule, armor: Seq<char>, weapon: Seq<char>) -> bool {
    rule.elements@.len() >= 2 && names_key(rule.elements@[0], armor) && names_key(rule.elements@[1], weapon)
}

/// A teammate combination hits the element pair.
pub open spec fn combo_hits(c: TeammateConflictCombination, a: Seq<char>, b: Seq<char>) -> bool {
    pair_matches_spec(c.elements@, a, b)
}

/// Falloff curve of the teammate penalty inside the radius.
#[derive(Debug, Clone, Copy, PartialEq, Eq, Structural)]
pub enum Falloff {
    /// Full penalty at distance zero, none at the radius.
    Linear,
    /// Full penalty anywhere inside the radius (unknown curve names).
    Constant,
}

/// Which teammate penalty applies to a pair of elements.
#[derive(Debug, Clone, Copy, PartialEq, Eq, Structural)]
pub enum TeammatePenalty {
    /// No rule applies: the penalty is zero at every distance.
    NoPenalty,
    /// Inside `radius_bits` the penalty is `max_value_bits` shaped by `falloff`;
    /// at or beyond the radius it is zero.
    Within { radius_bits: u32, max_value_bits: u32, falloff: Falloff },
}

/// Condition that decides whether a named synergy triggers.
#[derive(Debug, Clone, Copy, PartialEq, Eq, Structural)]
pub enum SynergyCondition {
    /// No synergy has this name, or its condition is not known: never triggers.
    Never,
    /// At least three fire players, all more than five metres apart.
    ThreeFirePlayersSpaced,
}

/// Runtime element system: the configuration plus the reaction lookup table.
pub struct ElementSystem {
    config: ElementConfig,
    /// Pair code of (state, element) to the index of the reaction row.
    reaction_lookup: HashMap<u64, usize>,
}

impl ElementSystem {
    /// The configuration the system was built from.
    pub closed spec fn spec_config(self) -> ElementConfig {
        self.config
    }

    /// The lookup table maps each pair code to the last row reacting to it.
    #[verifier::type_invariant]
    closed spec fn lookup_matches_table(self) -> bool {
        &&& forall|c: u64| #[trigger]
            self.reaction_lookup@.contains_key(c) <==> last_reaction(
                self.config.reactions@,
                c as int,
            ) is Some
        &&& forall|c: u64| #[trigger]
            self.reaction_lookup@.contains_key(c) ==> last_reaction(
                self.config.reactions@,
                c as int,
            ) == Some(self.reaction_lookup@[c] as int)
    }

    /// Build the system; a later row for the same (state, element) pair
    /// overrides an earlier one.
    pub fn new(config: ElementConfig) -> (s: Self)
        ensures
            s.spec_config() == config,
    {
        let mut reaction_lookup: HashMap<u64, usize> = HashMap::new();
        let n = config.reactions.len();
        let mut i: usize = 0;
        while i < n
            invariant
                n == config.reactions@.len(),
                i <= n,
                forall|c: u64| #[trigger]
                    reaction_lookup@.contains_key(c) <==> last_reaction(
                        config.reactions@.take(i as int),
                        c as int,
                    ) is Some,
                forall|c: u64| #[trigger]
                    reaction_lookup@.contains_key(c) ==> last_reaction(
                        config.reactions@.take(i as int),
                        c as int,
                    ) == Some(reaction_lookup@[c] as int),
            decreases n - i,
        {
            let r = &config.reactions[i];
            let key = pair_code_of(r.target_state, r.incoming_element);
            reaction_lookup.insert(key, i);
            proof {
                let rs = config.reactions@.take(i as int + 1);
                assert(rs.drop_last() =~= config.reactions@.take(i as int));
                assert(rs.last() == config.reactions@[i as int]);
            }
            i = i + 1;
        }
        assert(config.reactions@.take(n as int) =~= config.reactions@);
        ElementSystem { config, reaction_lookup }
    }

    /// Number of reaction rows loaded (duplicates included).
    pub fn reaction_count(&self) -> (n: usize)
        ensures
            n == self.spec_config().reactions@.len(),
    {
        self.config.reactions.len()
    }

    /// Look up the reaction of `incoming_element` hitting a target in
    /// `target_state`: the last table row for that pair, or `None`.
    pub fn query_reaction(
        &self,
        target_state: &EntityElementState,
        incoming_element: &ElementType,
    ) -> (r: Option<&ElementReaction>)
        ensures
            match last_reaction(
                self.spec_config().reactions@,
                pair_code(*target_state, *incoming_element),
            ) {
                Some(i) => r == Some(&self.spec_config().reactions@[i]),
                None => r is None,
            },
    {
        proof {
            use_type_invariant(self);
            lemma_last_reaction(
                self.config.reactions@,
                pair_code(*target_state, *incoming_element),
            );
        }
        let key = pair_code_of(*target_state, *incoming_element);
        match self.reaction_lookup.get(&key) {
            Some(idx) => {
                let idx = *idx;
                Some(&self.config.reactions[idx])
            },
            None => None,
        }
    }

    /// Bit pattern of the damage multiplier for the pair: the matching row's
    /// multiplier, or 1.0 when no row matches.
    pub fn calculate_damage_multiplier(
        &self,
        target_state: &EntityElementState,
        incoming_element: &ElementType,
    ) -> (bits: u32)
        ensures
            bits == match last_reaction(
                self.spec_config().reactions@,
                pair_code(*target_state, *incoming_element),
            ) {
                Some(i) => self.spec_config().reactions@[i].damage_multiplier_bits,
                None => ONE_BITS,
            },
    {
        match self.query_reaction(target_state, incoming_element) {
            Some(r) => r.damage_multiplier_bits,
            None => ONE_BITS,
        }
    }

    /// Bit pattern of the environment modifier: environment rows share the
    /// reaction table, so this is the table multiplier, or 1.0 when absent.
    pub fn get_environment_modifier(
        &self,
        environment: &EntityElementState,
        element: &ElementType,
    ) -> (bits: u32)
        ensures
            bits == match last_reaction(
                self.spec_config().reactions@,
                pair_code(*environment, *element),
            ) {
                Some(i) => self.spec_config().reactions@[i].damage_multiplier_bits,
                None => ONE_BITS,
            },
    {
        self.calculate_damage_multiplier(environment, element)
    }

    /// Index of the first self-conflict rule hit by (armour, weapon).
    pub fn find_self_conflict(&self, armor_element: &ElementType, weapon_element: &ElementType) -> (r:
        Option<usize>)
        ensures
            ({
                let rules = self.spec_config().mutual_exclusion.self_conflicts@;
                match r {
                    Some(i) => i < rules.len() && self_rule_hits(
                        rules[i as int],
                        armor_element.spec_key(),
                        weapon_element.spec_key(),
                    ) && forall|j: int|
                        0 <= j < i ==> !#[trigger] self_rule_hits(
                            rules[j],
                            armor_element.spec_key(),
                            weapon_element.spec_key(),
                        ),
                    None => forall|j: int|
                        0 <= j < rules.len() ==> !#[trigger] self_rule_hits(
                            rules[j],
                            armor_element.spec_key(),
                            weapon_element.spec_key(),
                        ),
                }
            }),
    {
        let key_armor = armor_element.key();
        let key_weapon = weapon_element.key();
        let rules = &self.config.mutual_exclusion.self_conflicts;
        let n = rules.len();
        let mut i: usize = 0;
        while i < n
            invariant
                n == rules@.len(),
                rules == &self.spec_config().mutual_exclusion.self_conflicts,
                key_armor@ == armor_element.spec_key(),
                key_weapon@ == weapon_element.spec_key(),
                i <= n,
                forall|j: int|
                    0 <= j < i ==> !#[trigger] self_rule_hits(rules@[j], key_armor@, key_weapon@),
            decreases n - i,
        {
            let rule = &rules[i];
            if rule.elements.len() >= 2 && starts_with(rule.elements[0].as_str(), key_armor)
                && starts_with(rule.elements[1].as_str(), key_weapon) {
                return Some(i);
            }
            i = i + 1;
        }
        None
    }

    /// Bit pattern of the self-conflict penalty of wearing `armor_element`
    /// armour with a `weapon_element` weapon: the value of the first rule
    /// `[armour prefix, weapon prefix]` that matches, or 0.0.
    pub fn calculate_self_penalty(&self, armor_element: &ElementType, weapon_element: &ElementType) -> (bits:
        u32)
        ensures
            ({
                let rules = self.spec_config().mutual_exclusion.self_conflicts@;
                let a = armor_element.spec_key();
                let w = weapon_element.spec_key();
                &&& (forall|j: int| 0 <= j < rules.len() ==> !#[trigger] self_rule_hits(rules[j], a, w))
                    ==> bits == ZERO_BITS
                &&& forall|i: int|
                    0 <= i < rules.len() && self_rule_hits(rules[i], a, w) && (forall|j: int|
                        0 <= j < i ==> !#[trigger] self_rule_hits(rules[j], a, w)) ==> bits
                        == rules[i].value_bits
            }),
    {
        match self.find_self_conflict(armor_element, weapon_element) {
            Some(i) => self.config.mutual_exclusion.self_conflicts[i].value_bits,
            None => ZERO_BITS,
        }
    }

    /// Index of the first teammate combination hit by the element pair, if
    /// teammate rules are configured.
    pub fn find_teammate_conflict(&self, element_a: &ElementType, element_b: &ElementType) -> (r:
        Option<usize>)
        ensures
            match self.spec_config().mutual_exclusion.teammate_conflicts {
                None => r is None,
                Some(rules) => {
                    let cs = rules.combinations@;
                    match r {
                        Some(i) => i < cs.len() && combo_hits(
                            cs[i as int],
                            element_a.spec_key(),
                            element_b.spec_key(),
                        ) && forall|j: int|
                            0 <= j < i ==> !#[trigger] combo_hits(
                                cs[j],
                                element_a.spec_key(),
                                element_b.spec_key(),
                            ),
                        None => forall|j: int|
                            0 <= j < cs.len() ==> !#[trigger] combo_hits(
                                cs[j],
                                element_a.spec_key(),
                                element_b.spec_key(),
                            ),
                    }
                },
            },
    {
        let rules = match &self.config.mutual_exclusion.teammate_conflicts {
            Some(rules) => rules,
            None => {
                return None;
            },
        };
        let key_a = element_a.key();
        let key_b = element_b.key();
        let n = rules.combinations.len();
        let mut i: usize = 0;
        while i < n
            invariant
                n == rules.combinations@.len(),
                self.spec_config().mutual_exclusion.teammate_conflicts == Some(*rules),
                key_a@ == element_a.spec_key(),
                key_b@ == element_b.spec_key(),
                i <= n,
                forall|j: int|
                    0 <= j < i ==> !#[trigger] combo_hits(rules.combinations@[j], key_a@, key_b@),
            decreases n - i,
        {
            if pair_matches(&rules.combinations[i].elements, key_a, key_b) {
                return Some(i);
            }
            i = i + 1;
        }
        None
    }

    /// Which teammate penalty applies between players carrying `element_a`
    /// and `element_b`: no penalty when teammate rules are absent or no
    /// combination matches; otherwise the configured radius, the first
    /// matching combination's maximum and the falloff curve ("linear" is
    /// linear, any other name is a constant penalty inside the radius).
    pub fn teammate_penalty_rule(&self, element_a: &ElementType, element_b: &ElementType) -> (p:
        TeammatePenalty)
        ensures
            match self.spec_config().mutual_exclusion.teammate_conflicts {
                None => p == TeammatePenalty::NoPenalty,
                Some(rules) => {
                    let cs = rules.combinations@;
                    let a = element_a.spec_key();
                    let b = element_b.spec_key();
                    &&& (forall|j: int| 0 <= j < cs.len() ==> !#[trigger] combo_hits(cs[j], a, b))
                        ==> p == TeammatePenalty::NoPenalty
                    &&& forall|i: int|
                        0 <= i < cs.len() && combo_hits(cs[i], a, b) && (forall|j: int|
                            0 <= j < i ==> !#[trigger] combo_hits(cs[j], a, b)) ==> p
                            == (TeammatePenalty::Within {
                                radius_bits: rules.radius_bits,
                                max_value_bits: cs[i].max_value_bits,
                                falloff: if rules.falloff@ == "linear"@ {
                                    Falloff::Linear
                                } else {
                                    Falloff::Constant
                                },
                            })
                },
            },
    {
        match self.find_teammate_conflict(element_a, element_b) {
            None => TeammatePenalty::NoPenalty,
            Some(i) => {
                let rules = self.config.mutual_exclusion.teammate_conflicts.as_ref().unwrap();
                let falloff = if str_eq(rules.falloff.as_str(), "linear") {
                    Falloff::Linear
                } else {
                    Falloff::Constant
                };
                TeammatePenalty::Within {
                    radius_bits: rules.radius_bits,
                    max_value_bits: rules.combinations[i].max_value_bits,
                    falloff,
                }
            },
        }
    }

    /// Index of the first synergy rule called `synergy_name`.
    pub fn find_synergy(&self, synergy_name: &str) -> (r: Option<usize>)
        ensures
            ({
                let ss = self.spec_config().synergies@;
                match r {
                    Some(i) => i < ss.len() && ss[i as int].name@ == synergy_name@ && forall|j: int|
                        0 <= j < i ==> (#[trigger] ss[j]).name@ != synergy_name@,
                    None => forall|j: int| 0 <= j < ss.len() ==> (#[trigger] ss[j]).name@ != synergy_name@,
                }
            }),
    {
        let ss = &self.config.synergies;
        let n = ss.len();
        let mut i: usize = 0;
        while i < n
            invariant
                n == ss@.len(),
                ss == &self.spec_config().synergies,
                i <= n,
                forall|j: int| 0 <= j < i ==> (#[trigger] ss@[j]).name@ != synergy_name@,
            decreases n - i,
        {
            if str_eq(ss[i].name.as_str(), synergy_name) {
                return Some(i);
            }
            i = i + 1;
        }
        None
    }

    /// The condition of the first synergy called `synergy_name`: only
    /// "three_fire_players_spaced" is known; a missing synergy or an unknown
    /// condition never triggers.
    pub fn synergy_condition(&self, synergy_name: &str) -> (c: SynergyCondition)
        ensures
            ({
                let ss = self.spec_config().synergies@;
                &&& (forall|j: int| 0 <= j < ss.len() ==> (#[trigger] ss[j]).name@ != synergy_name@)
                    ==> c == SynergyCondition::Never
                &&& forall|i: int|
                    0 <= i < ss.len() && ss[i].name@ == synergy_name@ && (forall|j: int|
                        0 <= j < i ==> (#[trigger] ss[j]).name@ != synergy_name@) ==> c == if ss[i].condition@
                        == "three_fire_players_spaced"@ {
                        SynergyCondition::ThreeFirePlayersSpaced
                    } else {
                        SynergyCondition::Never
                    }
            }),
    {
        match self.find_synergy(synergy_name) {
            None => SynergyCondition::Never,
            Some(i) => {
                if str_eq(self.config.synergies[i].condition.as_str(), "three_fire_players_spaced") {
                    SynergyCondition::ThreeFirePlayersSpaced
                } else {
                    SynergyCondition::Never
                }
            },
        }
    }
}

} // verus!

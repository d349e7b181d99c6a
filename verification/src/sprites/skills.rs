use vstd::prelude::*;

use super::attributes::{Attribute, SkillType};

verus! {

/// A skill as configured for a sprite.
#[derive(Debug, Clone)]
pub struct Skill {
    pub id: u64,
    /// Display name.
    pub name: String,
    /// Display text.
    pub description: String,
    pub skill_type: SkillType,
    pub attribute: Attribute,
    /// Uses left.
    pub pp: u16,
    /// Uses when fresh.
    pub max_pp: u16,
    /// Base power.
    pub power: u16,
    /// Whether the skill strikes first.
    pub is_preemptive: bool,
    /// Extra effect, if any.
    pub special_effect: Option<SkillSpecialEffect>,
}

/// What a skill does besides damage.
#[derive(Debug, Clone, Copy)]
pub enum SkillSpecialEffect {
    /// Raises a stat.
    BoostAttribute,
    /// Lowers a stat.
    ReduceAttribute,
    /// Inflicts a status condition.
    StatusEffect,
}

} // verus!

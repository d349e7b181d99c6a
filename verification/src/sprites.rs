use vstd::prelude::*;

pub mod attributes;
pub mod skills;

use skills::Skill;

verus! {

/// One sprite of a player's team, with its current stats.
#[derive(Debug, Clone)]
pub struct Sprite {
    pub id: u64,
    pub level: u8,
    /// Experience gathered at this level.
    pub exp: u32,
    /// Experience at which the level rises.
    pub max_exp: u32,
    /// Health left; a sprite with none has fainted.
    pub hp: u16,
    /// Health when fresh.
    pub max_hp: u16,
    /// Physical attack.
    pub phy_atk: u16,
    /// Physical defence.
    pub phy_def: u16,
    /// Magical attack.
    pub mag_atk: u16,
    /// Magical defence.
    pub mag_def: u16,
    pub speed: u16,
    /// The skills it carries.
    pub skills: Vec<Skill>,
}

} // verus!

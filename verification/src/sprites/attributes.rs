use vstd::prelude::*;

verus! {

/// How a skill deals its damage.
#[derive(Debug, Clone, Copy)]
pub enum SkillType {
    /// Physical attack.
    Physical,
    /// Magical attack.
    Magical,
}

/// The element of a skill or sprite.
#[derive(Debug, Clone, Copy, PartialEq, Eq, Hash, Structural)]
pub enum Attribute {
    /// Metal.
    Jin,
    /// Wood.
    Mu,
    /// Water.
    Shui,
    /// Fire.
    Huo,
    /// Earth.
    Tu,
    /// Wing.
    Yi,
    /// Monster.
    Guai,
    /// Demon.
    Mo,
    /// Fiend.
    Yao,
    /// Phoenix.
    Feng,
    /// Poison.
    Du,
    /// Thunder.
    Lei,
    /// Illusion.
    Huan,
    /// Ice.
    Bing,
    /// Spirit.
    Ling,
    /// Machine.
    JiXie,
    /// Fire and wind.
    Huofeng,
    /// Wood and spirit.
    Wuling,
    /// Holy.
    Seng,
    /// Earth and illusion.
    Tonghuan,
    /// Water and fiend.
    ShuiYao,
    /// Sound.
    Yin,
    /// Special.
    Special,
    /// No element.
    Plain,
}

impl Default for Attribute {
    fn default() -> (attribute: Self)
        ensures
            attribute == Attribute::Plain,
    {
        Attribute::Plain
    }
}

} // verus!

use vstd::prelude::*;

verus! {

/// A status condition on a player's active sprite. A player carries at most
/// one condition at a time.
#[derive(Debug, Clone, Copy, PartialEq, Eq, Structural)]
pub enum ExceptionEffect {
    /// No condition.
    Normal,
    /// Knocked out for the moment.
    Stun,
    /// Worn out.
    Fatigue,
    /// Paralysed: the sprite cannot act.
    Numbness,
    /// Frozen: the sprite cannot act.
    Freeze,
    /// Poisoned.
    Poisoning,
    /// Bleeding.
    Bleeding,
    /// Suffocating.
    Sinking,
    /// Burnt.
    Burn,
    /// Badly poisoned.
    HighlyToxic,
}

impl ExceptionEffect {
    /// The conditions under which a sprite cannot submit an action: any one
    /// of them is enough.
    pub open spec fn spec_prevents_action(self) -> bool {
        self is Numbness || self is Freeze
    }

    /// Whether a sprite under this condition is kept from acting.
    #[verifier::when_used_as_spec(spec_prevents_action)]
    pub fn prevents_action(self) -> (blocked: bool)
        ensures
            blocked == self.spec_prevents_action(),
    {
        match self {
            ExceptionEffect::Numbness => true,
            ExceptionEffect::Freeze => true,
            _ => false,
        }
    }
}

impl Default for ExceptionEffect {
    fn default() -> (effect: Self)
        ensures
            effect == ExceptionEffect::Normal,
    {
        ExceptionEffect::Normal
    }
}

} // verus!

//! Bonuses: how much of one stat an item grants.

use vstd::prelude::*;

use crate::domain::stat::Stat;

verus! {

/// An amount of one stat that an item grants to its wearer.
#[derive(Debug, Clone, Copy, PartialEq, Eq, Structural)]
pub struct ItemBonus {
    /// The stat that is raised.
    pub stat: Stat,
    /// By how much it is raised.
    pub value: u16,
}

} // verus!

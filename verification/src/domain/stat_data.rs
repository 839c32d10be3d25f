//! What a template has of one stat.

use vstd::prelude::*;

use crate::domain::stat::Stat;

verus! {

/// How much of a stat a template has, and how much of it the template can put
/// to use.
#[derive(Debug, Clone, Copy, PartialEq, Eq, Structural)]
pub struct StatData {
    /// The stat.
    pub stat: Stat,
    /// How much of the stat the items of the template grant.
    pub value: u16,
    /// The most of the stat that the template can put to use.
    pub cap: u16,
}

impl StatData {
    /// Makes the entry of a stat of which a template has nothing yet: its
    /// value is 0, and its cap that of the stat.
    pub fn new(stat: Stat) -> (data: StatData)
        ensures
            data == (StatData { stat, value: 0, cap: stat.spec_cap() as u16 }),
    {
        StatData { stat, value: 0, cap: stat.cap() }
    }
}

} // verus!

//! The categories into which stats fall.

use vstd::prelude::*;

verus! {

/// The category of a stat. Stats of one category are shown and capped together.
#[derive(Debug, Clone, Copy, PartialEq, Eq, Hash, Structural)]
pub enum StatCategory {
    /// Attributes of the body, such as strength.
    PhysicalStats,
    /// Attributes that casters cast from, such as intelligence.
    AcuityStats,
    /// Cap increases of the attributes of the body.
    PhysicalStatCaps,
    /// Cap increases of the attributes that casters cast from.
    AcuityStatCaps,
    /// Resistances against one kind of damage.
    Resists,
    /// Magic skill lines.
    MagicSkills,
    /// Melee skill lines.
    MeleeSkills,
    /// Archery skill lines.
    ArcherySkills,
    /// Dual wielding skill lines.
    DualWieldingSkills,
    /// Skill lines of no other category, such as stealth.
    OtherSkills,
    /// Bonuses such as spell duration.
    ToaBonuses,
    /// Stats of no other category.
    OtherStats,
}

impl StatCategory {
    /// The numeric identifier of the category.
    pub open spec fn spec_id(&self) -> u16 {
        match self {
            StatCategory::PhysicalStats => 0,
            StatCategory::AcuityStats => 1,
            StatCategory::PhysicalStatCaps => 2,
            StatCategory::AcuityStatCaps => 3,
            StatCategory::Resists => 4,
            StatCategory::MagicSkills => 5,
            StatCategory::MeleeSkills => 6,
            StatCategory::ArcherySkills => 7,
            StatCategory::DualWieldingSkills => 8,
            StatCategory::OtherSkills => 9,
            StatCategory::ToaBonuses => 10,
            StatCategory::OtherStats => 11,
        }
    }

    /// Returns the numeric identifier of the category.
    #[verifier::when_used_as_spec(spec_id)]
    pub fn id(&self) -> (id: u16)
        ensures
            id == self.spec_id(),
    {
        match self {
            StatCategory::PhysicalStats => 0,
            StatCategory::AcuityStats => 1,
            StatCategory::PhysicalStatCaps => 2,
            StatCategory::AcuityStatCaps => 3,
            StatCategory::Resists => 4,
            StatCategory::MagicSkills => 5,
            StatCategory::MeleeSkills => 6,
            StatCategory::ArcherySkills => 7,
            StatCategory::DualWieldingSkills => 8,
            StatCategory::OtherSkills => 9,
            StatCategory::ToaBonuses => 10,
            StatCategory::OtherStats => 11,
        }
    }

    /// Finds the category with identifier `id`, if there is one.
    pub fn from_repr(id: u16) -> (category: Option<StatCategory>)
        ensures
            category == Self::spec_from_repr(id),
            match category {
                Some(c) => c.spec_id() == id,
                None => forall|c: StatCategory| c.spec_id() != id,
            },
    {
        let category = match id {
            0u16 => Some(StatCategory::PhysicalStats),
            1u16 => Some(StatCategory::AcuityStats),
            2u16 => Some(StatCategory::PhysicalStatCaps),
            3u16 => Some(StatCategory::AcuityStatCaps),
            4u16 => Some(StatCategory::Resists),
            5u16 => Some(StatCategory::MagicSkills),
            6u16 => Some(StatCategory::MeleeSkills),
            7u16 => Some(StatCategory::ArcherySkills),
            8u16 => Some(StatCategory::DualWieldingSkills),
            9u16 => Some(StatCategory::OtherSkills),
            10u16 => Some(StatCategory::ToaBonuses),
            11u16 => Some(StatCategory::OtherStats),
            _ => None,
        };
        proof {
            if let Some(found) = category {
                assert(found.spec_id() == id);
                let c = choose|c: StatCategory| c.spec_id() == id;
                assert(c.spec_id() == id);
                assert(c == found);
            }
        }
        category
    }

    /// The one with identifier `id`, if there is one.
    pub open spec fn spec_from_repr(id: u16) -> Option<StatCategory> {
        if exists|c: StatCategory| c.spec_id() == id {
            Some(choose|c: StatCategory| c.spec_id() == id)
        } else {
            None
        }
    }
}

} // verus!

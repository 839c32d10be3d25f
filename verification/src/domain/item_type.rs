//! The types of items: the kinds of weapon, armor and jewelry.

use vstd::prelude::*;

verus! {

/// The type of an item: what kind of weapon, armor or jewelry it is.
#[derive(Debug, Clone, Copy, PartialEq, Eq, Hash, Structural)]
pub enum ItemSlot {
    /// The crush type.
    Crush,
    /// The slash type.
    Slash,
    /// The thrust type.
    Thrust,
    /// The short bow type.
    ShortBow,
    /// The two handed type.
    TwoHanded,
    /// The polearm type.
    Polearm,
    /// The staff type.
    Staff,
    /// The long bow type.
    LongBow,
    /// The crossbow type.
    Crossbow,
    /// The sword type.
    Sword,
    /// The hammer type.
    Hammer,
    /// The axe type.
    Axe,
    /// The spear type.
    Spear,
    /// The composite bow type.
    CompositeBow,
    /// The left axe type.
    LeftAxe,
    /// The recurve bow type.
    RecurveBow,
    /// The blade type.
    Blade,
    /// The blunt type.
    Blunt,
    /// The piercing type.
    Piercing,
    /// The large weapon type.
    LargeWeapon,
    /// The celtic spear type.
    CelticSpear,
    /// The flexible type.
    Flexible,
    /// The hand to hand type.
    HandToHand,
    /// The scythe type.
    Scythe,
    /// The mauler fist wrap type.
    MaulerFistWrap,
    /// The mauler staff type.
    MaulerStaff,
    /// The magical type.
    Magical,
    /// The cloth type.
    Cloth,
    /// The leather type.
    Leather,
    /// The studded type.
    Studded,
    /// The chain type.
    Chain,
    /// The plate type.
    Plate,
    /// The reinforced type.
    Reinforced,
    /// The scale type.
    Scale,
    /// The jewelry type.
    Jewelry,
    /// The shield type.
    Shield,
    /// The instrument type.
    Instrument,
    /// A type that is not known.
    Unknown,
}

impl ItemSlot {
    /// The numeric identifier of the item type.
    pub open spec fn spec_id(&self) -> u16 {
        match self {
            ItemSlot::Crush => 2,
            ItemSlot::Slash => 3,
            ItemSlot::Thrust => 4,
            ItemSlot::ShortBow => 5,
            ItemSlot::TwoHanded => 6,
            ItemSlot::Polearm => 7,
            ItemSlot::Staff => 8,
            ItemSlot::LongBow => 9,
            ItemSlot::Crossbow => 10,
            ItemSlot::Sword => 11,
            ItemSlot::Hammer => 12,
            ItemSlot::Axe => 13,
            ItemSlot::Spear => 14,
            ItemSlot::CompositeBow => 15,
            ItemSlot::LeftAxe => 17,
            ItemSlot::RecurveBow => 18,
            ItemSlot::Blade => 19,
            ItemSlot::Blunt => 20,
            ItemSlot::Piercing => 21,
            ItemSlot::LargeWeapon => 22,
            ItemSlot::CelticSpear => 23,
            ItemSlot::Flexible => 24,
            ItemSlot::HandToHand => 25,
            ItemSlot::Scythe => 26,
            ItemSlot::MaulerFistWrap => 27,
            ItemSlot::MaulerStaff => 28,
            ItemSlot::Magical => 29,
            ItemSlot::Cloth => 32,
            ItemSlot::Leather => 33,
            ItemSlot::Studded => 34,
            ItemSlot::Chain => 35,
            ItemSlot::Plate => 36,
            ItemSlot::Reinforced => 37,
            ItemSlot::Scale => 38,
            ItemSlot::Jewelry => 41,
            ItemSlot::Shield => 42,
            ItemSlot::Instrument => 45,
            ItemSlot::Unknown => 1000,
        }
    }

    /// Returns the numeric identifier of the item type.
    #[verifier::when_used_as_spec(spec_id)]
    pub fn id(&self) -> (id: u16)
        ensures
            id == self.spec_id(),
    {
        match self {
            ItemSlot::Crush => 2,
            ItemSlot::Slash => 3,
            ItemSlot::Thrust => 4,
            ItemSlot::ShortBow => 5,
            ItemSlot::TwoHanded => 6,
            ItemSlot::Polearm => 7,
            ItemSlot::Staff => 8,
            ItemSlot::LongBow => 9,
            ItemSlot::Crossbow => 10,
            ItemSlot::Sword => 11,
            ItemSlot::Hammer => 12,
            ItemSlot::Axe => 13,
            ItemSlot::Spear => 14,
            ItemSlot::CompositeBow => 15,
            ItemSlot::LeftAxe => 17,
            ItemSlot::RecurveBow => 18,
            ItemSlot::Blade => 19,
            ItemSlot::Blunt => 20,
            ItemSlot::Piercing => 21,
            ItemSlot::LargeWeapon => 22,
            ItemSlot::CelticSpear => 23,
            ItemSlot::Flexible => 24,
            ItemSlot::HandToHand => 25,
            ItemSlot::Scythe => 26,
            ItemSlot::MaulerFistWrap => 27,
            ItemSlot::MaulerStaff => 28,
            ItemSlot::Magical => 29,
            ItemSlot::Cloth => 32,
            ItemSlot::Leather => 33,
            ItemSlot::Studded => 34,
            ItemSlot::Chain => 35,
            ItemSlot::Plate => 36,
            ItemSlot::Reinforced => 37,
            ItemSlot::Scale => 38,
            ItemSlot::Jewelry => 41,
            ItemSlot::Shield => 42,
            ItemSlot::Instrument => 45,
            ItemSlot::Unknown => 1000,
        }
    }

    /// Finds the item type with identifier `id`, if there is one.
    pub fn from_repr(id: u16) -> (item_type: Option<ItemSlot>)
        ensures
            item_type == Self::spec_from_repr(id),
            match item_type {
                Some(t) => t.spec_id() == id,
                None => forall|t: ItemSlot| t.spec_id() != id,
            },
    {
        let item_type = match id {
            2u16 => Some(ItemSlot::Crush),
            3u16 => Some(ItemSlot::Slash),
            4u16 => Some(ItemSlot::Thrust),
            5u16 => Some(ItemSlot::ShortBow),
            6u16 => Some(ItemSlot::TwoHanded),
            7u16 => Some(ItemSlot::Polearm),
            8u16 => Some(ItemSlot::Staff),
            9u16 => Some(ItemSlot::LongBow),
            10u16 => Some(ItemSlot::Crossbow),
            11u16 => Some(ItemSlot::Sword),
            12u16 => Some(ItemSlot::Hammer),
            13u16 => Some(ItemSlot::Axe),
            14u16 => Some(ItemSlot::Spear),
            15u16 => Some(ItemSlot::CompositeBow),
            17u16 => Some(ItemSlot::LeftAxe),
            18u16 => Some(ItemSlot::RecurveBow),
            19u16 => Some(ItemSlot::Blade),
            20u16 => Some(ItemSlot::Blunt),
            21u16 => Some(ItemSlot::Piercing),
            22u16 => Some(ItemSlot::LargeWeapon),
            23u16 => Some(ItemSlot::CelticSpear),
            24u16 => Some(ItemSlot::Flexible),
            25u16 => Some(ItemSlot::HandToHand),
            26u16 => Some(ItemSlot::Scythe),
            27u16 => Some(ItemSlot::MaulerFistWrap),
            28u16 => Some(ItemSlot::MaulerStaff),
            29u16 => Some(ItemSlot::Magical),
            32u16 => Some(ItemSlot::Cloth),
            33u16 => Some(ItemSlot::Leather),
            34u16 => Some(ItemSlot::Studded),
            35u16 => Some(ItemSlot::Chain),
            36u16 => Some(ItemSlot::Plate),
            37u16 => Some(ItemSlot::Reinforced),
            38u16 => Some(ItemSlot::Scale),
            41u16 => Some(ItemSlot::Jewelry),
            42u16 => Some(ItemSlot::Shield),
            45u16 => Some(ItemSlot::Instrument),
            1000u16 => Some(ItemSlot::Unknown),
            _ => None,
        };
        proof {
            if let Some(found) = item_type {
                assert(found.spec_id() == id);
                let c = choose|c: ItemSlot| c.spec_id() == id;
                assert(c.spec_id() == id);
                assert(c == found);
            }
        }
        item_type
    }

    /// The one with identifier `id`, if there is one.
    pub open spec fn spec_from_repr(id: u16) -> Option<ItemSlot> {
        if exists|c: ItemSlot| c.spec_id() == id {
            Some(choose|c: ItemSlot| c.spec_id() == id)
        } else {
            None
        }
    }
}

} // verus!

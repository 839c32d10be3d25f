//! The slots of a template, each of which holds one item.

use vstd::prelude::*;

verus! {

/// A slot of a template.
#[derive(Debug, Clone, Copy, PartialEq, Eq, Hash, Structural)]
pub enum ItemSlot {
    /// The head slot.
    Head,
    /// The hands slot.
    Hands,
    /// The feet slot.
    Feet,
    /// The chest slot.
    Chest,
    /// The legs slot.
    Legs,
    /// The arms slot.
    Arms,
    /// The jewel slot.
    Jewel,
    /// The cloak slot.
    Cloak,
    /// The necklace slot.
    Necklace,
    /// The belt slot.
    Belt,
    /// The bracer slot.
    Bracer,
    /// The second bracer slot. The game knows no such slot: a bracer is made for
    /// `Bracer`, and a character wears two.
    Bracer2,
    /// The ring slot.
    Ring,
    /// The second ring slot. The game knows no such slot: a ring is made for
    /// `Ring`, and a character wears two.
    Ring2,
    /// The right hand slot.
    RightHand,
    /// The left hand slot.
    LeftHand,
    /// The two handed slot.
    TwoHanded,
    /// The ranged slot.
    Ranged,
}

/// The number of slots.
pub const SLOT_COUNT: usize = 18;

impl ItemSlot {
    /// The numeric identifier of the slot.
    pub open spec fn spec_id(&self) -> i32 {
        match self {
            ItemSlot::Head => 21,
            ItemSlot::Hands => 22,
            ItemSlot::Feet => 23,
            ItemSlot::Chest => 25,
            ItemSlot::Legs => 27,
            ItemSlot::Arms => 28,
            ItemSlot::Jewel => 24,
            ItemSlot::Cloak => 26,
            ItemSlot::Necklace => 29,
            ItemSlot::Belt => 32,
            ItemSlot::Bracer => 33,
            ItemSlot::Bracer2 => 34,
            ItemSlot::Ring => 35,
            ItemSlot::Ring2 => 36,
            ItemSlot::RightHand => 10,
            ItemSlot::LeftHand => 11,
            ItemSlot::TwoHanded => 12,
            ItemSlot::Ranged => 13,
        }
    }

    /// Returns the numeric identifier of the slot.
    #[verifier::when_used_as_spec(spec_id)]
    pub fn id(&self) -> (id: i32)
        ensures
            id == self.spec_id(),
            10 <= id <= 36,
    {
        match self {
            ItemSlot::Head => 21,
            ItemSlot::Hands => 22,
            ItemSlot::Feet => 23,
            ItemSlot::Chest => 25,
            ItemSlot::Legs => 27,
            ItemSlot::Arms => 28,
            ItemSlot::Jewel => 24,
            ItemSlot::Cloak => 26,
            ItemSlot::Necklace => 29,
            ItemSlot::Belt => 32,
            ItemSlot::Bracer => 33,
            ItemSlot::Bracer2 => 34,
            ItemSlot::Ring => 35,
            ItemSlot::Ring2 => 36,
            ItemSlot::RightHand => 10,
            ItemSlot::LeftHand => 11,
            ItemSlot::TwoHanded => 12,
            ItemSlot::Ranged => 13,
        }
    }

    /// Finds the slot with identifier `id`, if there is one.
    pub fn from_repr(id: u16) -> (slot: Option<ItemSlot>)
        ensures
            slot == Self::spec_from_repr(id),
            match slot {
                Some(s) => s.spec_id() == id,
                None => forall|s: ItemSlot| s.spec_id() != id,
            },
    {
        let slot = match id {
            21u16 => Some(ItemSlot::Head),
            22u16 => Some(ItemSlot::Hands),
            23u16 => Some(ItemSlot::Feet),
            25u16 => Some(ItemSlot::Chest),
            27u16 => Some(ItemSlot::Legs),
            28u16 => Some(ItemSlot::Arms),
            24u16 => Some(ItemSlot::Jewel),
            26u16 => Some(ItemSlot::Cloak),
            29u16 => Some(ItemSlot::Necklace),
            32u16 => Some(ItemSlot::Belt),
            33u16 => Some(ItemSlot::Bracer),
            34u16 => Some(ItemSlot::Bracer2),
            35u16 => Some(ItemSlot::Ring),
            36u16 => Some(ItemSlot::Ring2),
            10u16 => Some(ItemSlot::RightHand),
            11u16 => Some(ItemSlot::LeftHand),
            12u16 => Some(ItemSlot::TwoHanded),
            13u16 => Some(ItemSlot::Ranged),
            _ => None,
        };
        proof {
            if let Some(s) = slot {
                assert(s.spec_id() == id);
                let c = choose|c: ItemSlot| c.spec_id() == id;
                assert(c.spec_id() == id);
                assert(c == s);
            }
        }
        slot
    }

    /// The slot with identifier `id`, if there is one.
    pub open spec fn spec_from_repr(id: u16) -> Option<ItemSlot> {
        if exists|s: ItemSlot| s.spec_id() == id {
            Some(choose|s: ItemSlot| s.spec_id() == id)
        } else {
            None
        }
    }

    /// The slot whose identifier is the number `number`, if there is one. The
    /// number is taken as it is: a number that no slot has names no slot.
    pub open spec fn spec_with_id(number: int) -> Option<ItemSlot> {
        if exists|s: ItemSlot| s.spec_id() == number {
            Some(choose|s: ItemSlot| s.spec_id() == number)
        } else {
            None
        }
    }

    /// Finds the slot whose identifier is the number `number`, if there is
    /// one. A number below 0 or beyond the identifiers names no slot.
    pub fn with_id(number: i32) -> (slot: Option<ItemSlot>)
        ensures
            slot == Self::spec_with_id(number as int),
            match slot {
                Some(s) => s.spec_id() == number,
                None => forall|s: ItemSlot| s.spec_id() != number,
            },
    {
        if number < 0 || number > 0xffff {
            assert forall|s: ItemSlot| s.spec_id() != number by {
                assert(10 <= s.spec_id() <= 36);
            }
            return None;
        }
        let slot = ItemSlot::from_repr(number as u16);
        proof {
            if let Some(s) = slot {
                assert(s.spec_id() == number);
                let c = choose|c: ItemSlot| c.spec_id() == number as int;
                assert(c.spec_id() == number);
                assert(c == s);
            }
        }
        slot
    }

    /// The place of the slot among all slots, counted from 0.
    pub open spec fn spec_index(&self) -> int {
        match self {
            ItemSlot::Head => 0,
            ItemSlot::Hands => 1,
            ItemSlot::Feet => 2,
            ItemSlot::Chest => 3,
            ItemSlot::Legs => 4,
            ItemSlot::Arms => 5,
            ItemSlot::Jewel => 6,
            ItemSlot::Cloak => 7,
            ItemSlot::Necklace => 8,
            ItemSlot::Belt => 9,
            ItemSlot::Bracer => 10,
            ItemSlot::Bracer2 => 11,
            ItemSlot::Ring => 12,
            ItemSlot::Ring2 => 13,
            ItemSlot::RightHand => 14,
            ItemSlot::LeftHand => 15,
            ItemSlot::TwoHanded => 16,
            ItemSlot::Ranged => 17,
        }
    }

    /// Returns the place of the slot among all slots, counted from 0.
    pub fn index(&self) -> (index: usize)
        ensures
            index == self.spec_index(),
            index < SLOT_COUNT,
    {
        match self {
            ItemSlot::Head => 0,
            ItemSlot::Hands => 1,
            ItemSlot::Feet => 2,
            ItemSlot::Chest => 3,
            ItemSlot::Legs => 4,
            ItemSlot::Arms => 5,
            ItemSlot::Jewel => 6,
            ItemSlot::Cloak => 7,
            ItemSlot::Necklace => 8,
            ItemSlot::Belt => 9,
            ItemSlot::Bracer => 10,
            ItemSlot::Bracer2 => 11,
            ItemSlot::Ring => 12,
            ItemSlot::Ring2 => 13,
            ItemSlot::RightHand => 14,
            ItemSlot::LeftHand => 15,
            ItemSlot::TwoHanded => 16,
            ItemSlot::Ranged => 17,
        }
    }

    /// Finds the slot at place `index`, if there is one.
    pub fn from_index(index: usize) -> (slot: Option<ItemSlot>)
        ensures
            match slot {
                Some(s) => s.spec_index() == index,
                None => index >= SLOT_COUNT,
            },
    {
        match index {
            0usize => Some(ItemSlot::Head),
            1usize => Some(ItemSlot::Hands),
            2usize => Some(ItemSlot::Feet),
            3usize => Some(ItemSlot::Chest),
            4usize => Some(ItemSlot::Legs),
            5usize => Some(ItemSlot::Arms),
            6usize => Some(ItemSlot::Jewel),
            7usize => Some(ItemSlot::Cloak),
            8usize => Some(ItemSlot::Necklace),
            9usize => Some(ItemSlot::Belt),
            10usize => Some(ItemSlot::Bracer),
            11usize => Some(ItemSlot::Bracer2),
            12usize => Some(ItemSlot::Ring),
            13usize => Some(ItemSlot::Ring2),
            14usize => Some(ItemSlot::RightHand),
            15usize => Some(ItemSlot::LeftHand),
            16usize => Some(ItemSlot::TwoHanded),
            17usize => Some(ItemSlot::Ranged),
            _ => None,
        }
    }

    /// Every slot, each at its place.
    pub open spec fn spec_all() -> Seq<ItemSlot> {
        seq![
            ItemSlot::Head,
            ItemSlot::Hands,
            ItemSlot::Feet,
            ItemSlot::Chest,
            ItemSlot::Legs,
            ItemSlot::Arms,
            ItemSlot::Jewel,
            ItemSlot::Cloak,
            ItemSlot::Necklace,
            ItemSlot::Belt,
            ItemSlot::Bracer,
            ItemSlot::Bracer2,
            ItemSlot::Ring,
            ItemSlot::Ring2,
            ItemSlot::RightHand,
            ItemSlot::LeftHand,
            ItemSlot::TwoHanded,
            ItemSlot::Ranged,
        ]
    }

    /// Returns every slot once, each at its place.
    pub fn all() -> (slots: Vec<ItemSlot>)
        ensures
            slots@ == Self::spec_all(),
            slots@.len() == SLOT_COUNT,
            forall|s: ItemSlot| #[trigger] slots@[s.spec_index()] == s,
    {
        let slots = vec![
            ItemSlot::Head,
            ItemSlot::Hands,
            ItemSlot::Feet,
            ItemSlot::Chest,
            ItemSlot::Legs,
            ItemSlot::Arms,
            ItemSlot::Jewel,
            ItemSlot::Cloak,
            ItemSlot::Necklace,
            ItemSlot::Belt,
            ItemSlot::Bracer,
            ItemSlot::Bracer2,
            ItemSlot::Ring,
            ItemSlot::Ring2,
            ItemSlot::RightHand,
            ItemSlot::LeftHand,
            ItemSlot::TwoHanded,
            ItemSlot::Ranged,
        ];
        assert(slots@ =~= Self::spec_all());
        slots
    }

    /// The name under which the solver knows the slot.
    pub open spec fn spec_name(&self) -> Seq<char> {
        match self {
            ItemSlot::Head => "head"@,
            ItemSlot::Hands => "hands"@,
            ItemSlot::Feet => "feet"@,
            ItemSlot::Chest => "chest"@,
            ItemSlot::Legs => "legs"@,
            ItemSlot::Arms => "arms"@,
            ItemSlot::Jewel => "jewel"@,
            ItemSlot::Cloak => "cloak"@,
            ItemSlot::Necklace => "necklace"@,
            ItemSlot::Belt => "belt"@,
            ItemSlot::Bracer => "bracer"@,
            ItemSlot::Bracer2 => "bracer"@,
            ItemSlot::Ring => "ring"@,
            ItemSlot::Ring2 => "ring"@,
            ItemSlot::RightHand => "right_hand"@,
            ItemSlot::LeftHand => "left_hand"@,
            ItemSlot::TwoHanded => "two_handed"@,
            ItemSlot::Ranged => "ranged"@,
        }
    }

    /// Returns the name under which the solver knows the slot. The second
    /// bracer and ring slots go by the names of the first, since the same
    /// items fit them.
    pub fn name(&self) -> (name: &'static str)
        ensures
            name@ == self.spec_name(),
    {
        match self {
            ItemSlot::Head => "head",
            ItemSlot::Hands => "hands",
            ItemSlot::Feet => "feet",
            ItemSlot::Chest => "chest",
            ItemSlot::Legs => "legs",
            ItemSlot::Arms => "arms",
            ItemSlot::Jewel => "jewel",
            ItemSlot::Cloak => "cloak",
            ItemSlot::Necklace => "necklace",
            ItemSlot::Belt => "belt",
            ItemSlot::Bracer => "bracer",
            ItemSlot::Bracer2 => "bracer",
            ItemSlot::Ring => "ring",
            ItemSlot::Ring2 => "ring",
            ItemSlot::RightHand => "right_hand",
            ItemSlot::LeftHand => "left_hand",
            ItemSlot::TwoHanded => "two_handed",
            ItemSlot::Ranged => "ranged",
        }
    }

    /// The name under which a reader knows the slot.
    pub open spec fn spec_to_string(&self) -> Seq<char> {
        match self {
            ItemSlot::Head => "Head"@,
            ItemSlot::Hands => "Hands"@,
            ItemSlot::Feet => "Feet"@,
            ItemSlot::Chest => "Chest"@,
            ItemSlot::Legs => "Legs"@,
            ItemSlot::Arms => "Arms"@,
            ItemSlot::Jewel => "Jewel"@,
            ItemSlot::Cloak => "Cloak"@,
            ItemSlot::Necklace => "Necklace"@,
            ItemSlot::Belt => "Belt"@,
            ItemSlot::Bracer => "Bracer"@,
            ItemSlot::Bracer2 => "Bracer"@,
            ItemSlot::Ring => "Ring"@,
            ItemSlot::Ring2 => "Ring"@,
            ItemSlot::RightHand => "RightHand"@,
            ItemSlot::LeftHand => "LeftHand"@,
            ItemSlot::TwoHanded => "TwoHanded"@,
            ItemSlot::Ranged => "Ranged"@,
        }
    }

    /// Returns the name under which a reader knows the slot. The second
    /// bracer and ring slots read as the first.
    pub fn to_string(&self) -> (text: String)
        ensures
            text@ == self.spec_to_string(),
    {
        let text = match self {
            ItemSlot::Head => "Head",
            ItemSlot::Hands => "Hands",
            ItemSlot::Feet => "Feet",
            ItemSlot::Chest => "Chest",
            ItemSlot::Legs => "Legs",
            ItemSlot::Arms => "Arms",
            ItemSlot::Jewel => "Jewel",
            ItemSlot::Cloak => "Cloak",
            ItemSlot::Necklace => "Necklace",
            ItemSlot::Belt => "Belt",
            ItemSlot::Bracer => "Bracer",
            ItemSlot::Bracer2 => "Bracer",
            ItemSlot::Ring => "Ring",
            ItemSlot::Ring2 => "Ring",
            ItemSlot::RightHand => "RightHand",
            ItemSlot::LeftHand => "LeftHand",
            ItemSlot::TwoHanded => "TwoHanded",
            ItemSlot::Ranged => "Ranged",
        };
        text.to_owned()
    }
}

} // verus!
